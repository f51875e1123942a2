//! An in-memory font collection for a text engine that asks for fonts
//! through enumerators, loaders and streams: fonts are registered as byte
//! buffers and handed out by identity, with format sniffing and
//! bounds-checked reads.

pub mod buffer;
pub mod collection;
pub mod font_file;
pub mod grapheme;
pub mod laws;
pub mod text;

pub use buffer::{BufferStore, FontBuffer};
pub use collection::{Cursor, PietFontCollectionLoader, PietFontFileEnumerator};
pub use font_file::{
    Analysis, FaceType, FileKey, FileType, FontError, PietFontFile, PietFontFileLoader,
    PietFontFileStream, LAST_WRITE_TIME,
};
pub use grapheme::{grapheme_span, span_from_starts, GraphemeSpan};
pub use text::{Text, TextError, TextLayout, TextLayoutBuilder};
