use crate::buffer::{holds_contents, BufferStore, FontBuffer};
use crate::font_file::{FontError, PietFontFile};
use std::rc::Rc;
use vstd::prelude::*;

verus! {

/// Where an enumerator stands in its snapshot.
#[derive(Debug, Clone, Copy, PartialEq, Eq, Structural)]
pub enum Cursor {
    NotStarted,
    At(usize),
    Exhausted,
}

/// The cursor after one `move_next` over a snapshot of `n` files.
pub open spec fn step(c: Cursor, n: nat) -> Cursor {
    let next: int = match c {
        Cursor::NotStarted => 0,
        Cursor::At(i) => i + 1,
        Cursor::Exhausted => n as int,
    };
    if next < n {
        Cursor::At(next as usize)
    } else {
        Cursor::Exhausted
    }
}

/// The cursor after `k` calls of `move_next`, starting from `c`.
pub open spec fn steps(c: Cursor, n: nat, k: nat) -> Cursor
    decreases k,
{
    if k == 0 {
        c
    } else {
        step(steps(c, n, (k - 1) as nat), n)
    }
}

/// Walks a snapshot of the registered buffers, one font file at a time.
pub struct PietFontFileEnumerator {
    files: Rc<Vec<FontBuffer>>,
    cursor: Cursor,
}

impl PietFontFileEnumerator {
    /// The buffers this enumerator walks, fixed when it was made.
    pub closed spec fn files(&self) -> Seq<FontBuffer> {
        self.files@
    }

    pub closed spec fn cursor(&self) -> Cursor {
        self.cursor
    }

    pub open spec fn wf(&self) -> bool {
        self.cursor() matches Cursor::At(i) ==> i < self.files().len()
    }

    /// An enumerator over `files` that has not started.
    pub fn new(files: Rc<Vec<FontBuffer>>) -> (r: PietFontFileEnumerator)
        ensures
            r.wf(),
            r.files() == files@,
            r.cursor() == Cursor::NotStarted,
    {
        PietFontFileEnumerator { files, cursor: Cursor::NotStarted }
    }

    /// Advances to the next file; true if there is one. Once past the end it
    /// stays there and keeps returning false.
    pub fn move_next(&mut self) -> (r: bool)
        requires
            old(self).wf(),
        ensures
            final(self).wf(),
            final(self).files() == old(self).files(),
            final(self).cursor() == step(old(self).cursor(), old(self).files().len()),
            r == final(self).cursor() is At,
    {
        let n = self.files.len();
        let next = match self.cursor {
            Cursor::NotStarted => Some(0usize),
            Cursor::At(i) => Some(i + 1),
            Cursor::Exhausted => None,
        };
        self.cursor = match next {
            Some(j) if j < n => Cursor::At(j),
            _ => Cursor::Exhausted,
        };
        matches!(self.cursor, Cursor::At(_))
    }

    /// A font file over the buffer at the cursor. Refused with
    /// `InvalidState` unless the last `move_next` returned true.
    pub fn get_current_font_file(&self) -> (r: Result<PietFontFile, FontError>)
        requires
            self.wf(),
        ensures
            self.cursor() matches Cursor::At(i) ==> (r matches Ok(f) && f.buffer()
                == self.files()[i as int]),
            !(self.cursor() is At) ==> r == Err::<PietFontFile, FontError>(FontError::InvalidState),
    {
        match self.cursor {
            Cursor::At(i) => Ok(PietFontFile::new(self.files[i].share())),
            _ => Err(FontError::InvalidState),
        }
    }
}

impl Default for PietFontFileEnumerator {
    fn default() -> (r: PietFontFileEnumerator)
        ensures
            r.wf(),
            r.files() == Seq::<FontBuffer>::empty(),
            r.cursor() == Cursor::NotStarted,
    {
        PietFontFileEnumerator::new(Rc::new(Vec::new()))
    }
}

/// The entry point of a custom font collection: holds the registered
/// buffers and hands out enumerators over snapshots of them. One loader
/// serves one collection.
pub struct PietFontCollectionLoader {
    fonts: BufferStore,
}

impl View for PietFontCollectionLoader {
    type V = Seq<FontBuffer>;

    closed spec fn view(&self) -> Seq<FontBuffer> {
        self.fonts@
    }
}

impl PietFontCollectionLoader {
    pub fn new() -> (r: PietFontCollectionLoader)
        ensures
            r@ == Seq::<FontBuffer>::empty(),
    {
        PietFontCollectionLoader { fonts: BufferStore::new() }
    }

    /// The number of registered buffers.
    pub fn len(&self) -> (r: usize)
        ensures
            r == self@.len(),
    {
        self.fonts.len()
    }

    /// Registers a font file held in memory and returns a handle on it.
    pub fn register(&mut self, bytes: Vec<u8>) -> (h: FontBuffer)
        ensures
            h.bytes() == bytes@,
            final(self)@ == old(self)@.push(h),
    {
        self.fonts.register(bytes)
    }

    /// Replaces all registered buffers at once; enumerators already made keep
    /// walking what they had.
    pub fn replace_all(&mut self, contents: Vec<Vec<u8>>)
        ensures
            holds_contents(contents.deep_view(), final(self)@),
    {
        self.fonts.replace_all(contents)
    }

    /// The registered buffers as they stand now.
    pub fn snapshot(&self) -> (r: Rc<Vec<FontBuffer>>)
        ensures
            r@ == self@,
    {
        self.fonts.snapshot()
    }

    /// A new enumerator over a snapshot of the registered buffers. The key
    /// is not read: a loader serves one collection.
    pub fn create_enumerator(&self, _key: &[u8]) -> (r: PietFontFileEnumerator)
        ensures
            r.wf(),
            r.files() == self@,
            r.cursor() == Cursor::NotStarted,
    {
        PietFontFileEnumerator::new(self.fonts.snapshot())
    }
}

impl Default for PietFontCollectionLoader {
    fn default() -> (r: PietFontCollectionLoader)
        ensures
            r@ == Seq::<FontBuffer>::empty(),
    {
        PietFontCollectionLoader::new()
    }
}

} // verus!
