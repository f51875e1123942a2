use crate::buffer::FontBuffer;
use vstd::prelude::*;
use vstd::slice::slice_subrange;

verus! {

/// Why a call of the font-file protocol was refused.
#[derive(Debug, Clone, Copy, PartialEq, Eq, Structural)]
pub enum FontError {
    /// The caller broke the protocol's order of calls, e.g. asked for the
    /// current file before advancing the enumerator.
    InvalidState,
    /// A key whose length does not match the file it should name.
    InvalidArgument,
    /// A fragment that does not lie within the file.
    OutOfRange,
}

/// The container format found at the start of a font file.
#[derive(Debug, Clone, Copy, PartialEq, Eq, Structural)]
pub enum FileType {
    Unknown,
    TrueType,
    Cff,
}

/// The kind of face that a font file holds.
#[derive(Debug, Clone, Copy, PartialEq, Eq, Structural)]
pub enum FaceType {
    Unknown,
    TrueType,
    Cff,
}

/// What `analyze` reports of a font file. An unrecognised format is a
/// result (`supported == false`), not an error.
#[derive(Debug, Clone, Copy, PartialEq, Eq, Structural)]
pub struct Analysis {
    pub supported: bool,
    pub file_type: FileType,
    pub face_type: FaceType,
    pub face_count: u32,
}

/// The identity token of a font file: the address of its buffer's
/// allocation and the buffer's length.
///
/// Files over one buffer give the same key. Buffers made apart live in
/// different allocations, so while both live their keys differ, also when
/// their bytes are equal and whichever store registered them. Once every
/// handle on a buffer is gone, its address may be used again. The key tells
/// buffers apart by identity, not by content.
#[derive(Debug, Clone, Copy, PartialEq, Eq, Structural)]
pub struct FileKey {
    pub address: usize,
    pub length: u64,
}

/// The placeholder that a stream reports as its last write time: in-memory
/// fonts have none, and zero is avoided.
pub const LAST_WRITE_TIME: u64 = 10;

/// Tag of a TrueType file, "true".
pub const TAG_TRUE: u32 = 0x74727565;

/// Tag of a TrueType file, version 1.0.
pub const TAG_TRUETYPE_1: u32 = 0x00010000;

/// Tag of an OpenType file with CFF outlines, "OTTO".
pub const TAG_OTTO: u32 = 0x4F54544F;

/// The first four bytes read as a big-endian number.
pub open spec fn be_tag(b: Seq<u8>) -> int
    recommends
        b.len() >= 4,
{
    b[0] * 0x1000000 + b[1] * 0x10000 + b[2] * 0x100 + b[3]
}

/// What a file with the bytes `b` is reported to be.
pub open spec fn analysis_of(b: Seq<u8>) -> Analysis {
    if b.len() >= 4 && (be_tag(b) == TAG_TRUE || be_tag(b) == TAG_TRUETYPE_1) {
        Analysis {
            supported: true,
            file_type: FileType::TrueType,
            face_type: FaceType::TrueType,
            face_count: 1,
        }
    } else if b.len() >= 4 && be_tag(b) == TAG_OTTO {
        Analysis { supported: true, file_type: FileType::Cff, face_type: FaceType::Cff, face_count: 1 }
    } else {
        Analysis {
            supported: false,
            file_type: FileType::Unknown,
            face_type: FaceType::Unknown,
            face_count: 0,
        }
    }
}

/// The fragment `[offset, offset + length)` of `b`, if it lies within `b`.
pub open spec fn fragment_of(b: Seq<u8>, offset: int, length: int) -> Option<Seq<u8>> {
    if 0 <= offset && 0 <= length && offset + length <= b.len() {
        Some(b.subrange(offset, offset + length))
    } else {
        None
    }
}

/// Reads the four-byte big-endian tag at the start of `b`.
fn read_tag(b: &[u8]) -> (r: u32)
    requires
        b@.len() >= 4,
    ensures
        r == be_tag(b@),
{
    (b[0] as u32) * 0x1000000 + (b[1] as u32) * 0x10000 + (b[2] as u32) * 0x100 + (b[3] as u32)
}

/// One font file handed to the engine: a wrapper around one buffer.
pub struct PietFontFile {
    data: FontBuffer,
}

impl PietFontFile {
    pub closed spec fn buffer(&self) -> FontBuffer {
        self.data
    }

    pub fn new(data: FontBuffer) -> (r: PietFontFile)
        ensures
            r.buffer() == data,
    {
        PietFontFile { data }
    }

    /// The identity token of this file: the same for all files over one
    /// buffer (the address is fixed when the buffer is made, and `share`
    /// keeps it); distinct from that of any other live buffer, as far as
    /// the allocator keeps live allocations apart.
    pub fn reference_key(&self) -> (r: FileKey)
        ensures
            r.address == self.buffer().spec_address(),
            r.length == self.buffer().bytes().len(),
    {
        FileKey { address: self.data.address(), length: self.data.len() as u64 }
    }

    /// A loader over the same buffer.
    pub fn loader(&self) -> (r: PietFontFileLoader)
        ensures
            r.buffer() == self.buffer(),
    {
        PietFontFileLoader { data: self.data.share() }
    }

    /// Recognises the container format by the first four bytes. A buffer
    /// shorter than that is reported unsupported.
    pub fn analyze(&self) -> (r: Analysis)
        ensures
            r == analysis_of(self.buffer().bytes()),
    {
        let b = self.data.as_slice();
        let unknown = Analysis {
            supported: false,
            file_type: FileType::Unknown,
            face_type: FaceType::Unknown,
            face_count: 0,
        };
        if b.len() < 4 {
            return unknown;
        }
        let tag = read_tag(b);
        if tag == TAG_TRUE || tag == TAG_TRUETYPE_1 {
            Analysis {
                supported: true,
                file_type: FileType::TrueType,
                face_type: FaceType::TrueType,
                face_count: 1,
            }
        } else if tag == TAG_OTTO {
            Analysis {
                supported: true,
                file_type: FileType::Cff,
                face_type: FaceType::Cff,
                face_count: 1,
            }
        } else {
            unknown
        }
    }
}

impl Default for PietFontFile {
    fn default() -> (r: PietFontFile)
        ensures
            r.buffer().bytes() == Seq::<u8>::empty(),
    {
        PietFontFile { data: FontBuffer::empty() }
    }
}

/// Opens streams over one buffer.
pub struct PietFontFileLoader {
    data: FontBuffer,
}

impl PietFontFileLoader {
    pub closed spec fn buffer(&self) -> FontBuffer {
        self.data
    }

    /// Opens a stream over this loader's buffer. Only the key's length is
    /// checked against the buffer's: its content is not compared. This is a
    /// cheap sanity check on the caller, not a proof of identity.
    pub fn open_stream(&self, key: usize, key_length: u64) -> (r: Result<PietFontFileStream, FontError>)
        ensures
            key_length == self.buffer().bytes().len() <==> r is Ok,
            r matches Ok(s) ==> s.buffer() == self.buffer(),
            r matches Err(e) ==> e == FontError::InvalidArgument,
    {
        if key_length != self.data.len() as u64 {
            return Err(FontError::InvalidArgument);
        }
        Ok(PietFontFileStream { data: self.data.share() })
    }
}

impl Default for PietFontFileLoader {
    fn default() -> (r: PietFontFileLoader)
        ensures
            r.buffer().bytes() == Seq::<u8>::empty(),
    {
        PietFontFileLoader { data: FontBuffer::empty() }
    }
}

/// Random-access reads over one buffer. It has no cursor: every read
/// stands alone.
pub struct PietFontFileStream {
    data: FontBuffer,
}

impl PietFontFileStream {
    pub closed spec fn buffer(&self) -> FontBuffer {
        self.data
    }

    /// The bytes `[offset, offset + length)` of the buffer, borrowed. A range
    /// that does not lie within the buffer is refused, also where
    /// `offset + length` would not fit in 64 bits.
    pub fn read_fragment(&self, offset: u64, length: u64) -> (r: Result<&[u8], FontError>)
        ensures
            fragment_of(self.buffer().bytes(), offset as int, length as int) matches Some(f) ==> (r
                matches Ok(s) && s@ == f),
            fragment_of(self.buffer().bytes(), offset as int, length as int) is None ==> r
                == Err::<&[u8], FontError>(FontError::OutOfRange),
    {
        let b = self.data.as_slice();
        let len = b.len() as u64;
        if offset > len || length > len - offset {
            return Err(FontError::OutOfRange);
        }
        Ok(slice_subrange(b, offset as usize, (offset + length) as usize))
    }

    /// Gives back a fragment; nothing is pinned or cached, so this does nothing.
    pub fn release_fragment(&self, _fragment: &[u8]) {
    }

    /// The exact length of the buffer.
    pub fn file_size(&self) -> (r: u64)
        ensures
            r == self.buffer().bytes().len(),
    {
        self.data.len() as u64
    }

    /// A constant, nonzero stand-in: in-memory fonts have no write time.
    pub fn last_write_time(&self) -> (r: u64)
        ensures
            r == LAST_WRITE_TIME,
            r != 0,
    {
        LAST_WRITE_TIME
    }
}

impl Default for PietFontFileStream {
    fn default() -> (r: PietFontFileStream)
        ensures
            r.buffer().bytes() == Seq::<u8>::empty(),
    {
        PietFontFileStream { data: FontBuffer::empty() }
    }
}

} // verus!
