use std::rc::Rc;
use vstd::prelude::*;

verus! {

/// Relies on `Rc::clone`: the new handle points at the same value.
#[verifier::external_body]
pub(crate) fn share<T>(r: &Rc<T>) -> (s: Rc<T>)
    ensures
        s == *r,
{
    Rc::clone(r)
}

/// Relies on `Rc::as_ptr`: the address of the allocation that holds the
/// bytes. Nothing is promised of its value; while the allocation lives, no
/// other live allocation has the same address.
#[verifier::external_body]
fn allocation_address(r: &Rc<Vec<u8>>) -> usize {
    Rc::as_ptr(r) as usize
}

/// One registered font file: an immutable, shared byte buffer, and the
/// address of its allocation, taken once when the buffer is made.
///
/// Handles made by `share` point at the same allocation and carry the same
/// address; every `FontBuffer::new` makes a new allocation, so two live
/// buffers made apart have different addresses even when their bytes are
/// equal. The address names the buffer only while some handle on it lives.
pub struct FontBuffer {
    address: usize,
    data: Rc<Vec<u8>>,
}

impl FontBuffer {
    /// The address of the buffer's allocation.
    pub closed spec fn spec_address(&self) -> usize {
        self.address
    }

    pub closed spec fn bytes(&self) -> Seq<u8> {
        self.data@
    }

    /// A new buffer holding `bytes`, in an allocation of its own.
    pub fn new(bytes: Vec<u8>) -> (r: FontBuffer)
        ensures
            r.bytes() == bytes@,
    {
        let data = Rc::new(bytes);
        let address = allocation_address(&data);
        FontBuffer { address, data }
    }

    /// A new empty buffer, as held by objects made with `default`.
    pub fn empty() -> (r: FontBuffer)
        ensures
            r.bytes() == Seq::<u8>::empty(),
    {
        FontBuffer::new(Vec::new())
    }

    pub fn address(&self) -> (r: usize)
        ensures
            r == self.spec_address(),
    {
        self.address
    }

    pub fn len(&self) -> (r: usize)
        ensures
            r == self.bytes().len(),
    {
        self.data.len()
    }

    pub fn as_slice(&self) -> (r: &[u8])
        ensures
            r@ == self.bytes(),
    {
        self.data.as_slice()
    }

    /// A second handle on the same buffer; no bytes are copied.
    pub fn share(&self) -> (r: FontBuffer)
        ensures
            r == *self,
    {
        FontBuffer { address: self.address, data: share(&self.data) }
    }
}

/// The registered buffers of a collection, in registration order.
///
/// Mutation takes `&mut self`, so there is one writer at a time; a snapshot
/// is a shared handle on the sequence as it stood and is never changed by a
/// later registration or replacement.
pub struct BufferStore {
    buffers: Rc<Vec<FontBuffer>>,
}

/// `bufs` holds, in order, buffers with the bytes `contents`.
pub open spec fn holds_contents(contents: Seq<Seq<u8>>, bufs: Seq<FontBuffer>) -> bool {
    &&& bufs.len() == contents.len()
    &&& forall|i: int| 0 <= i < bufs.len() ==> #[trigger] bufs[i].bytes() == contents[i]
}

impl View for BufferStore {
    type V = Seq<FontBuffer>;

    closed spec fn view(&self) -> Seq<FontBuffer> {
        self.buffers@
    }
}

impl BufferStore {
    /// An empty store.
    pub fn new() -> (r: BufferStore)
        ensures
            r@ == Seq::<FontBuffer>::empty(),
    {
        BufferStore { buffers: Rc::new(Vec::new()) }
    }

    pub fn len(&self) -> (r: usize)
        ensures
            r == self@.len(),
    {
        self.buffers.len()
    }

    /// Appends a new buffer holding `bytes` and returns a handle on it.
    pub fn register(&mut self, bytes: Vec<u8>) -> (h: FontBuffer)
        ensures
            h.bytes() == bytes@,
            final(self)@ == old(self)@.push(h),
    {
        let mut taken: Rc<Vec<FontBuffer>> = Rc::new(Vec::new());
        std::mem::swap(&mut taken, &mut self.buffers);
        let mut list = match Rc::try_unwrap(taken) {
            Ok(v) => v,
            Err(shared) => copy_list(&shared),
        };
        let h = FontBuffer::new(bytes);
        list.push(h.share());
        self.buffers = Rc::new(list);
        h
    }

    /// Replaces the whole sequence by new buffers holding `contents`, in order.
    /// Snapshots taken before keep what they held.
    pub fn replace_all(&mut self, contents: Vec<Vec<u8>>)
        ensures
            holds_contents(contents.deep_view(), final(self)@),
    {
        let ghost order = contents.deep_view();
        let mut rest = reversed(contents);
        let mut list: Vec<FontBuffer> = Vec::new();
        while rest.len() > 0
            invariant
                list@.len() + rest@.len() == order.len(),
                holds_contents(order.subrange(0, list@.len() as int), list@),
                forall|k: int|
                    0 <= k < rest@.len() ==> #[trigger] rest@[k]@ == order[order.len() - 1 - k],
            decreases rest.len(),
        {
            let bytes = rest.pop().unwrap();
            list.push(FontBuffer::new(bytes));
        }
        assert(order.subrange(0, order.len() as int) == order);
        self.buffers = Rc::new(list);
    }

    /// The sequence as it stands now, shared rather than copied.
    pub fn snapshot(&self) -> (r: Rc<Vec<FontBuffer>>)
        ensures
            r@ == self@,
    {
        share(&self.buffers)
    }
}

/// The same vectors in the opposite order.
fn reversed(v: Vec<Vec<u8>>) -> (r: Vec<Vec<u8>>)
    ensures
        r@.len() == v@.len(),
        forall|k: int| 0 <= k < r@.len() ==> #[trigger] r@[k]@ == v@[v@.len() - 1 - k]@,
{
    let ghost orig = v@;
    let mut src = v;
    let mut r: Vec<Vec<u8>> = Vec::new();
    while src.len() > 0
        invariant
            src@.len() + r@.len() == orig.len(),
            src@ == orig.subrange(0, src@.len() as int),
            forall|k: int| 0 <= k < r@.len() ==> #[trigger] r@[k] == orig[orig.len() - 1 - k],
        decreases src.len(),
    {
        let x = src.pop().unwrap();
        r.push(x);
    }
    r
}

/// A handle-by-handle copy of a sequence of buffers.
fn copy_list(src: &Vec<FontBuffer>) -> (r: Vec<FontBuffer>)
    ensures
        r@ == src@,
{
    let mut r: Vec<FontBuffer> = Vec::new();
    let mut i: usize = 0;
    while i < src.len()
        invariant
            i <= src@.len(),
            r@ == src@.subrange(0, i as int),
        decreases src@.len() - i,
    {
        r.push(src[i].share());
        i = i + 1;
    }
    assert(r@ == src@.subrange(0, src@.len() as int));
    r
}

} // verus!
