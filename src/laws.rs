use crate::buffer::FontBuffer;
use crate::collection::{step, steps, Cursor};
use crate::font_file::fragment_of;
use vstd::prelude::*;

verus! {

/// Registering buffers one by one into an empty collection: after `k`
/// registrations the collection, and so any snapshot of it, holds `k`
/// buffers, the handles in registration order.
pub proof fn lemma_registered_count(history: Seq<Seq<FontBuffer>>, handles: Seq<FontBuffer>)
    requires
        history.len() == handles.len() + 1,
        history[0] == Seq::<FontBuffer>::empty(),
        forall|k: int|
            0 <= k < handles.len() ==> #[trigger] history[k + 1] == history[k].push(handles[k]),
    ensures
        forall|k: int| 0 <= k < history.len() ==> #[trigger] history[k] == handles.subrange(0, k),
    decreases handles.len(),
{
    if handles.len() > 0 {
        let n = handles.len() - 1;
        let h2 = history.subrange(0, history.len() - 1);
        let hs2 = handles.subrange(0, n);
        assert forall|k: int| 0 <= k < hs2.len() implies #[trigger] h2[k + 1] == h2[k].push(
            hs2[k],
        ) by {
            assert(history[k + 1] == history[k].push(handles[k]));
        }
        lemma_registered_count(h2, hs2);
        assert forall|k: int| 0 <= k < history.len() implies #[trigger] history[k]
            == handles.subrange(0, k) by {
            if k < history.len() - 1 {
                assert(h2[k] == hs2.subrange(0, k));
                assert(hs2.subrange(0, k) == handles.subrange(0, k));
            } else {
                assert(history[n + 1] == history[n].push(handles[n]));
                assert(h2[n] == hs2.subrange(0, n));
                assert(handles.subrange(0, n + 1) == handles.subrange(0, n).push(handles[n]));
            }
        }
    }
}

/// An enumerator over `n` files, advanced `k` times from the start, stands
/// at file `k - 1` while `1 <= k <= n` and past the end from then on; so
/// `move_next` returns true exactly `n` times, then false for ever.
pub proof fn lemma_move_next_count(n: nat, k: nat)
    requires
        n <= usize::MAX,
    ensures
        steps(Cursor::NotStarted, n, k) == (if k == 0 {
            Cursor::NotStarted
        } else if k <= n {
            Cursor::At((k - 1) as usize)
        } else {
            Cursor::Exhausted
        }),
        steps(Cursor::NotStarted, n, k) is At <==> 1 <= k <= n,
    decreases k,
{
    if k > 0 {
        lemma_move_next_count(n, (k - 1) as nat);
    }
}

/// An enumerator made while the collection held `before` keeps walking
/// `before` after a buffer `h` is registered: advanced `k` times it has a
/// current file exactly while `1 <= k <= before.len()`, so the new buffer
/// never comes up, though the collection now holds one more.
pub proof fn lemma_snapshot_isolation(
    files: Seq<FontBuffer>,
    before: Seq<FontBuffer>,
    after: Seq<FontBuffer>,
    h: FontBuffer,
    k: nat,
)
    requires
        files == before,
        after == before.push(h),
        after.len() <= usize::MAX,
    ensures
        steps(Cursor::NotStarted, files.len(), k) is At <==> 1 <= k <= before.len(),
        files.len() + 1 == after.len(),
{
    lemma_move_next_count(files.len(), k);
}

/// A collection of one buffer with bytes `b`: the first `move_next` finds
/// it, and the fragment from 0 of the full length, read from a stream over
/// that buffer, is `b` itself.
pub proof fn lemma_round_trip(files: Seq<FontBuffer>, b: Seq<u8>)
    requires
        files.len() == 1,
        files[0].bytes() == b,
    ensures
        step(Cursor::NotStarted, files.len()) == Cursor::At(0),
        fragment_of(files[0].bytes(), 0, b.len() as int) == Some(b),
{
    assert(b.subrange(0, b.len() as int) == b);
}

} // verus!
