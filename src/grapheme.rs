use unicode_segmentation::UnicodeSegmentation;
use vstd::prelude::*;
use vstd::string::StringSliceAdditionalSpecFns;

verus! {

/// The byte offsets at which the extended grapheme clusters of a text start,
/// in order, as unicode_segmentation finds them.
pub uninterp spec fn grapheme_starts_of(s: Seq<char>) -> Seq<usize>;

/// Relies on `UnicodeSegmentation::grapheme_indices(text, true)`: the start
/// offset of each extended grapheme cluster, in order.
#[verifier::external_body]
fn grapheme_starts(text: &str) -> (r: Vec<usize>)
    ensures
        r@ == grapheme_starts_of(text@),
{
    text.grapheme_indices(true).map(|(i, _)| i).collect()
}

/// The bytes `[curr_idx, next_idx)` of one grapheme cluster in a line of
/// text; `next_idx` is where the next cluster starts, or the text's end.
#[derive(Debug, Clone, Copy, PartialEq, Eq, Structural)]
pub struct GraphemeSpan {
    pub curr_idx: usize,
    pub next_idx: usize,
}

/// The span of cluster `n`, given where every cluster starts and the
/// text's length in bytes; `None` if there are not `n + 1` clusters.
pub open spec fn span_of(starts: Seq<usize>, text_len: int, n: int) -> Option<GraphemeSpan> {
    if 0 <= n < starts.len() {
        Some(
            GraphemeSpan {
                curr_idx: starts[n],
                next_idx: if n + 1 < starts.len() {
                    starts[n + 1]
                } else {
                    text_len as usize
                },
            },
        )
    } else {
        None
    }
}

/// The span of cluster `n`, from the cluster starts of a text of
/// `text_len` bytes.
pub fn span_from_starts(starts: &Vec<usize>, text_len: usize, n: usize) -> (r: Option<GraphemeSpan>)
    ensures
        r == span_of(starts@, text_len as int, n as int),
{
    if n >= starts.len() {
        return None;
    }
    let next_idx = if n + 1 < starts.len() {
        starts[n + 1]
    } else {
        text_len
    };
    Some(GraphemeSpan { curr_idx: starts[n], next_idx })
}

/// The byte span of grapheme cluster `n` of a line of text, or `None` if
/// the line has fewer than `n + 1` clusters.
pub fn grapheme_span(text: &str, n: usize) -> (r: Option<GraphemeSpan>)
    ensures
        r == span_of(grapheme_starts_of(text@), text.spec_bytes().len() as int, n as int),
{
    let starts = grapheme_starts(text);
    span_from_starts(&starts, text.len(), n)
}

} // verus!
