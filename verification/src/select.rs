//! Circular selection cursors for list-backed views.
//!
//! Both list views move their cursor the same way: `next` and `previous`
//! wrap circularly over the valid indices instead of clamping at the
//! edges. Removal elsewhere can leave a cursor pointing past the end, and
//! emptying the collection leaves it dangling entirely; it is these
//! navigation steps that revalidate it, clearing the cursor on an empty
//! collection and bringing a stale index back into range.

use vstd::prelude::*;

verus! {

/// The cursor after a `next` step over a collection of `len` elements:
/// cleared when the collection is empty, the first element when nothing
/// was selected, otherwise one further, where any index at or past the
/// last wraps to the front.
pub open spec fn sel_next(sel: Option<usize>, len: int) -> Option<usize> {
    if len == 0 {
        None
    } else {
        match sel {
            None => Some(0usize),
            Some(i) => if i >= len - 1 {
                Some(0usize)
            } else {
                Some((i + 1) as usize)
            },
        }
    }
}

/// The cursor after a `previous` step over a collection of `len`
/// elements: cleared when the collection is empty, the first element when
/// nothing was selected, otherwise one back, where index 0 and any stale
/// index past the end wrap to the last element.
pub open spec fn sel_prev(sel: Option<usize>, len: int) -> Option<usize> {
    if len == 0 {
        None
    } else {
        match sel {
            None => Some(0usize),
            Some(i) => if i == 0 || i >= len {
                Some((len - 1) as usize)
            } else {
                Some((i - 1) as usize)
            },
        }
    }
}

/// The cursor after a navigation step is valid: absent exactly on an
/// empty collection, and in range otherwise, whatever it was before.
pub proof fn lemma_select_revalidates(sel: Option<usize>, len: int)
    requires
        0 <= len <= usize::MAX,
    ensures
        len == 0 ==> sel_next(sel, len) is None && sel_prev(sel, len) is None,
        len > 0 ==> (sel_next(sel, len) matches Some(i) && i < len),
        len > 0 ==> (sel_prev(sel, len) matches Some(i) && i < len),
{
}

/// On a non-empty, unchanged collection, `next` and `previous` are inverse
/// to each other from any valid starting index: either order of the pair
/// returns the cursor to where it started.
pub proof fn lemma_select_inverse(sel: Option<usize>, len: int)
    requires
        0 < len <= usize::MAX,
        sel matches Some(i) && i < len,
    ensures
        sel_prev(sel_next(sel, len), len) == sel,
        sel_next(sel_prev(sel, len), len) == sel,
{
}

/// The wrap law: `next` on the last index yields index 0, and `previous`
/// on index 0 yields the last index, for any non-empty collection.
pub proof fn lemma_select_wraps(len: int)
    requires
        0 < len <= usize::MAX,
    ensures
        sel_next(Some((len - 1) as usize), len) == Some(0usize),
        sel_prev(Some(0usize), len) == Some((len - 1) as usize),
{
}

} // verus!
