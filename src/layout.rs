use vstd::prelude::*;

verus! {

/// Space on each side of a slot's label, in pixels.
pub const TEXT_PADDING: i32 = 20;

/// The left edge of slot `i` when the labels are `w` pixels wide: each slot
/// before it takes its label's width plus padding on both sides.
pub open spec fn slot_left(w: Seq<i32>, i: int) -> int
    decreases i,
{
    if i <= 0 {
        0
    } else {
        slot_left(w, i - 1) + w[i - 1] + 2 * TEXT_PADDING
    }
}

/// How far the marker under slot `i` stays from the slot's edges: the
/// focused slot's marker is wider.
pub open spec fn marker_inset(i: int, focused: int) -> int {
    if i == focused {
        5
    } else {
        10
    }
}

/// Whether the horizontal position `x` falls on the marker of slot `i`.
pub open spec fn on_marker(w: Seq<i32>, focused: int, x: int, i: int) -> bool {
    &&& slot_left(w, i) + marker_inset(i, focused) <= x
    &&& x <= slot_left(w, i) + w[i] + 2 * TEXT_PADDING - marker_inset(i, focused)
}

/// Label widths that a text measure can give.
pub open spec fn widths_valid(w: Seq<i32>) -> bool {
    forall|i: int| 0 <= i < w.len() ==> #[trigger] w[i] >= 0
}

proof fn lemma_slot_left_monotonic(w: Seq<i32>, i: int, j: int)
    requires
        widths_valid(w),
        0 <= i <= j <= w.len(),
    ensures
        slot_left(w, i) <= slot_left(w, j),
    decreases j - i,
{
    if i < j {
        lemma_slot_left_monotonic(w, i, j - 1);
        assert(w[j - 1] >= 0);
    }
}

/// The slot whose marker lies under the horizontal position `x`, the first
/// one where markers would overlap, or `None`.
pub fn slot_at(text_widths: &Vec<i32>, focused: usize, x: i32) -> (r: Option<usize>)
    requires
        widths_valid(text_widths@),
    ensures
        r matches Some(i) ==> i < text_widths@.len() && on_marker(text_widths@, focused as int, x as int, i as int)
            && forall|j: int| 0 <= j < i ==> !on_marker(text_widths@, focused as int, x as int, j),
        r is None ==> forall|j: int|
            0 <= j < text_widths@.len() ==> !on_marker(text_widths@, focused as int, x as int, j),
{
    let ghost w = text_widths@;
    let mut left: i64 = 0;
    let mut i: usize = 0;
    while i < text_widths.len()
        invariant
            w == text_widths@,
            widths_valid(w),
            i <= w.len(),
            left == slot_left(w, i as int),
            0 <= left <= i32::MAX as int + i32::MAX as int + 2 * TEXT_PADDING,
            forall|j: int| 0 <= j < i ==> !on_marker(w, focused as int, x as int, j),
        decreases w.len() - i,
    {
        if left > x as i64 {
            proof {
                assert forall|j: int| i <= j < w.len() implies !on_marker(w, focused as int, x as int, j) by {
                    lemma_slot_left_monotonic(w, i as int, j);
                }
            }
            return None;
        }
        let inset: i64 = if i == focused {
            5
        } else {
            10
        };
        let width = text_widths[i] as i64;
        if left + inset <= x as i64 && x as i64 <= left + width + 2 * (TEXT_PADDING as i64) - inset {
            return Some(i);
        }
        assert(w[i as int] >= 0);
        left = left + width + 2 * (TEXT_PADDING as i64);
        i += 1;
    }
    None
}

/// The width of all slots side by side, or `None` where it exceeds what a
/// window width can hold.
pub fn slots_width(text_widths: &Vec<i32>) -> (r: Option<i32>)
    requires
        widths_valid(text_widths@),
    ensures
        r matches Some(v) ==> v == slot_left(text_widths@, text_widths@.len() as int),
        r is None <==> slot_left(text_widths@, text_widths@.len() as int) > i32::MAX,
{
    let ghost w = text_widths@;
    let mut left: i64 = 0;
    let mut i: usize = 0;
    while i < text_widths.len()
        invariant
            w == text_widths@,
            widths_valid(w),
            i <= w.len(),
            left == slot_left(w, i as int),
            0 <= left <= i32::MAX,
        decreases w.len() - i,
    {
        assert(w[i as int] >= 0);
        left = left + text_widths[i] as i64 + 2 * (TEXT_PADDING as i64);
        if left > i32::MAX as i64 {
            proof {
                lemma_slot_left_monotonic(w, i + 1, w.len() as int);
            }
            return None;
        }
        i += 1;
    }
    Some(left as i32)
}

} // verus!
