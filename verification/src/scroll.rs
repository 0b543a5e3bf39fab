//! The arithmetic shared by the views that keep a cursor inside a window of
//! the screen: where the window starts and where the cursor stands after the
//! window is resized or the cursor's datum changes.
use vstd::prelude::*;

verus! {

/// `n - 1`, or 0 when `n` is 0.
pub open spec fn dec(n: int) -> int {
    if n > 0 { n - 1 } else { 0 }
}

/// `a - b`, or 0 when `b` is larger.
pub open spec fn sat_sub(a: int, b: int) -> int {
    if a >= b { a - b } else { 0 }
}

/// A window of `size` cells from screen position `view_start`, with the cursor
/// at `view_head` on datum `head` and datum `start` first in the window: the
/// cursor lies in the window and shows the head.
pub open spec fn window_wf(head: int, start: int, view_head: int, view_start: int, size: int) -> bool {
    &&& view_start <= view_head <= view_start + dec(size)
    &&& start + (view_head - view_start) == head
    &&& view_start + size <= u16::MAX
}

/// After a resize to `new_size` cells from `new_start` with the head at
/// `new_head`: the first datum shown and the cursor's screen position. The
/// cursor keeps its offset in the window where it still fits.
pub open spec fn resized(view_head: int, view_start: int, new_head: int, new_start: int, new_size: int) -> (int, int) {
    let position = view_head - view_start;
    if new_head < new_size {
        (0, new_start + new_head)
    } else if position > new_size - 1 {
        (new_head - (new_size - 1), new_start + new_size - 1)
    } else {
        (sat_sub(new_head, position), new_start + position)
    }
}

/// The resize's arithmetic stays within `u16`.
pub open spec fn resized_ok(view_head: int, view_start: int, new_head: int, new_start: int, new_size: int) -> bool {
    let position = view_head - view_start;
    &&& view_start <= view_head
    &&& if new_head < new_size {
        new_start + new_head <= u16::MAX
    } else if position > new_size - 1 {
        new_size >= 1 && new_start + new_size <= u16::MAX
    } else {
        new_size >= 1 && new_start + position <= u16::MAX
    }
}

/// The room the cursor has to move forward without scrolling.
pub open spec fn room(view_head: int, view_start: int, size: int) -> int {
    sat_sub(view_start + dec(size), view_head)
}

/// After the head moves to `new_head`: the first datum shown, the cursor's
/// screen position, and whether the window scrolled.
pub open spec fn stepped(head: int, start: int, view_head: int, view_start: int, size: int, new_head: int) -> (int, int, bool) {
    if head == new_head {
        (start, view_head, false)
    } else if head < new_head {
        let delta = new_head - head;
        let max_delta = room(view_head, view_start, size);
        if delta < max_delta {
            (start, view_head + delta, false)
        } else {
            (start + delta - max_delta, view_head + max_delta, true)
        }
    } else {
        let delta = head - new_head;
        let max_delta = sat_sub(view_head, view_start);
        if delta <= max_delta {
            (start, view_head - delta, false)
        } else {
            let s = sat_sub(start, delta - max_delta);
            (s, view_start + (new_head - s), true)
        }
    }
}

/// The step's arithmetic stays in range.
pub open spec fn stepped_ok(head: int, start: int, view_head: int, view_start: int, size: int, new_head: int) -> bool {
    if head < new_head {
        let delta = new_head - head;
        let max_delta = room(view_head, view_start, size);
        &&& view_start + dec(size) <= u16::MAX
        &&& delta >= max_delta ==> start + delta - max_delta <= usize::MAX
    } else if new_head < head {
        let delta = head - new_head;
        let max_delta = sat_sub(view_head, view_start);
        let s = sat_sub(start, delta - max_delta);
        delta > max_delta ==> s <= new_head && new_head - s <= u16::MAX && view_start + (new_head - s) <= u16::MAX
    } else {
        true
    }
}

/// A resize onto a window at least one cell long that fits on the screen
/// never overflows and leaves the cursor in the window on the new head.
pub proof fn lemma_resized_wf(view_head: int, view_start: int, new_head: int, new_start: int, new_size: int)
    requires
        view_start <= view_head,
        0 <= new_head,
        0 <= new_start,
        1 <= new_size,
        new_start + new_size <= u16::MAX,
    ensures
        resized_ok(view_head, view_start, new_head, new_start, new_size),
        window_wf(new_head, resized(view_head, view_start, new_head, new_start, new_size).0,
            resized(view_head, view_start, new_head, new_start, new_size).1, new_start, new_size),
{
}

/// From a well-formed window, moving the head to any datum never overflows
/// and leaves the window well formed on the new head.
pub proof fn lemma_stepped_wf(head: int, start: int, view_head: int, view_start: int, size: int, new_head: int)
    requires
        window_wf(head, start, view_head, view_start, size),
        0 <= start,
        0 <= size,
        0 <= new_head <= usize::MAX,
    ensures
        stepped_ok(head, start, view_head, view_start, size, new_head),
        window_wf(new_head, stepped(head, start, view_head, view_start, size, new_head).0,
            stepped(head, start, view_head, view_start, size, new_head).1, view_start, size),
{
    if head < new_head {
        let delta = new_head - head;
        let max_delta = room(view_head, view_start, size);
        assert(max_delta == view_start + dec(size) - view_head);
        assert(start + delta - max_delta <= new_head);
    } else if new_head < head {
        let delta = head - new_head;
        let max_delta = sat_sub(view_head, view_start);
        assert(max_delta == view_head - view_start);
        if delta > max_delta {
            assert(sat_sub(start, delta - max_delta) == new_head);
        }
    }
}

/// A step scrolls as little as keeps the cursor in the window: from a
/// well-formed window at least one cell long, the first datum shown becomes
/// the new head when that lies before the window, the datum that puts the
/// new head on the window's last cell when it lies past it, and stays as it
/// was otherwise; a step that reports no scroll keeps it.
pub proof fn lemma_stepped_scrolls_least(head: int, start: int, view_head: int, view_start: int, size: int, new_head: int)
    requires
        window_wf(head, start, view_head, view_start, size),
        0 <= start,
        1 <= size,
        0 <= new_head,
    ensures
        stepped(head, start, view_head, view_start, size, new_head).0 == if new_head < start {
            new_head
        } else if new_head >= start + size {
            new_head + 1 - size
        } else {
            start
        },
        !stepped(head, start, view_head, view_start, size, new_head).2
            ==> stepped(head, start, view_head, view_start, size, new_head).0 == start,
{
}

/// A resize keeps the cursor where it still fits: with a window at least one
/// cell long, a head that fits in the window is shown from the first datum,
/// and otherwise a cursor whose offset in the old window lies within the new
/// one keeps that offset.
pub proof fn lemma_resized_keeps_offset(view_head: int, view_start: int, new_head: int, new_start: int, new_size: int)
    requires
        view_start <= view_head,
        1 <= new_size,
    ensures
        new_head < new_size ==> resized(view_head, view_start, new_head, new_start, new_size).0 == 0,
        new_head >= new_size && view_head - view_start < new_size
            ==> resized(view_head, view_start, new_head, new_start, new_size).1 - new_start == view_head - view_start,
{
}

} // verus!
