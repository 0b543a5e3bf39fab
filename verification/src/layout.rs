//! Stacking views down a rectangle of the screen.
use vstd::prelude::*;
use crate::rect::{Rect, shift_fits};
use crate::signed::{signed16, wrap16, in_i16};

verus! {

/// Views that can be built into a rectangle.
pub trait BuildView<T: Resize>: Sized {
    /// The view can be built in `rect`.
    spec fn build_ok(self, rect: Rect) -> bool;

    /// `r` is a view that `build` makes of these parameters in `rect`.
    spec fn built(self, rect: Rect, r: T) -> bool;

    fn build(self, rect: &Rect) -> (r: T)
        requires
            self.build_ok(*rect),
        ensures
            self.built(*rect, r);
}

/// Views that know how many rows they could fill.
pub trait GetMaxHeight {
    spec fn spec_max_height(&self) -> u16;

    fn get_max_height(&self) -> (r: u16)
        ensures
            r == self.spec_max_height();
}

/// Views that know how many rows they show.
pub trait GetDisplayHeight {
    spec fn spec_display_height(&self) -> u16;

    fn get_display_height(&self) -> (r: u16)
        ensures
            r == self.spec_display_height();
}

/// Views that can be moved into another rectangle.
pub trait Resize: Sized {
    /// The view can be moved into `rect`.
    spec fn resize_ok(&self, rect: Rect) -> bool;

    /// `self` is what resizing `before` into `rect` made of it.
    spec fn resized_from(&self, before: &Self, rect: Rect) -> bool;

    fn resize(&mut self, rect: &Rect)
        requires
            old(self).resize_ok(*rect),
        ensures
            final(self).resized_from(old(self), *rect);
}

impl<T> GetMaxHeight for Vec<T> {
    open spec fn spec_max_height(&self) -> u16 {
        if self@.len() <= u16::MAX { self@.len() as u16 } else { u16::MAX }
    }

    /// One row per unit, at most `u16::MAX`.
    fn get_max_height(&self) -> (r: u16) {
        if self.len() <= u16::MAX as usize { self.len() as u16 } else { u16::MAX }
    }
}

/// `a` or `b`, whichever is smaller.
pub open spec fn min16(a: u16, b: u16) -> u16 {
    if a < b { a } else { b }
}

/// The rectangle that `fill` clears below a view showing `display_height`
/// rows in `rect`: `rect` with its north edge moved down by one less than the
/// rows shown (the rows shown capped at the rectangle's height).
pub open spec fn spec_fill(rect: Rect, display_height: u16) -> Rect {
    let shown = min16(display_height, rect.h);
    let step = if shown > 0 { shown - 1 } else { 0 };
    let d = signed16(step as u16);
    Rect { y: wrap16(signed16(rect.y) + d), h: wrap16(signed16(rect.h) - d), ..rect }
}

/// The arithmetic of `fill` stays within `i16`.
pub open spec fn fill_ok(rect: Rect, display_height: u16) -> bool {
    let shown = min16(display_height, rect.h);
    let step = if shown > 0 { shown - 1 } else { 0 };
    let d = signed16(step as u16);
    &&& d != i16::MIN
    &&& shift_fits(rect.y, rect.h, (-d) as i16)
}

/// The rectangle to clear below `view` in `rect`, where the view's rows end.
pub fn fill<V: GetDisplayHeight>(rect: &Rect, view: &V) -> (r: Rect)
    requires
        fill_ok(*rect, view.spec_display_height()),
    ensures
        r == spec_fill(*rect, view.spec_display_height()),
{
    let h = view.get_display_height();
    let display_height = if h < rect.height() { h } else { rect.height() };
    #[verifier::truncate]
    let step = display_height.saturating_sub(1) as i16;
    proof {
        assert(step as int == signed16(if display_height > 0 { (display_height - 1) as u16 } else { 0u16 })) by (bit_vector)
            requires step == (if display_height > 0 { (display_height - 1) as u16 } else { 0u16 }) as i16;
    }
    rect.shift_north(step * -1)
}

/// The rectangles `get_display_bounds` gives views of heights `heights` in
/// `rect`: each takes as many rows as it wants of those left, and once none
/// are left each gets the empty remainder.
pub open spec fn display_bounds(rect: Rect, heights: Seq<u16>) -> Seq<Rect>
    decreases heights.len(),
{
    if heights.len() == 0 {
        seq![]
    } else if rect.h > 0 {
        let h = min16(heights[0], rect.h);
        let d = signed16(h);
        let rest = Rect { y: wrap16(signed16(rect.y) + d), h: wrap16(signed16(rect.h) - d), ..rect };
        seq![Rect { h, ..rect }] + display_bounds(rest, heights.drop_first())
    } else {
        seq![rect] + display_bounds(rect, heights.drop_first())
    }
}

/// Every step of `get_display_bounds` stays within `i16`.
pub open spec fn display_bounds_ok(rect: Rect, heights: Seq<u16>) -> bool
    decreases heights.len(),
{
    if heights.len() == 0 {
        true
    } else if rect.h > 0 {
        let h = min16(heights[0], rect.h);
        let d = signed16(h);
        let rest = Rect { y: wrap16(signed16(rect.y) + d), h: wrap16(signed16(rect.h) - d), ..rect };
        &&& d != i16::MIN
        &&& shift_fits(rect.y, rect.h, (-d) as i16)
        &&& display_bounds_ok(rest, heights.drop_first())
    } else {
        display_bounds_ok(rect, heights.drop_first())
    }
}

/// The heights that `views` could fill.
pub open spec fn max_heights<V: GetMaxHeight>(views: Seq<&V>) -> Seq<u16> {
    Seq::new(views.len(), |i: int| views[i].spec_max_height())
}

/// One step of stacking: what `display_bounds_ok` says of the first view.
proof fn lemma_bounds_ok_step(rect: Rect, heights: Seq<u16>)
    requires
        display_bounds_ok(rect, heights),
        heights.len() > 0,
        rect.h > 0,
    ensures
        signed16(min16(heights[0], rect.h)) != i16::MIN,
        shift_fits(rect.y, rect.h, (-signed16(min16(heights[0], rect.h))) as i16),
        display_bounds_ok(
            Rect {
                y: wrap16(signed16(rect.y) + signed16(min16(heights[0], rect.h))),
                h: wrap16(signed16(rect.h) - signed16(min16(heights[0], rect.h))),
                ..rect
            },
            heights.drop_first(),
        ),
{
}

/// The rectangles that views of heights `heights` stacked down `rect` take.
#[verifier::spinoff_prover]
pub fn stack_bounds(rect: &Rect, heights: &Vec<u16>) -> (r: Vec<Rect>)
    requires
        display_bounds_ok(*rect, heights@),
    ensures
        r@ == display_bounds(*rect, heights@),
{
    let mut remaining = *rect;
    let mut out: Vec<Rect> = Vec::new();
    let mut i: usize = 0;
    proof {
        assert(heights@.skip(0) =~= heights@);
    }
    while i < heights.len()
        invariant
            0 <= i <= heights.len(),
            display_bounds_ok(remaining, heights@.skip(i as int)),
            display_bounds(*rect, heights@) == out@ + display_bounds(remaining, heights@.skip(i as int)),
        decreases heights.len() - i,
    {
        let ghost tail = heights@.skip(i as int);
        proof {
            assert(tail.drop_first() =~= heights@.skip(i + 1));
            assert(tail[0] == heights@[i as int]);
        }
        if remaining.h > 0 {
            proof {
                lemma_bounds_ok_step(remaining, tail);
            }
            let mh = heights[i];
            let view_height = if mh < remaining.h { mh } else { remaining.h };
            let mut current = remaining;
            current.h = view_height;
            out.push(current);
            #[verifier::truncate]
            let d = view_height as i16;
            proof {
                assert(d as int == signed16(view_height)) by (bit_vector)
                    requires d == view_height as i16;
                assert(view_height == min16(tail[0], remaining.h));
                assert(signed16(view_height) != i16::MIN);
                assert(d != i16::MIN);
            }
            remaining = remaining.shift_north(d * -1);
        } else {
            out.push(remaining);
        }
        proof {
            assert(out@ + display_bounds(remaining, heights@.skip(i + 1)) =~= out@.drop_last() + (seq![out@.last()] + display_bounds(remaining, heights@.skip(i + 1))));
        }
        i = i + 1;
    }
    proof {
        assert(heights@.skip(heights.len() as int) =~= Seq::<u16>::empty());
        assert(out@ + Seq::<Rect>::empty() =~= out@);
    }
    out
}

/// The heights that `views` could fill, in order.
fn heights_of<V: GetMaxHeight>(views: &Vec<&V>) -> (r: Vec<u16>)
    ensures
        r@ == max_heights(views@),
{
    let mut out: Vec<u16> = Vec::new();
    let mut i: usize = 0;
    while i < views.len()
        invariant
            0 <= i <= views.len(),
            out@ =~= max_heights(views@).take(i as int),
        decreases views.len() - i,
    {
        let h = views[i].get_max_height();
        out.push(h);
        i = i + 1;
        proof {
            assert(out@ =~= max_heights(views@).take(i as int));
        }
    }
    proof {
        assert(max_heights(views@).take(views.len() as int) =~= max_heights(views@));
    }
    out
}

/// The rectangles that views stacked down `rect` take, one per view: each takes
/// as many rows as it could fill of those left; once no rows are left each
/// gets the empty remainder.
pub fn get_display_bounds<V: GetMaxHeight>(rect: &Rect, views: &Vec<&V>) -> (r: Vec<Rect>)
    requires
        display_bounds_ok(*rect, max_heights(views@)),
    ensures
        r@ == display_bounds(*rect, max_heights(views@)),
{
    let heights = heights_of(views);
    stack_bounds(rect, &heights)
}

/// The rectangles `met_display_bounds` gives views of heights `heights` in
/// `rect`: as `display_bounds`, except that the view met when no rows are
/// left is passed over, and each view after it gets the empty remainder.
pub open spec fn met_bounds(rect: Rect, heights: Seq<u16>) -> Seq<Rect>
    decreases heights.len(),
{
    if heights.len() == 0 {
        seq![]
    } else if rect.h > 0 {
        let h = min16(heights[0], rect.h);
        let d = signed16(h);
        let rest = Rect { y: wrap16(signed16(rect.y) + d), h: wrap16(signed16(rect.h) - d), ..rect };
        seq![Rect { h, ..rect }] + met_bounds(rest, heights.drop_first())
    } else {
        Seq::new((heights.len() - 1) as nat, |i: int| rect)
    }
}

/// The rectangles that views stacked down `rect` take while rows are left;
/// the view that finds none left gets no rectangle, and each one after it
/// gets the empty remainder.
#[verifier::spinoff_prover]
pub fn met_display_bounds<V: GetMaxHeight>(rect: &Rect, views: &Vec<&V>) -> (r: Vec<Rect>)
    requires
        display_bounds_ok(*rect, max_heights(views@)),
    ensures
        r@ == met_bounds(*rect, max_heights(views@)),
{
    let ghost heights = max_heights(views@);
    let mut remaining = *rect;
    let mut out: Vec<Rect> = Vec::new();
    let mut i: usize = 0;
    proof {
        assert(heights.skip(0) =~= heights);
    }
    while i < views.len() && remaining.h > 0
        invariant
            0 <= i <= views.len(),
            heights == max_heights(views@),
            display_bounds_ok(remaining, heights.skip(i as int)),
            met_bounds(*rect, heights) == out@ + met_bounds(remaining, heights.skip(i as int)),
        decreases views.len() - i,
    {
        let ghost tail = heights.skip(i as int);
        proof {
            assert(tail.drop_first() =~= heights.skip(i + 1));
            assert(tail[0] == views@[i as int].spec_max_height());
        }
        let mh = views[i].get_max_height();
        proof {
            lemma_bounds_ok_step(remaining, tail);
        }
        let view_height = if mh < remaining.h { mh } else { remaining.h };
        let mut current = remaining;
        current.h = view_height;
        out.push(current);
        #[verifier::truncate]
        let d = view_height as i16;
        proof {
            assert(d as int == signed16(view_height)) by (bit_vector)
                requires d == view_height as i16;
        }
        remaining = remaining.shift_north(d * -1);
        proof {
            assert(out@ + met_bounds(remaining, heights.skip(i + 1)) =~= out@.drop_last() + (seq![out@.last()] + met_bounds(remaining, heights.skip(i + 1))));
        }
        i = i + 1;
    }
    if i < views.len() {
        // the view met with no rows left is passed over
        let ghost skipped = i;
        i = i + 1;
        while i < views.len()
            invariant
                skipped < i <= views.len(),
                remaining.h == 0,
                heights == max_heights(views@),
                met_bounds(*rect, heights) == out@ + Seq::new((views.len() - i) as nat, |k: int| remaining),
            decreases views.len() - i,
        {
            out.push(remaining);
            i = i + 1;
            proof {
                assert(out@.drop_last() + Seq::new((views.len() - i + 1) as nat, |k: int| remaining) =~= out@ + Seq::new((views.len() - i) as nat, |k: int| remaining));
            }
        }
        proof {
            assert(out@ + Seq::new(0nat, |k: int| remaining) =~= out@);
        }
    } else {
        proof {
            assert(heights.skip(views.len() as int) =~= Seq::<u16>::empty());
            assert(out@ + Seq::<Rect>::empty() =~= out@);
        }
    }
    out
}

/// Views stacked down a rectangle: there is one rectangle per view, each in
/// `rect`'s columns and no taller than its view could fill; the first starts at
/// `rect`'s north edge and each next one starts where the one before ends
/// (for a rectangle no taller than `i16::MAX`, as the stacking's signed
/// arithmetic reads heights).
#[verifier::spinoff_prover]
pub proof fn lemma_display_bounds_stack(rect: Rect, heights: Seq<u16>)
    requires
        display_bounds_ok(rect, heights),
        rect.h <= i16::MAX,
    ensures
        display_bounds(rect, heights).len() == heights.len(),
        forall|i: int|
            0 <= i < heights.len() ==> {
                let r = #[trigger] display_bounds(rect, heights)[i];
                r.x == rect.x && r.w == rect.w && r.h <= heights[i]
            },
        heights.len() > 0 ==> display_bounds(rect, heights)[0].y == rect.y,
        forall|i: int|
            0 < i < heights.len() ==> signed16(#[trigger] display_bounds(rect, heights)[i].y)
                == signed16(display_bounds(rect, heights)[i - 1].y) + display_bounds(rect, heights)[i - 1].h,
    decreases heights.len(),
{
    if heights.len() > 0 {
        let tail = heights.drop_first();
        let all = display_bounds(rect, heights);
        if rect.h > 0 {
            let h = min16(heights[0], rect.h);
            let d = signed16(h);
            let rest = Rect { y: wrap16(signed16(rect.y) + d), h: wrap16(signed16(rect.h) - d), ..rect };
            lemma_display_bounds_stack(rest, tail);
            let more = display_bounds(rest, tail);
            assert(all == seq![Rect { h, ..rect }] + more);
            assert forall|i: int| 0 <= i < heights.len() implies {
                let r = #[trigger] all[i];
                r.x == rect.x && r.w == rect.w && r.h <= heights[i]
            } by {
                if i > 0 {
                    assert(all[i] == more[i - 1]);
                }
            }
            assert forall|i: int| 0 < i < heights.len() implies signed16(#[trigger] all[i].y)
                == signed16(all[i - 1].y) + all[i - 1].h by {
                assert(all[i] == more[i - 1]);
                if i > 1 {
                    assert(all[i - 1] == more[i - 2]);
                    assert(signed16(more[i - 1].y) == signed16(more[i - 2].y) + more[i - 2].h);
                }
            }
        } else {
            lemma_display_bounds_stack(rect, tail);
            let more = display_bounds(rect, tail);
            assert(all == seq![rect] + more);
            assert forall|i: int| 0 <= i < heights.len() implies {
                let r = #[trigger] all[i];
                r.x == rect.x && r.w == rect.w && r.h <= heights[i]
            } by {
                if i > 0 {
                    assert(all[i] == more[i - 1]);
                }
            }
            assert forall|i: int| 0 < i < heights.len() implies signed16(#[trigger] all[i].y)
                == signed16(all[i - 1].y) + all[i - 1].h by {
                assert(all[i] == more[i - 1]);
                if i > 1 {
                    assert(all[i - 1] == more[i - 2]);
                    assert(signed16(more[i - 1].y) == signed16(more[i - 2].y) + more[i - 2].h);
                }
            }
        }
    }
}

/// There is one rectangle per view.
pub proof fn lemma_display_bounds_len(rect: Rect, heights: Seq<u16>)
    ensures
        display_bounds(rect, heights).len() == heights.len(),
    decreases heights.len(),
{
    if heights.len() > 0 {
        if rect.h > 0 {
            let d = signed16(min16(heights[0], rect.h));
            let rest = Rect { y: wrap16(signed16(rect.y) + d), h: wrap16(signed16(rect.h) - d), ..rect };
            lemma_display_bounds_len(rest, heights.drop_first());
        } else {
            lemma_display_bounds_len(rect, heights.drop_first());
        }
    }
}

/// The heights that the views of `views` could fill.
pub open spec fn own_heights<T: GetMaxHeight>(views: Seq<T>) -> Seq<u16> {
    Seq::new(views.len(), |i: int| views[i].spec_max_height())
}

/// Moves each view into the rectangle that `get_display_bounds` gives it
/// when the views are stacked down `rect`.
pub fn resize_views<T: Resize + GetMaxHeight>(rect: &Rect, views: &mut Vec<T>)
    requires
        display_bounds_ok(*rect, own_heights(old(views)@)),
        forall|i: int| 0 <= i < old(views)@.len() ==> (#[trigger] old(views)@[i]).resize_ok(
            display_bounds(*rect, own_heights(old(views)@))[i],
        ),
    ensures
        final(views)@.len() == old(views)@.len(),
        forall|i: int|
            0 <= i < old(views)@.len() ==> (#[trigger] final(views)@[i]).resized_from(
                &old(views)@[i],
                display_bounds(*rect, own_heights(old(views)@))[i],
            ),
{
    let ghost before = views@;
    let mut heights: Vec<u16> = Vec::new();
    let mut i: usize = 0;
    while i < views.len()
        invariant
            0 <= i <= views.len(),
            views@ == before,
            heights@ =~= own_heights(before).take(i as int),
        decreases views.len() - i,
    {
        let h = views[i].get_max_height();
        heights.push(h);
        i = i + 1;
        proof {
            assert(heights@ =~= own_heights(before).take(i as int));
        }
    }
    proof {
        assert(own_heights(before).take(views.len() as int) =~= own_heights(before));
        lemma_display_bounds_len(*rect, heights@);
    }
    let bounds = stack_bounds(rect, &heights);
    let mut j: usize = 0;
    while j < views.len()
        invariant
            0 <= j <= views.len(),
            views@.len() == before.len(),
            bounds@.len() == before.len(),
            bounds@ == display_bounds(*rect, own_heights(before)),
            forall|k: int| 0 <= k < before.len() ==> (#[trigger] before[k]).resize_ok(bounds@[k]),
            forall|k: int| j <= k < before.len() ==> views@[k] == before[k],
            forall|k: int|
                0 <= k < j ==> (#[trigger] views@[k]).resized_from(&before[k], bounds@[k]),
        decreases views.len() - j,
    {
        let b = bounds[j];
        proof {
            assert(views@[j as int] == before[j as int]);
            assert(before[j as int].resize_ok(bounds@[j as int]));
        }
        views[j].resize(&b);
        j = j + 1;
    }
}

/// The rows of `rect` left below a view that shows `h` rows at its top.
pub open spec fn rows_below(rect: Rect, h: u16) -> Rect {
    let d = signed16(min16(h, rect.h));
    Rect { y: wrap16(signed16(rect.y) + d), h: wrap16(signed16(rect.h) - d), ..rect }
}

/// `views` are views that `build_views` builds of `params` stacked down
/// `rect`: each is built in the rows left, and the rows it shows are then
/// taken away.
pub open spec fn built_views<T: Resize + GetDisplayHeight, P: BuildView<T>>(rect: Rect, params: Seq<P>, views: Seq<T>) -> bool
    decreases params.len(),
{
    if params.len() == 0 {
        views.len() == 0
    } else {
        &&& views.len() > 0
        &&& params[0].built(rect, views[0])
        &&& built_views(rows_below(rect, views[0].spec_display_height()), params.drop_first(), views.drop_first())
    }
}

/// Every view can be built in the rows it gets, and every step of
/// `build_views` stays within `i16`, whatever each view that is built shows.
pub open spec fn built_views_ok<T: Resize + GetDisplayHeight, P: BuildView<T>>(rect: Rect, params: Seq<P>) -> bool
    decreases params.len(),
{
    if params.len() == 0 {
        true
    } else {
        &&& params[0].build_ok(rect)
        &&& forall|v: T| #[trigger] params[0].built(rect, v) ==> {
            let d = signed16(min16(v.spec_display_height(), rect.h));
            &&& d != i16::MIN
            &&& shift_fits(rect.y, rect.h, (-d) as i16)
            &&& built_views_ok::<T, P>(rows_below(rect, v.spec_display_height()), params.drop_first())
        }
    }
}

/// Builds one view of each parameter set, stacked down `rect`.
pub fn build_views<T: Resize + GetDisplayHeight, P: BuildView<T>>(rect: &Rect, params: Vec<P>) -> (r: Vec<T>)
    requires
        built_views_ok::<T, P>(*rect, params@),
    ensures
        built_views::<T, P>(*rect, params@, r@),
{
    let ghost all = params@;
    let mut params = params;
    let mut rect_left = *rect;
    let mut views: Vec<T> = Vec::new();
    proof {
        assert forall|tail: Seq<T>| built_views::<T, P>(rect_left, params@, tail)
            implies #[trigger] built_views::<T, P>(*rect, all, views@ + tail) by {
            assert(views@ + tail =~= tail);
        }
    }
    while params.len() > 0
        invariant
            built_views_ok::<T, P>(rect_left, params@),
            forall|tail: Seq<T>| built_views::<T, P>(rect_left, params@, tail)
                ==> #[trigger] built_views::<T, P>(*rect, all, views@ + tail),
        decreases params.len(),
    {
        let ghost rest_params = params@;
        let ghost left_before = rect_left;
        let ghost views_before = views@;
        let param = params.remove(0);
        proof {
            assert(rest_params.drop_first() =~= params@);
        }
        let v = param.build(&rect_left);
        let h = v.get_display_height();
        let vheight = if h < rect_left.height() { h } else { rect_left.height() };
        #[verifier::truncate]
        let d = vheight as i16;
        proof {
            assert(d as int == signed16(vheight)) by (bit_vector)
                requires d == vheight as i16;
            assert(rest_params[0].built(left_before, v));
        }
        rect_left = rect_left.shift_north(d * -1);
        views.push(v);
        proof {
            assert forall|tail: Seq<T>| built_views::<T, P>(rect_left, params@, tail)
                implies #[trigger] built_views::<T, P>(*rect, all, views@ + tail) by {
                let t2 = seq![v] + tail;
                assert(t2.drop_first() =~= tail);
                assert(t2[0] == v);
                assert(built_views::<T, P>(left_before, rest_params, t2));
                assert(views_before + t2 =~= views@ + tail);
            }
        }
    }
    proof {
        assert(built_views::<T, P>(rect_left, params@, Seq::<T>::empty()));
        assert(views@ + Seq::<T>::empty() =~= views@);
    }
    views
}

} // verus!
