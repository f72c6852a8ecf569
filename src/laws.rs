use vstd::prelude::*;

use crate::coord::Coord;
use crate::model::{normalized, RectModel};
use crate::rectangle::Rectangle;

verus! {

/// A rectangle built with a non-negative width and height keeps its anchor
/// as the bottom-left corner: its left edge is `x`, its bottom edge `y`,
/// its right edge `x + w` and its top edge `y + h`.
pub proof fn lemma_new_nonnegative(x: int, y: int, w: int, h: int)
    requires
        w >= 0,
        h >= 0,
    ensures
        normalized(x, y, w, h).left() == x,
        normalized(x, y, w, h).bottom() == y,
        normalized(x, y, w, h).right() == x + w,
        normalized(x, y, w, h).top() == y + h,
{
}

/// A rectangle built with a negative width gets width `-w`, its left edge
/// moves to `x + w`, and its right edge stands at the original `x`.
pub proof fn lemma_new_negative_width(x: int, y: int, w: int, h: int)
    requires
        w < 0,
    ensures
        normalized(x, y, w, h).width == -w,
        normalized(x, y, w, h).left() == x + w,
        normalized(x, y, w, h).right() == x,
{
}

/// Containment of points is inclusive: every corner of a rectangle lies in
/// it.
pub proof fn lemma_contains_own_corners(r: RectModel)
    requires
        r.valid(),
    ensures
        r.contains_point(r.bottom_left()),
        r.contains_point(r.bottom_right()),
        r.contains_point(r.top_left()),
        r.contains_point(r.top_right()),
{
}

/// Transposing twice gives back the rectangle.
pub proof fn lemma_transposed_twice(r: RectModel)
    ensures
        r.transposed().transposed() == r,
{
}

/// Transposing a rectangle twice gives back the same rectangle, field by
/// field: where `t` is the transpose of `r` and `tt` that of `t`, `tt` is `r`.
pub proof fn lemma_rectangle_transposed_twice<T: Coord>(
    r: Rectangle<T>,
    t: Rectangle<T>,
    tt: Rectangle<T>,
)
    requires
        t@ == r@.transposed(),
        tt@ == t@.transposed(),
    ensures
        tt == r,
{
    lemma_transposed_twice(r@);
    Rectangle::<T>::lemma_view_injective(tt, r);
}

/// A rectangle built with a negative width, wherever it fits in `T`, has
/// width `-w`, left edge `x + w` and right edge `x`.
pub proof fn lemma_rectangle_new_negative_width<T: Coord>(x: T, y: T, w: T, h: T, r: Rectangle<T>)
    requires
        w.val() < 0,
        r@ == normalized(x.val(), y.val(), w.val(), h.val()),
    ensures
        r@.width == -w.val(),
        r@.left() == x.val() + w.val(),
        r@.right() == x.val(),
{
    lemma_new_negative_width(x.val(), y.val(), w.val(), h.val());
}

/// The union of two rectangles has no negative extent, and every corner of
/// either rectangle lies in it.
pub proof fn lemma_united_bounds(a: RectModel, b: RectModel)
    requires
        a.valid(),
        b.valid(),
    ensures
        a.united(b).width >= 0,
        a.united(b).height >= 0,
        a.united(b).contains_point(a.bottom_left()),
        a.united(b).contains_point(a.bottom_right()),
        a.united(b).contains_point(a.top_left()),
        a.united(b).contains_point(a.top_right()),
        a.united(b).contains_point(b.bottom_left()),
        a.united(b).contains_point(b.bottom_right()),
        a.united(b).contains_point(b.top_left()),
        a.united(b).contains_point(b.top_right()),
{
}

/// Where `is_intersected` finds no overlap, the intersection is the empty
/// rectangle at the origin.
pub proof fn lemma_intersected_disjoint(a: RectModel, b: RectModel)
    requires
        !a.is_intersected(b),
    ensures
        a.intersected(b).x == 0,
        a.intersected(b).y == 0,
        a.intersected(b).width == 0,
        a.intersected(b).height == 0,
{
}

} // verus!
