use vstd::prelude::*;

use crate::coord::Coord;
use crate::model::{normalized, RectModel};
use crate::point::Point;

verus! {

/// An axis-aligned rectangle: its bottom-left corner `(x, y)` and a
/// non-negative width and height.
#[derive(Debug, PartialEq, Eq)]
pub struct Rectangle<T: Coord> {
    x: T,
    y: T,
    width: T,
    height: T,
}

impl<T: Coord> View for Rectangle<T> {
    type V = RectModel;

    closed spec fn view(&self) -> RectModel {
        RectModel { x: self.x.val(), y: self.y.val(), width: self.width.val(), height: self.height.val() }
    }
}

impl<T: Coord> Rectangle<T> {
    /// `m` is a valid rectangle whose coordinates and edges all fit in `T`.
    pub open spec fn fits(m: RectModel) -> bool {
        m.fits_in(T::lo(), T::hi())
    }

    #[verifier::type_invariant]
    spec fn well_formed(self) -> bool {
        Self::fits(self@)
    }

    /// The rectangle spanned from `(x, y)` by `width` and `height`, either of
    /// which may be negative: a negative extent reaches left (or down) from
    /// the anchor. A negative height is treated exactly as a negative width:
    /// the stored height is its magnitude and the anchor moves down by it.
    pub fn new(x: T, y: T, width: T, height: T) -> (r: Self)
        requires
            Self::fits(normalized(x.val(), y.val(), width.val(), height.val())),
        ensures
            r@ == normalized(x.val(), y.val(), width.val(), height.val()),
    {
        let zero = T::from_small(0);
        proof {
            zero.lemma_range();
            width.lemma_range();
            height.lemma_range();
        }
        let mut x_ = x;
        let mut y_ = y;
        let mut w_ = width;
        let mut h_ = height;
        if width.less_than(&zero) {
            w_ = zero.minus(width);
            x_ = x.minus(w_);
        }
        if height.less_than(&zero) {
            h_ = zero.minus(height);
            y_ = y.minus(h_);
        }
        Rectangle { x: x_, y: y_, width: w_, height: h_ }
    }

    /// The rectangle with its bottom-left corner moved by `(dx1, dy1)` and
    /// its top-right corner moved by `(dx2, dy2)`. Where the moved corners
    /// cross on an axis they trade places, so the result keeps a
    /// non-negative extent.
    pub fn adjust_const(&self, dx1: T, dy1: T, dx2: T, dy2: T) -> (r: Self)
        requires
            Self::fits(self@.adjusted(dx1.val(), dy1.val(), dx2.val(), dy2.val())),
        ensures
            r@ == self@.adjusted(dx1.val(), dy1.val(), dx2.val(), dy2.val()),
    {
        proof {
            use_type_invariant(self);
            dx1.lemma_range();
        }
        let top_right = self.top_right();
        let bottom_left = self.bottom_left();
        let mut x_top_right = top_right.x.plus(dx2);
        let mut y_top_right = top_right.y.plus(dy2);
        let mut x_bot_left = bottom_left.x.plus(dx1);
        let mut y_bot_left = bottom_left.y.plus(dy1);
        if x_top_right.less_than(&x_bot_left) {
            let tmp = x_top_right;
            x_top_right = x_bot_left;
            x_bot_left = tmp;
        }
        if y_top_right.less_than(&y_bot_left) {
            let tmp = y_top_right;
            y_top_right = y_bot_left;
            y_bot_left = tmp;
        }
        let w_ = x_top_right.minus(x_bot_left);
        let h_ = y_top_right.minus(y_bot_left);
        Rectangle { x: x_bot_left, y: y_bot_left, width: w_, height: h_ }
    }

    /// Moves the corners in place, as `adjust_const` does.
    pub fn adjust(&mut self, dx1: T, dy1: T, dx2: T, dy2: T)
        requires
            Self::fits(old(self)@.adjusted(dx1.val(), dy1.val(), dx2.val(), dy2.val())),
        ensures
            final(self)@ == old(self)@.adjusted(dx1.val(), dy1.val(), dx2.val(), dy2.val()),
    {
        *self = self.adjust_const(dx1, dy1, dx2, dy2);
    }

    pub fn left(&self) -> (r: T)
        ensures
            r.val() == self@.left(),
    {
        self.x
    }

    pub fn right(&self) -> (r: T)
        ensures
            r.val() == self@.right(),
    {
        proof {
            use_type_invariant(self);
        }
        self.x.plus(self.width)
    }

    pub fn top(&self) -> (r: T)
        ensures
            r.val() == self@.top(),
    {
        proof {
            use_type_invariant(self);
        }
        self.y.plus(self.height)
    }

    pub fn bottom(&self) -> (r: T)
        ensures
            r.val() == self@.bottom(),
    {
        self.y
    }

    pub fn x(&self) -> (r: T)
        ensures
            r.val() == self@.x,
    {
        self.x
    }

    pub fn y(&self) -> (r: T)
        ensures
            r.val() == self@.y,
    {
        self.y
    }

    pub fn height(&self) -> (r: T)
        ensures
            r.val() == self@.height,
            r.val() >= 0,
    {
        proof {
            use_type_invariant(self);
        }
        self.height
    }

    pub fn width(&self) -> (r: T)
        ensures
            r.val() == self@.width,
            r.val() >= 0,
    {
        proof {
            use_type_invariant(self);
        }
        self.width
    }

    pub fn bottom_left(&self) -> (r: Point<T>)
        ensures
            r@ == self@.bottom_left(),
    {
        Point { x: self.left(), y: self.bottom() }
    }

    pub fn bottom_right(&self) -> (r: Point<T>)
        ensures
            r@ == self@.bottom_right(),
    {
        Point { x: self.right(), y: self.bottom() }
    }

    pub fn top_left(&self) -> (r: Point<T>)
        ensures
            r@ == self@.top_left(),
    {
        Point { x: self.left(), y: self.top() }
    }

    pub fn top_right(&self) -> (r: Point<T>)
        ensures
            r@ == self@.top_right(),
    {
        Point { x: self.right(), y: self.top() }
    }

    /// The middle point; each half-extent is rounded down.
    pub fn center(&self) -> (r: Point<T>)
        ensures
            r@ == self@.center(),
    {
        proof {
            use_type_invariant(self);
        }
        let two = T::from_small(2);
        let center_x = self.x.plus(self.width.divided_by(two));
        let center_y = self.y.plus(self.height.divided_by(two));
        Point { x: center_x, y: center_y }
    }

    /// Whether `point` lies in the rectangle, edges and corners included.
    pub fn contains_point(&self, point: &Point<T>) -> (r: bool)
        ensures
            r == self@.contains_point(point@),
    {
        let right = self.right();
        let top = self.top();
        if point.x.at_most(&right) && self.x.at_most(&point.x) {
            if point.y.at_most(&top) && self.y.at_most(&point.y) {
                return true;
            }
        }
        false
    }

    /// Whether `other` starts no lower and no further left than this
    /// rectangle and is no wider and no taller. The far edges are not
    /// compared, so this is not full geometric containment.
    pub fn contains_rect(&self, other: &Rectangle<T>) -> (r: bool)
        ensures
            r == self@.contains_rect(other@),
    {
        if self.x.at_most(&other.x) && self.y.at_most(&other.y) {
            if other.height.at_most(&self.height) && other.width.at_most(&self.width) {
                return true;
            }
        }
        false
    }

    /// Whether a corner of `rect` lies in this rectangle, or this
    /// rectangle's bottom-left corner lies in `rect`. Overlaps in which no
    /// such corner is inside (two bars crossing) are not detected.
    pub fn is_intersected(&self, rect: &Rectangle<T>) -> (r: bool)
        ensures
            r == self@.is_intersected(rect@),
    {
        self.contains_point(&rect.bottom_left()) || self.contains_point(&rect.bottom_right())
            || self.contains_point(&rect.top_left()) || self.contains_point(&rect.top_right())
            || rect.contains_point(&self.bottom_left())
    }

    /// The overlap of the two rectangles where `is_intersected` finds one;
    /// otherwise the empty rectangle at the origin.
    pub fn intersected(&self, rect: &Rectangle<T>) -> (r: Rectangle<T>)
        ensures
            r@ == self@.intersected(rect@),
    {
        proof {
            use_type_invariant(self);
            use_type_invariant(rect);
        }
        let zero = T::from_small(0);
        proof {
            zero.lemma_range();
        }
        if !self.is_intersected(rect) {
            return Self::new(zero, zero, zero, zero);
        }
        let x_ = if rect.x.less_than(&self.x) { self.x } else { rect.x };
        let y_ = if rect.y.less_than(&self.y) { self.y } else { rect.y };
        let rx1 = self.right();
        let rx2 = rect.right();
        let rx = if rx1.less_than(&rx2) { rx1 } else { rx2 };
        let ty1 = self.top();
        let ty2 = rect.top();
        let ty = if ty1.less_than(&ty2) { ty1 } else { ty2 };
        let w_ = rx.minus(x_);
        let h_ = ty.minus(y_);
        Self::new(x_, y_, w_, h_)
    }

    /// The bounding box of the two rectangles.
    pub fn united(&self, rect: &Rectangle<T>) -> (r: Rectangle<T>)
        requires
            Self::fits(self@.united(rect@)),
        ensures
            r@ == self@.united(rect@),
    {
        proof {
            use_type_invariant(self);
            use_type_invariant(rect);
            self.x.lemma_range();
        }
        let x_ = if self.x.less_than(&rect.x) { self.x } else { rect.x };
        let y_ = if self.y.less_than(&rect.y) { self.y } else { rect.y };
        let rx1 = self.right();
        let rx2 = rect.right();
        let rx = if rx2.less_than(&rx1) { rx1 } else { rx2 };
        let ty1 = self.top();
        let ty2 = rect.top();
        let ty = if ty2.less_than(&ty1) { ty1 } else { ty2 };
        let w_ = rx.minus(x_);
        let h_ = ty.minus(y_);
        Self::new(x_, y_, w_, h_)
    }

    /// The rectangle with width and height exchanged, anchored at the same
    /// corner.
    pub fn transposed(&self) -> (r: Rectangle<T>)
        requires
            Self::fits(self@.transposed()),
        ensures
            r@ == self@.transposed(),
    {
        Rectangle { x: self.x, y: self.y, width: self.height, height: self.width }
    }

    /// Two rectangles with the same value are the same rectangle.
    pub proof fn lemma_view_injective(a: Self, b: Self)
        requires
            a@ == b@,
        ensures
            a == b,
    {
        T::lemma_val_injective(a.x, b.x);
        T::lemma_val_injective(a.y, b.y);
        T::lemma_val_injective(a.width, b.width);
        T::lemma_val_injective(a.height, b.height);
    }
}

/// The empty rectangle at the origin.
impl<T: Coord> Default for Rectangle<T> {
    fn default() -> (r: Self)
        ensures
            r@ == (RectModel { x: 0, y: 0, width: 0, height: 0 }),
    {
        let zero = T::from_small(0);
        proof {
            zero.lemma_range();
        }
        Self::new(zero, zero, zero, zero)
    }
}

/// `a & b` is `a.intersected(&b)`.
impl<T: Coord> std::ops::BitAnd for Rectangle<T> {
    type Output = Rectangle<T>;

    fn bitand(self, rhs: Rectangle<T>) -> (r: Rectangle<T>) {
        let r = self.intersected(&rhs);
        proof {
            let c = choose|c: Rectangle<T>| c@ == self@.intersected(rhs@);
            Self::lemma_view_injective(r, c);
        }
        r
    }
}

impl<T: Coord> vstd::std_specs::ops::BitAndSpecImpl for Rectangle<T> {
    open spec fn obeys_bitand_spec() -> bool {
        true
    }

    open spec fn bitand_req(self, rhs: Rectangle<T>) -> bool {
        true
    }

    open spec fn bitand_spec(self, rhs: Rectangle<T>) -> Rectangle<T> {
        choose|c: Rectangle<T>| c@ == self@.intersected(rhs@)
    }
}

/// `a | b` is `a.united(&b)`.
impl<T: Coord> std::ops::BitOr for Rectangle<T> {
    type Output = Rectangle<T>;

    fn bitor(self, rhs: Rectangle<T>) -> (r: Rectangle<T>) {
        let r = self.united(&rhs);
        proof {
            let c = choose|c: Rectangle<T>| c@ == self@.united(rhs@);
            Self::lemma_view_injective(r, c);
        }
        r
    }
}

impl<T: Coord> vstd::std_specs::ops::BitOrSpecImpl for Rectangle<T> {
    open spec fn obeys_bitor_spec() -> bool {
        true
    }

    open spec fn bitor_req(self, rhs: Rectangle<T>) -> bool {
        Self::fits(self@.united(rhs@))
    }

    open spec fn bitor_spec(self, rhs: Rectangle<T>) -> Rectangle<T> {
        choose|c: Rectangle<T>| c@ == self@.united(rhs@)
    }
}

/// `a &= b` replaces `a` by `a & b`.
impl<T: Coord> std::ops::BitAndAssign for Rectangle<T> {
    fn bitand_assign(&mut self, rhs: Rectangle<T>)
        ensures
            final(self)@ == old(self)@.intersected(rhs@),
    {
        *self = self.intersected(&rhs);
    }
}

/// `a |= b` replaces `a` by `a | b`.
impl<T: Coord> std::ops::BitOrAssign for Rectangle<T> {
    fn bitor_assign(&mut self, rhs: Rectangle<T>)
        requires
            Self::fits(old(self)@.united(rhs@)),
        ensures
            final(self)@ == old(self)@.united(rhs@),
    {
        *self = self.united(&rhs);
    }
}

} // verus!
