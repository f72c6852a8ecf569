use vstd::prelude::*;

verus! {

/// The smaller of two integers.
pub open spec fn min_int(a: int, b: int) -> int {
    if a < b { a } else { b }
}

/// The larger of two integers.
pub open spec fn max_int(a: int, b: int) -> int {
    if a > b { a } else { b }
}

/// The absolute value of an integer.
pub open spec fn abs_int(a: int) -> int {
    if a < 0 { -a } else { a }
}

/// The mathematical value of a rectangle: its bottom-left corner `(x, y)`
/// and its extent along each axis.
pub struct RectModel {
    pub x: int,
    pub y: int,
    pub width: int,
    pub height: int,
}

/// The rectangle spanned from `(x, y)` by a signed width and height: a
/// negative extent reaches back from the anchor, so the anchor moves to the
/// far side and the extent is made positive.
pub open spec fn normalized(x: int, y: int, width: int, height: int) -> RectModel {
    RectModel {
        x: if width < 0 { x + width } else { x },
        y: if height < 0 { y + height } else { y },
        width: abs_int(width),
        height: abs_int(height),
    }
}

impl RectModel {
    /// Neither extent is negative.
    pub open spec fn valid(self) -> bool {
        self.width >= 0 && self.height >= 0
    }

    /// The rectangle is valid and every coordinate of it, edges included,
    /// lies in `lo ..= hi`.
    pub open spec fn fits_in(self, lo: int, hi: int) -> bool {
        &&& self.valid()
        &&& lo <= self.x && lo <= self.y
        &&& self.width <= hi && self.height <= hi
        &&& self.x + self.width <= hi && self.y + self.height <= hi
    }

    pub open spec fn left(self) -> int {
        self.x
    }

    pub open spec fn right(self) -> int {
        self.x + self.width
    }

    pub open spec fn bottom(self) -> int {
        self.y
    }

    pub open spec fn top(self) -> int {
        self.y + self.height
    }

    pub open spec fn bottom_left(self) -> (int, int) {
        (self.left(), self.bottom())
    }

    pub open spec fn bottom_right(self) -> (int, int) {
        (self.right(), self.bottom())
    }

    pub open spec fn top_left(self) -> (int, int) {
        (self.left(), self.top())
    }

    pub open spec fn top_right(self) -> (int, int) {
        (self.right(), self.top())
    }

    /// The middle point, each half-extent rounded down.
    pub open spec fn center(self) -> (int, int) {
        (self.x + self.width / 2, self.y + self.height / 2)
    }

    /// The point lies in the closed rectangle: edges and corners count.
    pub open spec fn contains_point(self, p: (int, int)) -> bool {
        &&& self.x <= p.0 <= self.x + self.width
        &&& self.y <= p.1 <= self.y + self.height
    }

    /// The anchor of `o` is not below or left of this one's, and neither
    /// extent of `o` exceeds this one's. The far edges are not compared.
    pub open spec fn contains_rect(self, o: RectModel) -> bool {
        &&& o.x >= self.x && o.y >= self.y
        &&& o.height <= self.height && o.width <= self.width
    }

    /// A corner of `o` lies in this rectangle, or this rectangle's
    /// bottom-left corner lies in `o`.
    pub open spec fn is_intersected(self, o: RectModel) -> bool {
        ||| self.contains_point(o.bottom_left())
        ||| self.contains_point(o.bottom_right())
        ||| self.contains_point(o.top_left())
        ||| self.contains_point(o.top_right())
        ||| o.contains_point(self.bottom_left())
    }

    /// The overlap of the two rectangles where `is_intersected` finds one,
    /// else the empty rectangle at the origin.
    pub open spec fn intersected(self, o: RectModel) -> RectModel {
        if self.is_intersected(o) {
            let x = max_int(self.x, o.x);
            let y = max_int(self.y, o.y);
            normalized(
                x,
                y,
                min_int(self.right(), o.right()) - x,
                min_int(self.top(), o.top()) - y,
            )
        } else {
            RectModel { x: 0, y: 0, width: 0, height: 0 }
        }
    }

    /// The bounding box of the two rectangles.
    pub open spec fn united(self, o: RectModel) -> RectModel {
        let x = min_int(self.x, o.x);
        let y = min_int(self.y, o.y);
        normalized(x, y, max_int(self.right(), o.right()) - x, max_int(self.top(), o.top()) - y)
    }

    /// The rectangle whose bottom-left corner is moved by `(dx1, dy1)` and
    /// whose top-right corner is moved by `(dx2, dy2)`; where the moved
    /// corners cross on an axis, they trade places on it.
    pub open spec fn adjusted(self, dx1: int, dy1: int, dx2: int, dy2: int) -> RectModel {
        let l = self.left() + dx1;
        let r = self.right() + dx2;
        let b = self.bottom() + dy1;
        let t = self.top() + dy2;
        RectModel { x: min_int(l, r), y: min_int(b, t), width: abs_int(r - l), height: abs_int(t - b) }
    }

    /// Width and height exchanged, the anchor kept.
    pub open spec fn transposed(self) -> RectModel {
        RectModel { x: self.x, y: self.y, width: self.height, height: self.width }
    }
}

} // verus!
