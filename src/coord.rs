use vstd::prelude::*;

verus! {

/// A numeric coordinate type: a bounded range of integers with the
/// arithmetic and comparisons that rectangles need.
///
/// `val` is the mathematical value of a coordinate, which always lies
/// between `lo()` and `hi()`.
pub trait Coord: Copy + Sized {
    spec fn val(&self) -> int;

    /// The least value the type can hold.
    spec fn lo() -> int;

    /// The greatest value the type can hold.
    spec fn hi() -> int;

    proof fn lemma_range(&self)
        ensures
            Self::lo() <= self.val() <= Self::hi(),
            Self::lo() <= -128,
            127 <= Self::hi(),
    ;

    /// Two coordinates with the same value are the same coordinate.
    proof fn lemma_val_injective(a: Self, b: Self)
        requires
            a.val() == b.val(),
        ensures
            a == b,
    ;

    fn from_small(v: i8) -> (r: Self)
        ensures
            r.val() == v as int,
    ;

    fn plus(self, o: Self) -> (r: Self)
        requires
            Self::lo() <= self.val() + o.val() <= Self::hi(),
        ensures
            r.val() == self.val() + o.val(),
    ;

    fn minus(self, o: Self) -> (r: Self)
        requires
            Self::lo() <= self.val() - o.val() <= Self::hi(),
        ensures
            r.val() == self.val() - o.val(),
    ;

    /// Division of a non-negative value by a positive one.
    fn divided_by(self, d: Self) -> (r: Self)
        requires
            self.val() >= 0,
            d.val() > 0,
        ensures
            r.val() == self.val() / d.val(),
    ;

    fn less_than(&self, o: &Self) -> (r: bool)
        ensures
            r == (self.val() < o.val()),
    ;

    fn at_most(&self, o: &Self) -> (r: bool)
        ensures
            r == (self.val() <= o.val()),
    ;
}

impl Coord for i32 {
    open spec fn val(&self) -> int {
        *self as int
    }

    open spec fn lo() -> int {
        i32::MIN as int
    }

    open spec fn hi() -> int {
        i32::MAX as int
    }

    proof fn lemma_range(&self) {
    }

    proof fn lemma_val_injective(a: Self, b: Self) {
    }

    fn from_small(v: i8) -> (r: Self) {
        v as i32
    }

    fn plus(self, o: Self) -> (r: Self) {
        self + o
    }

    fn minus(self, o: Self) -> (r: Self) {
        self - o
    }

    fn divided_by(self, d: Self) -> (r: Self) {
        self / d
    }

    fn less_than(&self, o: &Self) -> (r: bool) {
        *self < *o
    }

    fn at_most(&self, o: &Self) -> (r: bool) {
        *self <= *o
    }
}

impl Coord for i64 {
    open spec fn val(&self) -> int {
        *self as int
    }

    open spec fn lo() -> int {
        i64::MIN as int
    }

    open spec fn hi() -> int {
        i64::MAX as int
    }

    proof fn lemma_range(&self) {
    }

    proof fn lemma_val_injective(a: Self, b: Self) {
    }

    fn from_small(v: i8) -> (r: Self) {
        v as i64
    }

    fn plus(self, o: Self) -> (r: Self) {
        self + o
    }

    fn minus(self, o: Self) -> (r: Self) {
        self - o
    }

    fn divided_by(self, d: Self) -> (r: Self) {
        self / d
    }

    fn less_than(&self, o: &Self) -> (r: bool) {
        *self < *o
    }

    fn at_most(&self, o: &Self) -> (r: bool) {
        *self <= *o
    }
}

} // verus!
