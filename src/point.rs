use vstd::prelude::*;

use crate::coord::Coord;

verus! {

/// A point in the plane.
#[derive(Clone, Copy, Debug, PartialEq, Eq)]
pub struct Point<T: Coord> {
    pub x: T,
    pub y: T,
}

impl<T: Coord> View for Point<T> {
    type V = (int, int);

    open spec fn view(&self) -> (int, int) {
        (self.x.val(), self.y.val())
    }
}

} // verus!
