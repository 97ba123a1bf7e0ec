//! A pair of values of one type, and which of the two is the larger.

use vstd::prelude::*;

verus! {

/// Two values of one type.
pub struct Pair<T> {
    pub x: T,
    pub y: T,
}

/// One of the two members of a pair.
#[derive(Debug, PartialEq, Eq, Structural)]
pub enum Member {
    X,
    Y,
}

impl<T> Pair<T> {
    pub fn new(x: T, y: T) -> (r: Pair<T>)
        ensures
            r.x == x,
            r.y == y,
    {
        Pair { x, y }
    }
}

impl<T: PartialOrd> Pair<T> {
    /// The member that the type's own comparison finds the larger: `x` where
    /// `x >= y` holds by it, and `y` where it does not, which is also the
    /// case where the two cannot be compared.
    pub fn largest(&self) -> (r: Member)
        ensures
            call_ensures(T::ge, (&self.x, &self.y), r == Member::X),
    {
        if self.x >= self.y {
            Member::X
        } else {
            Member::Y
        }
    }
}

} // verus!
