//! Coordinates, and the integer types that can address a pixel.

use vstd::prelude::*;

verus! {

/// The buffer index that a whole number stands for: itself where it is
/// neither negative nor beyond what an index can hold, nothing otherwise.
pub open spec fn index_of(v: int) -> Option<usize> {
    if 0 <= v <= usize::MAX {
        Some(v as usize)
    } else {
        None
    }
}

/// An integer-like type whose values may name a column or a row.
pub trait Coordinate {
    /// The whole number that this value denotes.
    spec fn position(&self) -> int;

    /// This value as an unsigned index, where it is one.
    fn to_index(&self) -> (i: Option<usize>)
        ensures
            i == index_of(self.position()),
    ;
}

/// A position on a two-dimensional surface.
#[derive(Debug, PartialEq, Eq)]
pub struct Point<T> {
    pub x: T,
    pub y: T,
}

impl<T> Point<T> {
    pub fn new(x: T, y: T) -> (p: Self)
        ensures
            p.x == x,
            p.y == y,
    {
        Self { x, y }
    }
}

impl Coordinate for usize {
    open spec fn position(&self) -> int {
        *self as int
    }

    fn to_index(&self) -> (i: Option<usize>) {
        Some(*self)
    }
}

impl Coordinate for u8 {
    open spec fn position(&self) -> int {
        *self as int
    }

    fn to_index(&self) -> (i: Option<usize>) {
        Some(usize::from(*self))
    }
}

impl Coordinate for u16 {
    open spec fn position(&self) -> int {
        *self as int
    }

    fn to_index(&self) -> (i: Option<usize>) {
        Some(usize::from(*self))
    }
}

impl Coordinate for u32 {
    open spec fn position(&self) -> int {
        *self as int
    }

    fn to_index(&self) -> (i: Option<usize>) {
        match usize::try_from(*self) {
            Ok(v) => Some(v),
            Err(_) => None,
        }
    }
}

impl Coordinate for u64 {
    open spec fn position(&self) -> int {
        *self as int
    }

    fn to_index(&self) -> (i: Option<usize>) {
        match usize::try_from(*self) {
            Ok(v) => Some(v),
            Err(_) => None,
        }
    }
}

impl Coordinate for u128 {
    open spec fn position(&self) -> int {
        *self as int
    }

    fn to_index(&self) -> (i: Option<usize>) {
        match usize::try_from(*self) {
            Ok(v) => Some(v),
            Err(_) => None,
        }
    }
}

impl Coordinate for isize {
    open spec fn position(&self) -> int {
        *self as int
    }

    fn to_index(&self) -> (i: Option<usize>) {
        match usize::try_from(*self) {
            Ok(v) => Some(v),
            Err(_) => None,
        }
    }
}

impl Coordinate for i8 {
    open spec fn position(&self) -> int {
        *self as int
    }

    fn to_index(&self) -> (i: Option<usize>) {
        match usize::try_from(*self) {
            Ok(v) => Some(v),
            Err(_) => None,
        }
    }
}

impl Coordinate for i16 {
    open spec fn position(&self) -> int {
        *self as int
    }

    fn to_index(&self) -> (i: Option<usize>) {
        match usize::try_from(*self) {
            Ok(v) => Some(v),
            Err(_) => None,
        }
    }
}

impl Coordinate for i32 {
    open spec fn position(&self) -> int {
        *self as int
    }

    fn to_index(&self) -> (i: Option<usize>) {
        match usize::try_from(*self) {
            Ok(v) => Some(v),
            Err(_) => None,
        }
    }
}

impl Coordinate for i64 {
    open spec fn position(&self) -> int {
        *self as int
    }

    fn to_index(&self) -> (i: Option<usize>) {
        match usize::try_from(*self) {
            Ok(v) => Some(v),
            Err(_) => None,
        }
    }
}

impl Coordinate for i128 {
    open spec fn position(&self) -> int {
        *self as int
    }

    fn to_index(&self) -> (i: Option<usize>) {
        match usize::try_from(*self) {
            Ok(v) => Some(v),
            Err(_) => None,
        }
    }
}

} // verus!
