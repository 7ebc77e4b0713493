//! A positional record and a field-less marker.

use vstd::prelude::*;

verus! {

/// A pair of coordinates, read by position: `.0` and `.1`.
#[derive(Clone, Copy, Debug, PartialEq, Eq, Structural)]
pub struct Point(pub i32, pub i32);

/// A marker that carries no data.
#[derive(Clone, Copy, Debug, PartialEq, Eq, Structural)]
pub struct UnitLike;

/// Any two markers are the same value: the type has exactly one.
pub proof fn unit_like_is_unique(a: UnitLike, b: UnitLike)
    ensures
        a == b,
{
}

} // verus!
