//! Where to put an image so that it sits in the middle of the window.

use vstd::prelude::*;

verus! {

/// Where something of length `inner` begins when it is centred in `outer`,
/// the half pixel that may be left over going to the far side.
pub open spec fn centered_spec(outer: int, inner: int) -> int {
    (outer - inner) / 2
}

/// The coordinate at which something of length `inner` begins when it is
/// centred in `outer`, which is at least as long.
pub fn centered(outer: u32, inner: u32) -> (start: i32)
    requires
        inner <= outer,
    ensures
        start == centered_spec(outer as int, inner as int),
{
    ((outer - inner) / 2) as i32
}

/// Where something of length `inner` begins when it is centred in `outer`,
/// which may be the shorter of the two: half the difference, rounded
/// towards zero.
pub open spec fn centered_signed_spec(outer: int, inner: int) -> int {
    if outer >= inner {
        (outer - inner) / 2
    } else {
        -((inner - outer) / 2)
    }
}

/// The coordinate at which something of length `inner` begins when it is
/// centred in `outer`. It is negative where `inner` is the longer.
pub fn centered_signed(outer: i32, inner: i32) -> (start: i32)
    ensures
        start == centered_signed_spec(outer as int, inner as int),
{
    let difference: i64 = outer as i64 - inner as i64;
    if difference >= 0 {
        (difference / 2) as i32
    } else {
        (-((-difference) / 2)) as i32
    }
}

} // verus!
