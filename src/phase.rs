//! The rounding rule of the phase unwrap: a phase difference, counted in
//! half turns and truncated toward zero, is moved to an even count so that
//! removing that many half turns leaves a difference within one turn.

use vstd::prelude::*;

verus! {

/// `half_turns` moved away from zero to the nearest even integer.
pub open spec fn even_half_turns_of(half_turns: int) -> int {
    if half_turns % 2 == 0 {
        half_turns
    } else if half_turns >= 0 {
        half_turns + 1
    } else {
        half_turns - 1
    }
}

/// The even count of half turns to remove from a phase difference whose
/// truncated count is `half_turns`: the count itself when even, otherwise
/// the odd count moved one away from zero.
pub fn even_half_turns(half_turns: i64) -> (r: i64)
    requires
        half_turns < i64::MAX,
    ensures
        r == even_half_turns_of(half_turns as int),
        r % 2 == 0,
        -1 <= r - half_turns <= 1,
{
    if half_turns >= 0 {
        half_turns + half_turns % 2
    } else {
        // `-(half_turns + 1)` is non-negative and of the other parity
        let mirrored: i64 = -(half_turns + 1);
        if mirrored % 2 == 1 {
            half_turns
        } else {
            half_turns - 1
        }
    }
}

} // verus!
