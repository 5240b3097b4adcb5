//! The side of the square grid that holds a given number of pixels.

use crate::error::EncodeError;
use vstd::prelude::*;

verus! {

/// The least number at or above `from` whose square reaches `count`.
pub open spec fn least_side_from(count: nat, from: nat) -> nat
    decreases count - from,
    via least_side_from_terminates
{
    if from * from >= count {
        from
    } else {
        least_side_from(count, from + 1)
    }
}

#[via_fn]
proof fn least_side_from_terminates(count: nat, from: nat) {
    assert(from * from < count ==> from < count) by (nonlinear_arith);
}

/// The side of the smallest square with at least `count` cells: the square
/// root of `count`, rounded up.
pub open spec fn ceil_sqrt(count: nat) -> nat {
    least_side_from(count, 0)
}

/// Whether a square grid for `count` pixels, at three bytes a pixel, can be
/// held in memory.
pub open spec fn grid_fits(count: nat) -> bool {
    3 * ceil_sqrt(count) * ceil_sqrt(count) <= isize::MAX
}

proof fn lemma_least_side_from(count: nat, from: nat)
    requires
        from > 0 ==> (from - 1) * (from - 1) < count,
    ensures
        least_side_from(count, from) >= from,
        least_side_from(count, from) * least_side_from(count, from) >= count,
        least_side_from(count, from) > 0 ==> (least_side_from(count, from) - 1) * (
        least_side_from(count, from) - 1) < count,
    decreases count - from,
{
    if from * from < count {
        assert(from < count) by (nonlinear_arith)
            requires
                from * from < count,
        ;
        lemma_least_side_from(count, from + 1);
    }
}

/// The square of `ceil_sqrt(count)` covers `count` cells, and the next
/// smaller square does not.
pub proof fn lemma_ceil_sqrt_bounds(count: nat)
    ensures
        ceil_sqrt(count) * ceil_sqrt(count) >= count,
        count > 0 ==> ceil_sqrt(count) > 0 && (ceil_sqrt(count) - 1) * (ceil_sqrt(count) - 1)
            < count,
        count == 0 ==> ceil_sqrt(count) == 0,
{
    lemma_least_side_from(count, 0);
}

/// Only one side has a square that covers `count` cells while the next
/// smaller square does not: it is `ceil_sqrt(count)`.
pub proof fn lemma_ceil_sqrt_unique(count: nat, side: nat)
    requires
        side * side >= count,
        side > 0 ==> (side - 1) * (side - 1) < count,
    ensures
        side == ceil_sqrt(count),
{
    lemma_ceil_sqrt_bounds(count);
    let root = ceil_sqrt(count);
    assert(side <= root) by (nonlinear_arith)
        requires
            side > 0 ==> (side - 1) * (side - 1) < count,
            root * root >= count,
    ;
    assert(root <= side) by (nonlinear_arith)
        requires
            root > 0 ==> (root - 1) * (root - 1) < count,
            side * side >= count,
    ;
}

/// Computes the square root of `count`, rounded up, by bisection.
pub fn ceil_sqrt_of(count: usize) -> (side: u64)
    ensures
        side == ceil_sqrt(count as nat),
        side <= 0x1_0000_0000,
{
    let mut low: u64 = 0;
    let mut high: u64 = 0x1_0000_0000;
    assert(high * high >= count) by (nonlinear_arith)
        requires
            high == 0x1_0000_0000,
            count <= 0xffff_ffff_ffff_ffff,
    ;
    while low < high
        invariant
            low <= high <= 0x1_0000_0000,
            high * high >= count,
            low > 0 ==> (low - 1) * (low - 1) < count,
        decreases high - low,
    {
        let middle: u64 = low + (high - low) / 2;
        assert(middle * middle <= 0xffff_ffff * 0xffff_ffff) by (nonlinear_arith)
            requires
                0 <= middle <= 0xffff_ffff,
        ;
        if middle * middle >= count as u64 {
            high = middle;
        } else {
            low = middle + 1;
        }
    }
    proof {
        lemma_ceil_sqrt_unique(count as nat, low as nat);
    }
    low
}

/// The side of the grid for `count` pixels, where such a grid fits in
/// memory.
pub fn grid_side(count: usize) -> (res: Result<u32, EncodeError>)
    ensures
        res.is_ok() <==> grid_fits(count as nat),
        res matches Ok(side) ==> side == ceil_sqrt(count as nat),
        res matches Err(error) ==> error == EncodeError::GridTooLarge,
{
    let side = ceil_sqrt_of(count);
    if side > 0xffff_ffff {
        assert(3 * side * side > isize::MAX) by (nonlinear_arith)
            requires
                side > 0xffff_ffff,
                isize::MAX <= 0x7fff_ffff_ffff_ffff,
        ;
        return Err(EncodeError::GridTooLarge);
    }
    assert(3 * side * side <= 3 * 0xffff_ffff * 0xffff_ffff) by (nonlinear_arith)
        requires
            0 <= side <= 0xffff_ffff,
    ;
    let samples: u128 = 3 * (side as u128) * (side as u128);
    if samples > isize::MAX as u128 {
        Err(EncodeError::GridTooLarge)
    } else {
        Ok(side as u32)
    }
}

} // verus!
