//! Integer minimum and integer square root.

use vstd::prelude::*;

verus! {

/// Amounts of tokens and of liquidity shares.
pub type Balance = u128;

/// `r` is the integer square root of `y`: the largest number whose square
/// does not exceed `y`.
pub open spec fn is_floor_sqrt(y: nat, r: nat) -> bool {
    r * r <= y < (r + 1) * (r + 1)
}

/// The integer square root of `y`.
pub open spec fn floor_sqrt(y: nat) -> nat {
    choose|r: nat| is_floor_sqrt(y, r)
}

/// The smaller of two numbers.
pub open spec fn spec_min(x: int, y: int) -> int {
    if x < y {
        x
    } else {
        y
    }
}

/// Every number has an integer square root.
pub proof fn lemma_floor_sqrt_exists(y: nat)
    ensures
        is_floor_sqrt(y, floor_sqrt(y)),
    decreases y,
{
    if y == 0 {
        assert(is_floor_sqrt(0, 0)) by (nonlinear_arith);
    } else {
        lemma_floor_sqrt_exists((y - 1) as nat);
        let r = floor_sqrt((y - 1) as nat);
        if y < (r + 1) * (r + 1) {
            assert(is_floor_sqrt(y, r));
        } else {
            assert((r + 2) * (r + 2) > (r + 1) * (r + 1)) by (nonlinear_arith);
            assert(is_floor_sqrt(y, r + 1));
        }
    }
}

/// A number has only one integer square root.
pub proof fn lemma_floor_sqrt_unique(y: nat, r: nat)
    requires
        is_floor_sqrt(y, r),
    ensures
        r == floor_sqrt(y),
{
    lemma_floor_sqrt_exists(y);
    let s = floor_sqrt(y);
    assert(r == s) by (nonlinear_arith)
        requires
            r * r <= y < (r + 1) * (r + 1),
            s * s <= y < (s + 1) * (s + 1),
    ;
}

/// The integer square root of a 128-bit number fits in 64 bits.
pub proof fn lemma_floor_sqrt_bound(y: nat)
    requires
        y <= u128::MAX,
    ensures
        floor_sqrt(y) <= u64::MAX,
{
    lemma_floor_sqrt_exists(y);
    let r = floor_sqrt(y);
    assert(r <= 0xffff_ffff_ffff_ffff) by (nonlinear_arith)
        requires
            r * r <= y,
            y <= 0xffff_ffff_ffff_ffff_ffff_ffff_ffff_ffff,
    ;
}

/// One step of Newton's iteration from any positive `x` lands at or above the
/// integer square root of `y`.
proof fn lemma_newton_step(y: int, x: int)
    requires
        0 <= y,
        0 < x,
    ensures
        y < ((y / x + x) / 2 + 1) * ((y / x + x) / 2 + 1),
{
    let q = y / x;
    let n = (q + x) / 2;
    assert(y < (q + 1) * x) by (nonlinear_arith)
        requires
            q == y / x,
            0 < x,
            0 <= y,
    ;
    // twice the next iterate is at least the sum of q + 1 and x, whose square
    // is at least four times their product
    assert(4 * ((n + 1) * (n + 1)) >= 4 * ((q + 1) * x)) by (nonlinear_arith)
        requires
            2 * (n + 1) >= q + x + 1,
            q + x + 1 >= 0,
    {
        assert((q + 1 - x) * (q + 1 - x) >= 0);
        assert((2 * (n + 1)) * (2 * (n + 1)) >= (q + x + 1) * (q + x + 1));
    }
}

/// Returns the smaller of `x` and `y`.
pub fn min(x: Balance, y: Balance) -> (m: Balance)
    ensures
        m == spec_min(x as int, y as int),
{
    if x < y {
        x
    } else {
        y
    }
}

/// Returns the integer square root of `y`, by Newton's iteration started at
/// `y / 2 + 1`.
pub fn sqrt(y: Balance) -> (z: Balance)
    ensures
        z == floor_sqrt(y as nat),
        z * z <= y < (z + 1) * (z + 1),
{
    let mut z: Balance;
    if y > 3 {
        z = y;
        let mut x: Balance = y.checked_div(2).expect("error sqrt") + 1;
        assert(y < (x + 1) * (x + 1)) by (nonlinear_arith)
            requires
                x == y / 2 + 1,
                y > 3,
        ;
        assert(y < (z + 1) * (z + 1)) by (nonlinear_arith)
            requires
                z == y,
        ;
        while x < z
            invariant
                y > 3,
                0 < x <= y / 2 + 1,
                y < (x + 1) * (x + 1),
                y < (z + 1) * (z + 1),
                x >= z ==> z * z <= y,
            decreases z,
        {
            z = x;
            proof {
                lemma_newton_step(y as int, x as int);
                assert(x >= 2) by (nonlinear_arith)
                    requires
                        y < (x + 1) * (x + 1),
                        y > 3,
                        x > 0,
                ;
                assert(y / x <= y / 2) by (nonlinear_arith)
                    requires
                        x >= 2,
                        y >= 0,
                ;
                let n = (y / x + x) / 2;
                if n >= x {
                    assert(x * x <= y) by (nonlinear_arith)
                        requires
                            y / x >= x,
                            x > 0,
                            y >= 0,
                    ;
                }
            }
            x = y.checked_div(x).expect("error sqrt").checked_add(x).expect("error sqrt")
                .checked_div(2).expect("error sqrt");
        }
    } else if y != 0 {
        z = 1;
    } else {
        z = 0;
    }
    proof {
        assert(z * z <= y < (z + 1) * (z + 1)) by {
            if y <= 3 {
                assert(z * z <= y < (z + 1) * (z + 1)) by (nonlinear_arith)
                    requires
                        y <= 3,
                        z == (if y != 0 { 1int } else { 0int }),
                ;
            }
        }
        lemma_floor_sqrt_unique(y as nat, z as nat);
    }
    z
}

} // verus!
