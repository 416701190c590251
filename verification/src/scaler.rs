//! Scaling of whole-unit amounts to an asset's smallest unit.

use vstd::prelude::*;

verus! {

/// Ten to the power `e`.
pub open spec fn pow10(e: nat) -> nat
    decreases e,
{
    if e == 0 {
        1
    } else {
        10 * pow10((e - 1) as nat)
    }
}

/// `amount` whole units of an asset with `decimals` decimal places, in the
/// asset's smallest unit.
pub open spec fn scaled(amount: nat, decimals: nat) -> nat {
    amount * pow10(decimals)
}

/// Ten to any power is at least one.
pub proof fn lemma_pow10_positive(e: nat)
    ensures
        pow10(e) >= 1,
    decreases e,
{
    if e > 0 {
        lemma_pow10_positive((e - 1) as nat);
    }
}

/// A larger exponent never gives a smaller power of ten.
pub proof fn lemma_pow10_monotonic(e1: nat, e2: nat)
    requires
        e1 <= e2,
    ensures
        pow10(e1) <= pow10(e2),
    decreases e2,
{
    if e1 < e2 {
        lemma_pow10_monotonic(e1, (e2 - 1) as nat);
        lemma_pow10_positive((e2 - 1) as nat);
    }
}

/// Scaling never shrinks an amount, and with more decimal places the scaled
/// amount is never smaller.
pub proof fn lemma_scaled_monotonic(amount: nat, d1: nat, d2: nat)
    requires
        d1 <= d2,
    ensures
        amount <= scaled(amount, d1) <= scaled(amount, d2),
{
    lemma_pow10_positive(d1);
    lemma_pow10_monotonic(d1, d2);
    let p1 = pow10(d1);
    let p2 = pow10(d2);
    assert(amount <= amount * p1 <= amount * p2) by (nonlinear_arith)
        requires
            1 <= p1 <= p2,
    ;
}

/// Converts `amount` whole units into smallest units: `amount * 10^decimals`.
/// Returns `None` exactly when that product does not fit in 64 bits.
pub fn scale_amount(amount: u64, decimals: u8) -> (r: Option<u64>)
    ensures
        r == if scaled(amount as nat, decimals as nat) <= u64::MAX {
            Some(scaled(amount as nat, decimals as nat) as u64)
        } else {
            None
        },
{
    if amount == 0 {
        assert(scaled(0, decimals as nat) == 0) by (nonlinear_arith)
            requires
                scaled(0, decimals as nat) == 0 * pow10(decimals as nat),
        ;
        return Some(0);
    }
    let mut acc: u64 = amount;
    let mut i: u8 = 0;
    proof {
        assert(amount * pow10(0) == amount) by (nonlinear_arith)
            requires
                pow10(0) == 1,
        ;
    }
    while i < decimals
        invariant
            i <= decimals,
            amount > 0,
            acc == scaled(amount as nat, i as nat),
        decreases decimals - i,
    {
        proof {
            let p = pow10(i as nat);
            assert(scaled(amount as nat, (i + 1) as nat) == acc * 10) by (nonlinear_arith)
                requires
                    acc == amount * p,
                    scaled(amount as nat, (i + 1) as nat) == amount * (10 * p),
            ;
        }
        match acc.checked_mul(10) {
            Some(next) => {
                acc = next;
            },
            None => {
                proof {
                    lemma_scaled_monotonic(amount as nat, (i + 1) as nat, decimals as nat);
                }
                return None;
            },
        }
        i += 1;
    }
    Some(acc)
}

} // verus!
