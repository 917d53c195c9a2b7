//! Small integer helpers.

use vstd::prelude::*;

verus! {

/// `percent` hundredths of `value`, rounded down.
pub open spec fn percentage(value: u16, percent: u16) -> nat {
    ((value as nat) * (percent as nat) / 100) as nat
}

/// `percent` hundredths of `value`, rounded down.
pub fn percentage_of(value: u16, percent: u16) -> (r: usize)
    ensures
        r as nat == percentage(value, percent),
{
    assert((value as nat) * (percent as nat) <= 65535 * 65535) by (nonlinear_arith)
        requires
            value <= 65535,
            percent <= 65535,
    ;
    let product: u32 = (value as u32) * (percent as u32);
    (product / 100) as usize
}

/// The smaller of two numbers.
pub open spec fn min_nat(a: nat, b: nat) -> nat {
    if a <= b {
        a
    } else {
        b
    }
}

} // verus!
