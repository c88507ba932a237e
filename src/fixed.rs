use vstd::prelude::*;
use vstd::arithmetic::div_mod::{lemma_fundamental_div_mod, lemma_fundamental_div_mod_converse};

verus! {

/// `1.0` in the fixed-point notation used for dimensionless factors
/// (scale factors, logarithms, separation): such a factor is held in millionths.
pub const ONE: u32 = 1_000_000;

/// `a / d` rounded towards negative infinity, for a positive divisor.
pub fn floor_div(a: i128, d: i128) -> (r: i128)
    requires
        d > 0,
    ensures
        r == a / d,
{
    if a >= 0 {
        ((a as u128) / (d as u128)) as i128
    } else {
        let m: i128 = -(a + 1);
        let q: i128 = ((m as u128) / (d as u128)) as i128;
        proof {
            lemma_fundamental_div_mod(m as int, d as int);
            let s = m as int % d as int;
            assert(a == (-q - 1) * d + (d - s - 1)) by (nonlinear_arith)
                requires
                    m == d * q + s,
                    a == -m - 1;
            lemma_fundamental_div_mod_converse(a as int, d as int, -q - 1, d - s - 1);
        }
        -q - 1
    }
}

} // verus!
