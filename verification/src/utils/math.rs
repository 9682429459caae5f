//! Integer percentage arithmetic used by the layout code.

use vstd::prelude::*;

verus! {

/// How many percent of `total` the quantity `part` covers, rounded down.
/// A part larger than the total is clamped, so the result never exceeds 100.
pub fn percentage_representation(total: u16, part: u16) -> (r: u16)
    requires
        total > 0,
    ensures
        part <= total ==> r == (part as int * 100) / (total as int),
        part > total ==> r == 100,
        r <= 100,
{
    if part <= total {
        let wide: u32 = (part as u32) * 100 / (total as u32);
        proof {
            assert(part as int * 100 <= total as int * 100) by (nonlinear_arith)
                requires
                    part <= total,
            ;
            vstd::arithmetic::div_mod::lemma_div_is_ordered(
                part as int * 100,
                total as int * 100,
                total as int,
            );
            vstd::arithmetic::div_mod::lemma_div_by_multiple(100, total as int);
        }
        wide as u16
    } else {
        100
    }
}

} // verus!
