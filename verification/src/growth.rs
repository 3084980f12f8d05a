use vstd::prelude::*;
use vstd::arithmetic::div_mod::lemma_fundamental_div_mod;

verus! {

/// Target capacity for a container whose length is `len` just before an
/// insertion: the length rounded up to the next multiple of four.
pub open spec fn growth_target(len: nat) -> nat {
    (len / 4 + 1) * 4
}

/// Growth law: the target computed from the pre-insertion length always
/// leaves room for one more element, is a multiple of four, never decreases
/// as the length grows, and moves only in steps of four.
pub proof fn lemma_growth_law(len: nat)
    ensures
        len < growth_target(len),
        growth_target(len) % 4 == 0,
        growth_target(len) <= growth_target(len + 1),
        growth_target(len + 1) == growth_target(len) || growth_target(len + 1) == growth_target(
            len,
        ) + 4,
{
    lemma_fundamental_div_mod(len as int, 4);
    lemma_fundamental_div_mod(len as int + 1, 4);
}

} // verus!
