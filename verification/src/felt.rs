//! Field elements of the Miden base field, held as their canonical `u64` values.
use vstd::prelude::*;

verus! {

/// The modulus of the Miden base field: `2^64 - 2^32 + 1`.
pub const FELT_MODULUS: u64 = 0xffff_ffff_0000_0001;

/// Four field elements: the unit in which Miden hashes, assets and serial numbers travel.
pub type Word = [u64; 4];

/// A `u64` is a field element's canonical value when it is below the modulus.
pub open spec fn is_felt(x: u64) -> bool {
    x < FELT_MODULUS
}

/// Every element of a sequence is a canonical field element.
pub open spec fn all_felts(s: Seq<u64>) -> bool {
    forall|i: int| 0 <= i < s.len() ==> is_felt(#[trigger] s[i])
}

/// Field addition on canonical values.
pub open spec fn felt_add_spec(a: u64, b: u64) -> int {
    (a + b) % (FELT_MODULUS as int)
}

/// Field subtraction on canonical values.
pub open spec fn felt_sub_spec(a: u64, b: u64) -> int {
    (a - b + FELT_MODULUS) % (FELT_MODULUS as int)
}

/// Adds two field elements with `miden_crypto::Felt`'s `+`.
#[verifier::external_body]
pub(crate) fn felt_add(a: u64, b: u64) -> (r: u64)
    requires
        is_felt(a),
        is_felt(b),
    ensures
        r == felt_add_spec(a, b),
{
    (miden_crypto::Felt::new(a) + miden_crypto::Felt::new(b)).as_int()
}

/// Subtracts two field elements with `miden_crypto::Felt`'s `-`.
#[verifier::external_body]
pub(crate) fn felt_sub(a: u64, b: u64) -> (r: u64)
    requires
        is_felt(a),
        is_felt(b),
    ensures
        r == felt_sub_spec(a, b),
{
    (miden_crypto::Felt::new(a) - miden_crypto::Felt::new(b)).as_int()
}

/// Field addition and subtraction stay below the modulus.
pub proof fn lemma_felt_ops_canonical(a: u64, b: u64)
    requires
        is_felt(a),
        is_felt(b),
    ensures
        0 <= felt_add_spec(a, b) < FELT_MODULUS,
        0 <= felt_sub_spec(a, b) < FELT_MODULUS,
        a + b < FELT_MODULUS ==> felt_add_spec(a, b) == a + b,
        b <= a ==> felt_sub_spec(a, b) == a - b,
{
    let m = FELT_MODULUS as int;
    vstd::arithmetic::div_mod::lemma_mod_bound(a + b, m);
    vstd::arithmetic::div_mod::lemma_mod_bound(a - b + m, m);
    if a + b < m {
        vstd::arithmetic::div_mod::lemma_small_mod((a + b) as nat, m as nat);
    }
    if b <= a {
        vstd::arithmetic::div_mod::lemma_mod_add_multiples_vanish(a - b, m);
        vstd::arithmetic::div_mod::lemma_small_mod((a - b) as nat, m as nat);
    }
}

} // verus!
