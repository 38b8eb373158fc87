//! Whole units and minor units of an asset with a decimal exponent.
use vstd::prelude::*;

verus! {

/// `10^n`.
pub open spec fn pow10(n: nat) -> nat
    decreases n,
{
    if n == 0 {
        1
    } else {
        10 * pow10((n - 1) as nat)
    }
}

/// Whether `n` whole units of an asset with `decimals` decimals can be
/// written in 64-bit minor units, the power of ten included.
pub open spec fn scale_fits(n: nat, decimals: nat) -> bool {
    pow10(decimals) <= u64::MAX && n * pow10(decimals) <= u64::MAX
}

proof fn lemma_pow10_positive(n: nat)
    ensures
        pow10(n) >= 1,
    decreases n,
{
    if n > 0 {
        lemma_pow10_positive((n - 1) as nat);
    }
}

/// `10^decimals`, when it fits in 64 bits.
pub fn checked_pow10(decimals: u8) -> (r: Option<u64>)
    ensures
        r is Some <==> pow10(decimals as nat) <= u64::MAX,
        r matches Some(v) ==> v == pow10(decimals as nat),
{
    let mut acc: u64 = 1;
    let mut i: u8 = 0;
    while i < decimals
        invariant
            i <= decimals,
            acc == pow10(i as nat),
        decreases decimals - i,
    {
        proof {
            lemma_pow10_monotone(i as nat + 1, decimals as nat);
        }
        match acc.checked_mul(10) {
            Some(v) => acc = v,
            None => return None,
        }
        i = i + 1;
    }
    Some(acc)
}

proof fn lemma_pow10_monotone(a: nat, b: nat)
    requires
        a <= b,
    ensures
        pow10(a) <= pow10(b),
    decreases b - a,
{
    if a < b {
        lemma_pow10_monotone(a, (b - 1) as nat);
        lemma_pow10_positive((b - 1) as nat);
    }
}

/// `n` whole units in minor units, when that fits in 64 bits.
pub fn scale_amount(n: u64, decimals: u8) -> (r: Option<u64>)
    ensures
        r is Some <==> scale_fits(n as nat, decimals as nat),
        r matches Some(v) ==> v == n * pow10(decimals as nat),
{
    match checked_pow10(decimals) {
        Some(p) => n.checked_mul(p),
        None => None,
    }
}

} // verus!
