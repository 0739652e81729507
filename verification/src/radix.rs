//! Natural numbers written in base 256.

use vstd::prelude::*;

verus! {

/// The `count` low-order octets of `n`, least significant first.
pub open spec fn le_octets(n: nat, count: nat) -> Seq<u8>
    decreases count,
{
    if count == 0 {
        seq![]
    } else {
        seq![(n % 256) as u8] + le_octets(n / 256, (count - 1) as nat)
    }
}

/// The octets of `n` without leading zeros, most significant first.
pub open spec fn be_octets(n: nat) -> Seq<u8>
    decreases n,
{
    if n == 0 {
        seq![]
    } else {
        be_octets(n / 256).push((n % 256) as u8)
    }
}

/// The number whose octets are `octets`, most significant first.
pub open spec fn be_value(octets: Seq<u8>) -> nat
    decreases octets.len(),
{
    if octets.len() == 0 {
        0
    } else {
        be_value(octets.drop_last()) * 256 + octets.last() as nat
    }
}

/// 256 to the power of `k`.
pub open spec fn pow256(k: nat) -> nat
    decreases k,
{
    if k == 0 {
        1
    } else {
        256 * pow256((k - 1) as nat)
    }
}

/// `le_octets` gives as many octets as it is asked for.
pub proof fn lemma_le_octets_len(n: nat, count: nat)
    ensures
        le_octets(n, count).len() == count,
    decreases count,
{
    if count > 0 {
        lemma_le_octets_len(n / 256, (count - 1) as nat);
    }
}

/// Numbers below `256^count` with the same `count` octets are equal.
pub proof fn lemma_le_octets_injective(m: nat, n: nat, count: nat)
    requires
        m < pow256(count),
        n < pow256(count),
        le_octets(m, count) == le_octets(n, count),
    ensures
        m == n,
    decreases count,
{
    if count > 0 {
        let rest = (count - 1) as nat;
        let (a, b) = (le_octets(m, count), le_octets(n, count));
        assert(a[0] == b[0]);
        assert(a.skip(1) =~= le_octets(m / 256, rest));
        assert(b.skip(1) =~= le_octets(n / 256, rest));
        lemma_le_octets_injective(m / 256, n / 256, rest);
    }
}

/// `be_value` reads back what `be_octets` wrote.
pub proof fn lemma_be_round_trip(n: nat)
    ensures
        be_value(be_octets(n)) == n,
    decreases n,
{
    if n > 0 {
        lemma_be_round_trip(n / 256);
        assert(be_octets(n).drop_last() =~= be_octets(n / 256));
    }
}

/// A number below `256^k` has at most `k` octets.
pub proof fn lemma_be_octets_len(n: nat, k: nat)
    requires
        n < pow256(k),
    ensures
        be_octets(n).len() <= k,
        n > 0 ==> be_octets(n).len() > 0,
    decreases k,
{
    if n > 0 {
        lemma_be_octets_len(n / 256, (k - 1) as nat);
    }
}

/// The value of `k` octets is below `256^k`.
pub proof fn lemma_be_value_bound(octets: Seq<u8>)
    ensures
        be_value(octets) < pow256(octets.len()),
    decreases octets.len(),
{
    if octets.len() > 0 {
        lemma_be_value_bound(octets.drop_last());
    }
}

/// The first powers of 256.
pub proof fn lemma_pow256_values()
    ensures
        pow256(4) == 0x1_0000_0000,
        pow256(8) == 0x1_0000_0000_0000_0000,
{
    reveal_with_fuel(pow256, 9);
}

/// `pow256` does not decrease.
pub proof fn lemma_pow256_increases(j: nat, k: nat)
    requires
        j <= k,
    ensures
        pow256(j) <= pow256(k),
    decreases k - j,
{
    if j < k {
        lemma_pow256_increases(j, (k - 1) as nat);
    }
}

} // verus!
