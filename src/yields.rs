//! Per-protocol yield lookup and overflow-checked summation of yields.
use vstd::prelude::*;
use crate::primitives::{Address, U256, u256_max};
use crate::registry::Error;

verus! {

/// The big-endian number formed by the last four bytes of an address.
pub open spec fn seed_of(p: Address) -> nat {
    p.0@[16] as nat * 0x100_0000 + p.0@[17] as nat * 0x1_0000 + p.0@[18] as nat * 0x100
        + p.0@[19] as nat
}

/// The placeholder yield that a protocol reports: one of three fixed amounts,
/// chosen by its address.
pub open spec fn mock_yield_of(p: Address) -> nat {
    let s = seed_of(p) % 3;
    if s == 0 {
        5_000_000_000_000_000
    } else if s == 1 {
        8_000_000_000_000_000
    } else {
        3_000_000_000_000_000
    }
}

/// The sum of the placeholder yields of `ps`, added in order.
pub open spec fn mock_total(ps: Seq<Address>) -> nat
    decreases ps.len(),
{
    if ps.len() == 0 {
        0
    } else {
        mock_total(ps.drop_last()) + mock_yield_of(ps.last())
    }
}

/// The sum of the amounts of `s`, added in order.
pub open spec fn sum_of(s: Seq<U256>) -> nat
    decreases s.len(),
{
    if s.len() == 0 {
        0
    } else {
        sum_of(s.drop_last()) + s.last()@
    }
}

/// The placeholder yield of `protocol` for `user`; the user does not change it.
pub fn mock_yield(protocol: Address, user: Address) -> (r: U256)
    ensures
        r@ == mock_yield_of(protocol),
{
    let seed: u32 = (protocol.0[16] as u32) * 0x100_0000 + (protocol.0[17] as u32) * 0x1_0000
        + (protocol.0[18] as u32) * 0x100 + (protocol.0[19] as u32);
    let m: u32 = seed % 3;
    if m == 0 {
        U256::from_u64(5_000_000_000_000_000)
    } else if m == 1 {
        U256::from_u64(8_000_000_000_000_000)
    } else {
        U256::from_u64(3_000_000_000_000_000)
    }
}

/// A prefix of a sequence of amounts never sums to more than the whole.
pub proof fn lemma_prefix_sum_le(s: Seq<U256>, k: int)
    requires
        0 <= k <= s.len(),
    ensures
        sum_of(s.take(k)) <= sum_of(s),
    decreases s.len(),
{
    if k == s.len() {
        assert(s.take(k) =~= s);
    } else {
        lemma_prefix_sum_le(s.drop_last(), k);
        assert(s.drop_last().take(k) =~= s.take(k));
    }
}

/// Amounts that agree one by one with the placeholder yields of `ps` sum to
/// their total.
pub proof fn lemma_sum_of_mock(ys: Seq<U256>, ps: Seq<Address>)
    requires
        ys.len() == ps.len(),
        forall|i: int| 0 <= i < ys.len() ==> ys[i]@ == mock_yield_of(ps[i]),
    ensures
        sum_of(ys) == mock_total(ps),
    decreases ys.len(),
{
    if ys.len() > 0 {
        lemma_sum_of_mock(ys.drop_last(), ps.drop_last());
    }
}

/// Adds `yields` in order, failing with `ArithmeticOverflow` exactly when the
/// sum exceeds `2^256 - 1`.
pub fn sum_yields(yields: &Vec<U256>) -> (r: Result<U256, Error>)
    ensures
        r is Ok <==> sum_of(yields@) <= u256_max(),
        r matches Ok(t) ==> t@ == sum_of(yields@),
        r matches Err(e) ==> e == Error::ArithmeticOverflow,
{
    let mut total = U256::zero();
    let mut i: usize = 0;
    while i < yields.len()
        invariant
            0 <= i <= yields@.len(),
            total@ == sum_of(yields@.take(i as int)),
        decreases yields@.len() - i,
    {
        proof {
            assert(yields@.take(i + 1).drop_last() =~= yields@.take(i as int));
        }
        match total.checked_add(yields[i]) {
            Some(t) => {
                total = t;
            },
            None => {
                proof {
                    lemma_prefix_sum_le(yields@, i + 1);
                }
                return Err(Error::ArithmeticOverflow);
            },
        }
        i = i + 1;
    }
    proof {
        assert(yields@.take(i as int) =~= yields@);
    }
    Ok(total)
}

} // verus!
