//! The plain values the registry works on: 20-byte addresses and unsigned
//! 256-bit amounts held as four little-endian 64-bit limbs.
use vstd::prelude::*;

verus! {

/// A 20-byte account or contract address.
#[derive(Clone, Copy, Debug)]
pub struct Address(pub [u8; 20]);

impl Address {
    /// The all-zero address, which can never own the registry.
    pub fn zero() -> (r: Address)
        ensures
            r.is_zero_spec(),
    {
        Address([0u8; 20])
    }

    pub open spec fn is_zero_spec(&self) -> bool {
        forall|i: int| 0 <= i < 20 ==> self.0@[i] == 0u8
    }

    /// Whether every byte of the address is zero.
    pub fn is_zero(&self) -> (r: bool)
        ensures
            r == self.is_zero_spec(),
    {
        let mut i: usize = 0;
        while i < 20
            invariant
                0 <= i <= 20,
                forall|j: int| 0 <= j < i ==> self.0@[j] == 0u8,
            decreases 20 - i,
        {
            if self.0[i] != 0 {
                return false;
            }
            i = i + 1;
        }
        true
    }
}

impl PartialEq for Address {
    fn eq(&self, o: &Address) -> (r: bool) {
        let mut i: usize = 0;
        while i < 20
            invariant
                0 <= i <= 20,
                forall|j: int| 0 <= j < i ==> self.0@[j] == o.0@[j],
            decreases 20 - i,
        {
            if self.0[i] != o.0[i] {
                return false;
            }
            i = i + 1;
        }
        assert(self.0@ =~= o.0@);
        true
    }
}

impl vstd::std_specs::cmp::PartialEqSpecImpl for Address {
    open spec fn obeys_eq_spec() -> bool {
        true
    }

    open spec fn eq_spec(&self, o: &Address) -> bool {
        self.0@ == o.0@
    }
}

impl Eq for Address {

}

/// Two addresses are equal exactly when their bytes are.
pub proof fn lemma_address_eq(a: Address, b: Address)
    ensures
        (a.0@ == b.0@) == (a == b),
{
    if a.0@ == b.0@ {
        assert forall|i: int| 0 <= i < 20 implies a.0[i] == b.0[i] by {
            assert(a.0@[i] == b.0@[i]);
        }
        assert(a.0 =~= b.0);
    }
}

pub open spec fn limb_base() -> nat {
    0x1_0000_0000_0000_0000nat
}

/// The largest value an amount can hold, `2^256 - 1`.
pub open spec fn u256_max() -> nat {
    (0x1_0000_0000_0000_0000_0000_0000_0000_0000_0000_0000_0000_0000_0000_0000_0000_0000nat - 1) as nat
}

/// The number that four little-endian 64-bit limbs stand for.
pub open spec fn limbs_value(l: Seq<u64>) -> nat {
    l[0] as nat + limb_base() * (l[1] as nat + limb_base() * (l[2] as nat + limb_base()
        * (l[3] as nat)))
}

/// An unsigned 256-bit amount.
#[derive(Clone, Copy, Debug, PartialEq, Eq)]
pub struct U256 {
    pub limbs: [u64; 4],
}

impl View for U256 {
    type V = nat;

    open spec fn view(&self) -> nat {
        limbs_value(self.limbs@)
    }
}

impl U256 {
    pub fn zero() -> (r: U256)
        ensures
            r@ == 0,
    {
        U256 { limbs: [0u64; 4] }
    }

    pub fn from_u64(v: u64) -> (r: U256)
        ensures
            r@ == v as nat,
    {
        U256 { limbs: [v, 0, 0, 0] }
    }

    /// `self + rhs`, or `None` where the sum exceeds `2^256 - 1`.
    pub fn checked_add(self, rhs: U256) -> (r: Option<U256>)
        ensures
            r is Some <==> self@ + rhs@ <= u256_max(),
            r matches Some(s) ==> s@ == self@ + rhs@,
    {
        match add_limbs(self.limbs, rhs.limbs) {
            Some(limbs) => Some(U256 { limbs }),
            None => None,
        }
    }
}

/// Relies on ruint's `Uint::<256, 4>::checked_add`, which adds two values given
/// as little-endian limbs and returns `None` exactly when the sum does not fit
/// in 256 bits.
#[verifier::external_body]
fn add_limbs(a: [u64; 4], b: [u64; 4]) -> (r: Option<[u64; 4]>)
    ensures
        r is Some <==> limbs_value(a@) + limbs_value(b@) <= u256_max(),
        r matches Some(s) ==> limbs_value(s@) == limbs_value(a@) + limbs_value(b@),
{
    let x = stylus_sdk::alloy_primitives::U256::from_limbs(a);
    let y = stylus_sdk::alloy_primitives::U256::from_limbs(b);
    x.checked_add(y).map(|s| s.into_limbs())
}

} // verus!
