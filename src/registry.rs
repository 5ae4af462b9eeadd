//! The owner-gated registry of tracked protocols.
use vstd::prelude::*;
use crate::primitives::{Address, U256, u256_max};
use crate::yields::{mock_total, mock_yield, mock_yield_of};

verus! {

/// Why an operation on the registry failed.
#[derive(Clone, Copy, Debug, PartialEq, Eq)]
pub enum Error {
    /// The caller is not the owner.
    UnauthorizedAccount(Address),
    /// The proposed owner is not a valid one (the zero address).
    InvalidOwner(Address),
    /// The yields add up to more than `2^256 - 1`.
    ArithmeticOverflow,
}


/// `s` with `p` appended, unless `p` is already in it.
pub open spec fn after_add(s: Seq<Address>, p: Address) -> Seq<Address> {
    if s.contains(p) {
        s
    } else {
        s.push(p)
    }
}

/// `s` without `p`, the others keeping their order.
pub open spec fn after_remove(s: Seq<Address>, p: Address) -> Seq<Address> {
    if s.contains(p) {
        s.remove(s.index_of(p))
    } else {
        s
    }
}

/// The registry: an owner, and the tracked protocols in order, each once.
///
/// Membership is decided by a scan of the list; no position index is kept
/// beside it, so nothing can fall out of step after a removal. The number of
/// tracked protocols is the length of the list.
pub struct YieldAggregator {
    owner: Address,
    protocols: Vec<Address>,
}

/// What `add_protocol` does: only the owner may add, and adding a protocol
/// that is already tracked changes nothing.
pub open spec fn add_outcome(
    pre: YieldAggregator,
    caller: Address,
    p: Address,
    post: YieldAggregator,
    r: Result<(), Error>,
) -> bool {
    &&& post.wf()
    &&& post.owner_spec() == pre.owner_spec()
    &&& if caller == pre.owner_spec() {
        r == Ok::<(), Error>(()) && post.protocols_spec() == after_add(pre.protocols_spec(), p)
    } else {
        r == Err::<(), Error>(Error::UnauthorizedAccount(caller)) && post.protocols_spec()
            == pre.protocols_spec()
    }
}

/// What `remove_protocol` does: only the owner may remove, the others keep
/// their order, and removing an untracked protocol changes nothing.
pub open spec fn remove_outcome(
    pre: YieldAggregator,
    caller: Address,
    p: Address,
    post: YieldAggregator,
    r: Result<(), Error>,
) -> bool {
    &&& post.wf()
    &&& post.owner_spec() == pre.owner_spec()
    &&& if caller == pre.owner_spec() {
        r == Ok::<(), Error>(()) && post.protocols_spec() == after_remove(pre.protocols_spec(), p)
    } else {
        r == Err::<(), Error>(Error::UnauthorizedAccount(caller)) && post.protocols_spec()
            == pre.protocols_spec()
    }
}

impl YieldAggregator {
    /// The current owner.
    pub closed spec fn owner_spec(&self) -> Address {
        self.owner
    }

    /// The tracked protocols, in order.
    pub closed spec fn protocols_spec(&self) -> Seq<Address> {
        self.protocols@
    }

    /// No protocol is tracked twice.
    pub open spec fn wf(&self) -> bool {
        self.protocols_spec().no_duplicates()
    }

    /// A registry owned by `initial_owner` that tracks nothing; the zero
    /// address is refused as owner.
    pub fn constructor(initial_owner: Address) -> (r: Result<YieldAggregator, Error>)
        ensures
            r is Ok <==> !initial_owner.is_zero_spec(),
            r matches Ok(a) ==> a.wf() && a.owner_spec() == initial_owner
                && a.protocols_spec().len() == 0,
            r matches Err(e) ==> e matches Error::InvalidOwner(o) && o.is_zero_spec(),
    {
        if initial_owner.is_zero() {
            return Err(Error::InvalidOwner(Address::zero()));
        }
        Ok(YieldAggregator { owner: initial_owner, protocols: Vec::new() })
    }

    /// A registry rebuilt from stored values: `owner` (the zero address where
    /// ownership was renounced) and the tracked protocols in order; `None`
    /// where a protocol is listed twice.
    pub fn from_parts(owner: Address, protocols: Vec<Address>) -> (r: Option<YieldAggregator>)
        ensures
            r is Some <==> protocols@.no_duplicates(),
            r matches Some(a) ==> a.wf() && a.owner_spec() == owner && a.protocols_spec()
                == protocols@,
    {
        let mut i: usize = 0;
        while i < protocols.len()
            invariant
                0 <= i <= protocols@.len(),
                forall|a: int, b: int| 0 <= a < b < i ==> protocols@[a] != protocols@[b],
            decreases protocols@.len() - i,
        {
            let mut j: usize = 0;
            while j < i
                invariant
                    0 <= j <= i < protocols@.len(),
                    forall|a: int| 0 <= a < j ==> protocols@[a] != protocols@[i as int],
                decreases i - j,
            {
                proof {
                    crate::primitives::lemma_address_eq(protocols@[j as int], protocols@[i as int]);
                }
                if protocols[j] == protocols[i] {
                    return None;
                }
                j = j + 1;
            }
            i = i + 1;
        }
        Some(YieldAggregator { owner, protocols })
    }

    /// Succeeds exactly when `caller` is the owner.
    fn only_owner(&self, caller: Address) -> (r: Result<(), Error>)
        ensures
            r == (if caller == self.owner_spec() {
                Ok::<(), Error>(())
            } else {
                Err(Error::UnauthorizedAccount(caller))
            }),
    {
        proof {
            crate::primitives::lemma_address_eq(self.owner, caller);
        }
        if self.owner != caller {
            return Err(Error::UnauthorizedAccount(caller));
        }
        Ok(())
    }

    /// The position of `protocol` in the list, found by a scan.
    fn position_of(&self, protocol: Address) -> (r: Option<usize>)
        ensures
            r matches Some(i) ==> i < self.protocols_spec().len() && self.protocols_spec()[i as int]
                == protocol,
            r is None ==> !self.protocols_spec().contains(protocol),
    {
        let mut i: usize = 0;
        while i < self.protocols.len()
            invariant
                0 <= i <= self.protocols@.len(),
                forall|j: int| 0 <= j < i ==> self.protocols@[j] != protocol,
            decreases self.protocols@.len() - i,
        {
            proof {
                crate::primitives::lemma_address_eq(self.protocols@[i as int], protocol);
            }
            if self.protocols[i] == protocol {
                return Some(i);
            }
            i = i + 1;
        }
        None
    }

    /// Starts tracking `protocol`; only the owner may call it, and a protocol
    /// that is already tracked is left where it is.
    pub fn add_protocol(&mut self, caller: Address, protocol: Address) -> (r: Result<(), Error>)
        requires
            old(self).wf(),
        ensures
            add_outcome(*old(self), caller, protocol, *final(self), r),
    {
        self.only_owner(caller)?;
        match self.position_of(protocol) {
            Some(_) => Ok(()),
            None => {
                self.protocols.push(protocol);
                Ok(())
            },
        }
    }

    /// Stops tracking `protocol`; only the owner may call it, the remaining
    /// protocols keep their order, and an untracked protocol is no error.
    pub fn remove_protocol(&mut self, caller: Address, protocol: Address) -> (r: Result<
        (),
        Error,
    >)
        requires
            old(self).wf(),
        ensures
            remove_outcome(*old(self), caller, protocol, *final(self), r),
    {
        self.only_owner(caller)?;
        match self.position_of(protocol) {
            Some(i) => {
                proof {
                    let s = self.protocols@;
                    assert(s.contains(protocol));
                    assert(s[s.index_of(protocol)] == protocol);
                    assert(s.index_of(protocol) == i);
                }
                self.protocols.remove(i);
                Ok(())
            },
            None => Ok(()),
        }
    }

    /// The tracked protocols, in order.
    pub fn get_protocols(&self) -> (r: Vec<Address>)
        ensures
            r@ == self.protocols_spec(),
    {
        self.protocols.clone()
    }

    /// The number of tracked protocols.
    pub fn get_protocol_count(&self) -> (r: U256)
        ensures
            r@ == self.protocols_spec().len(),
    {
        U256::from_u64(self.protocols.len() as u64)
    }

    /// Whether `protocol` is tracked.
    pub fn is_protocol_tracked(&self, protocol: Address) -> (r: bool)
        ensures
            r == self.protocols_spec().contains(protocol),
    {
        self.position_of(protocol).is_some()
    }
    /// The owner, the only account that may change the registry.
    pub fn owner(&self) -> (r: Address)
        ensures
            r == self.owner_spec(),
    {
        self.owner
    }

    /// Hands the registry to `new_owner`; only the owner may call it, and the
    /// zero address is refused.
    pub fn transfer_ownership(&mut self, caller: Address, new_owner: Address) -> (r: Result<
        (),
        Error,
    >)
        requires
            old(self).wf(),
        ensures
            final(self).wf(),
            final(self).protocols_spec() == old(self).protocols_spec(),
            caller != old(self).owner_spec() ==> r == Err::<(), Error>(
                Error::UnauthorizedAccount(caller),
            ) && final(self).owner_spec() == old(self).owner_spec(),
            caller == old(self).owner_spec() && new_owner.is_zero_spec() ==> (r matches Err(
                Error::InvalidOwner(o),
            ) && o.is_zero_spec()) && final(self).owner_spec() == old(self).owner_spec(),
            caller == old(self).owner_spec() && !new_owner.is_zero_spec() ==> r is Ok
                && final(self).owner_spec() == new_owner,
    {
        self.only_owner(caller)?;
        if new_owner.is_zero() {
            return Err(Error::InvalidOwner(Address::zero()));
        }
        self.owner = new_owner;
        Ok(())
    }

    /// Leaves the registry without an owner (the zero address), after which
    /// nobody can change it; only the owner may call it.
    pub fn renounce_ownership(&mut self, caller: Address) -> (r: Result<(), Error>)
        requires
            old(self).wf(),
        ensures
            final(self).wf(),
            final(self).protocols_spec() == old(self).protocols_spec(),
            caller != old(self).owner_spec() ==> r == Err::<(), Error>(
                Error::UnauthorizedAccount(caller),
            ) && final(self).owner_spec() == old(self).owner_spec(),
            caller == old(self).owner_spec() ==> r is Ok && final(self).owner_spec().is_zero_spec(),
    {
        self.only_owner(caller)?;
        self.owner = Address::zero();
        Ok(())
    }

    /// The placeholder yield of `protocol` for `user`, standing in for a call
    /// to the protocol itself.
    fn get_mock_yield(&self, protocol: Address, user: Address) -> (r: U256)
        ensures
            r@ == mock_yield_of(protocol),
    {
        mock_yield(protocol, user)
    }

    /// The sum of every tracked protocol's yield for `user`, in registry
    /// order; `ArithmeticOverflow` exactly when it exceeds `2^256 - 1`.
    pub fn get_total_yield(&self, user: Address) -> (r: Result<U256, Error>)
        ensures
            r is Ok <==> mock_total(self.protocols_spec()) <= u256_max(),
            r matches Ok(t) ==> t@ == mock_total(self.protocols_spec()),
            r matches Err(e) ==> e == Error::ArithmeticOverflow,
    {
        let mut yields: Vec<U256> = Vec::new();
        let mut i: usize = 0;
        while i < self.protocols.len()
            invariant
                0 <= i <= self.protocols@.len(),
                yields@.len() == i,
                forall|j: int| 0 <= j < i ==> yields@[j]@ == mock_yield_of(self.protocols@[j]),
            decreases self.protocols@.len() - i,
        {
            yields.push(self.get_mock_yield(self.protocols[i], user));
            i = i + 1;
        }
        proof {
            crate::yields::lemma_sum_of_mock(yields@, self.protocols@);
        }
        crate::yields::sum_yields(&yields)
    }
}

} // verus!
