//! Properties that relate successive calls on the registry.
use vstd::prelude::*;
use crate::primitives::Address;
use crate::registry::{Error, YieldAggregator, add_outcome, remove_outcome};
use crate::yields::mock_total;

verus! {

/// Adding the same protocol twice in a row leaves the registry as adding it
/// once did, with the same result, and one add grows it by at most one.
pub proof fn law_add_idempotent(
    s0: YieldAggregator,
    s1: YieldAggregator,
    s2: YieldAggregator,
    caller: Address,
    p: Address,
    r1: Result<(), Error>,
    r2: Result<(), Error>,
)
    requires
        s0.wf(),
        add_outcome(s0, caller, p, s1, r1),
        add_outcome(s1, caller, p, s2, r2),
    ensures
        s2.protocols_spec() == s1.protocols_spec(),
        s2.owner_spec() == s1.owner_spec(),
        r2 == r1,
        s1.protocols_spec().len() <= s0.protocols_spec().len() + 1,
{
    if caller == s0.owner_spec() && !s0.protocols_spec().contains(p) {
        let s = s1.protocols_spec();
        assert(s[s.len() - 1] == p);
        assert(s.contains(p));
    }
}

/// After the owner adds a protocol, it is tracked, and exactly once.
pub proof fn law_add_tracks(
    s0: YieldAggregator,
    s1: YieldAggregator,
    caller: Address,
    p: Address,
    r: Result<(), Error>,
)
    requires
        s0.wf(),
        caller == s0.owner_spec(),
        add_outcome(s0, caller, p, s1, r),
    ensures
        s1.protocols_spec().contains(p),
        forall|i: int, j: int|
            0 <= i < s1.protocols_spec().len() && 0 <= j < s1.protocols_spec().len()
                && s1.protocols_spec()[i] == p && s1.protocols_spec()[j] == p ==> i == j,
{
    if !s0.protocols_spec().contains(p) {
        let s = s1.protocols_spec();
        assert(s[s.len() - 1] == p);
    }
}

/// An add by anyone but the owner fails as unauthorized and changes nothing.
pub proof fn law_non_owner_add_rejected(
    s0: YieldAggregator,
    s1: YieldAggregator,
    caller: Address,
    p: Address,
    r: Result<(), Error>,
)
    requires
        caller != s0.owner_spec(),
        add_outcome(s0, caller, p, s1, r),
    ensures
        r == Err::<(), Error>(Error::UnauthorizedAccount(caller)),
        s1.protocols_spec() == s0.protocols_spec(),
        s1.protocols_spec().len() == s0.protocols_spec().len(),
{
}

/// A removal by anyone but the owner fails as unauthorized and changes
/// nothing.
pub proof fn law_non_owner_remove_rejected(
    s0: YieldAggregator,
    s1: YieldAggregator,
    caller: Address,
    p: Address,
    r: Result<(), Error>,
)
    requires
        caller != s0.owner_spec(),
        remove_outcome(s0, caller, p, s1, r),
    ensures
        r == Err::<(), Error>(Error::UnauthorizedAccount(caller)),
        s1.protocols_spec() == s0.protocols_spec(),
        s1.protocols_spec().len() == s0.protocols_spec().len(),
{
}

/// After the owner removes a protocol, it is no longer tracked, and every
/// other tracked protocol still is.
pub proof fn law_remove_untracks(
    s0: YieldAggregator,
    s1: YieldAggregator,
    caller: Address,
    p: Address,
    r: Result<(), Error>,
)
    requires
        s0.wf(),
        caller == s0.owner_spec(),
        remove_outcome(s0, caller, p, s1, r),
    ensures
        !s1.protocols_spec().contains(p),
        forall|q: Address| q != p && s0.protocols_spec().contains(q) ==> s1.protocols_spec().contains(q),
{
    let s = s0.protocols_spec();
    if s.contains(p) {
        let k = s.index_of(p);
        let t = s1.protocols_spec();
        assert forall|i: int| 0 <= i < t.len() implies t[i] != p by {
            if i < k {
                assert(t[i] == s[i]);
            } else {
                assert(t[i] == s[i + 1]);
            }
        }
        assert forall|q: Address| q != p && s.contains(q) implies t.contains(q) by {
            let j = choose|j: int| 0 <= j < s.len() && s[j] == q;
            if j < k {
                assert(t[j] == q);
            } else {
                assert(t[j - 1] == q);
            }
        }
    }
}

/// A registry that tracks nothing has a total yield of zero.
pub proof fn law_empty_total(s: YieldAggregator)
    requires
        s.protocols_spec().len() == 0,
    ensures
        mock_total(s.protocols_spec()) == 0,
{
}

} // verus!
