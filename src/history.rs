//! Sequences of calls on the factory, and what holds over every such sequence.
//!
//! `apply` is the effect of one call on the abstract state, written with the same
//! spec functions that the executable operations' contracts use.
use vstd::prelude::*;

use crate::address::{zero_address, Address};
use crate::factory::{FactoryError, FactoryView};
use crate::salt::AuctionTerms;

verus! {

/// One call on the factory. A deployment request carries the deploy primitive's
/// result: `Some(address)` where it placed the instance, `None` where it failed.
pub enum FactoryCall {
    Initialize { caller: Address },
    Pause { caller: Address },
    Unpause { caller: Address },
    CreateAuction { caller: Address, terms: AuctionTerms, deployed: Option<Address> },
}

/// Whether `call` is a deployment that succeeds in state `v`.
pub open spec fn deploys(v: FactoryView, call: FactoryCall) -> bool {
    match call {
        FactoryCall::CreateAuction { caller, terms, deployed } => v.create_check(terms) is Ok
            && deployed is Some,
        _ => false,
    }
}

/// The state after `call` in state `v`; a failing call leaves the state as it was.
pub open spec fn apply(v: FactoryView, call: FactoryCall) -> FactoryView {
    match call {
        FactoryCall::Initialize { caller } => if v.initialize_check() is Ok {
            v.initialized_by(caller)
        } else {
            v
        },
        FactoryCall::Pause { caller } => if v.owner_check(caller) is Ok {
            v.with_paused(true)
        } else {
            v
        },
        FactoryCall::Unpause { caller } => if v.owner_check(caller) is Ok {
            v.with_paused(false)
        } else {
            v
        },
        FactoryCall::CreateAuction { caller, terms, deployed } => if deploys(v, call) {
            v.recorded(deployed.unwrap(), caller)
        } else {
            v
        },
    }
}

/// The state after the calls, in order, from `v`.
pub open spec fn apply_all(v: FactoryView, calls: Seq<FactoryCall>) -> FactoryView
    decreases calls.len(),
{
    if calls.len() == 0 {
        v
    } else {
        apply_all(apply(v, calls[0]), calls.drop_first())
    }
}

/// How many of the calls, made in order from `v`, are successful deployments.
pub open spec fn deployment_count(v: FactoryView, calls: Seq<FactoryCall>) -> nat
    decreases calls.len(),
{
    if calls.len() == 0 {
        0
    } else {
        (if deploys(v, calls[0]) {
            1nat
        } else {
            0nat
        }) + deployment_count(apply(v, calls[0]), calls.drop_first())
    }
}

/// One call on a consistent factory keeps it consistent, raises the counter by one on
/// a successful deployment and leaves it alone otherwise, and changes no registered id
/// up to the counter.
proof fn lemma_step(v: FactoryView, call: FactoryCall)
    requires
        v.consistent(),
    ensures
        apply(v, call).consistent(),
        apply(v, call).count == v.count + if deploys(v, call) {
            1nat
        } else {
            0nat
        },
        forall|id: nat|
            1 <= id <= v.count ==> #[trigger] apply(v, call).auction_at(id) == v.auction_at(id)
                && apply(v, call).creator_at(id) == v.creator_at(id),
{
}

/// After any sequence of calls, the counter has grown by exactly the number of
/// successful deployments among them: it never goes down, and failed attempts never
/// change it.
pub proof fn lemma_counter_counts_deployments(v: FactoryView, calls: Seq<FactoryCall>)
    requires
        v.consistent(),
    ensures
        apply_all(v, calls).count == v.count + deployment_count(v, calls),
    decreases calls.len(),
{
    if calls.len() > 0 {
        lemma_step(v, calls[0]);
        lemma_counter_counts_deployments(apply(v, calls[0]), calls.drop_first());
    }
}

/// From a factory with no deployments yet, such as the one at genesis, the counter
/// after any sequence of calls is the number of successful deployments among them.
pub proof fn lemma_counter_from_empty(v: FactoryView, calls: Seq<FactoryCall>)
    requires
        v.consistent(),
        v.count == 0,
    ensures
        apply_all(v, calls).count == deployment_count(v, calls),
{
    lemma_counter_counts_deployments(v, calls);
}

/// An id that has been assigned keeps its instance and its creator through any
/// sequence of later calls.
pub proof fn lemma_registry_write_once(v: FactoryView, calls: Seq<FactoryCall>, id: nat)
    requires
        v.consistent(),
        1 <= id <= v.count,
    ensures
        apply_all(v, calls).auction_at(id) == v.auction_at(id),
        apply_all(v, calls).creator_at(id) == v.creator_at(id),
    decreases calls.len(),
{
    if calls.len() > 0 {
        let v1 = apply(v, calls[0]);
        lemma_step(v, calls[0]);
        assert(v1.auction_at(id) == v.auction_at(id));
        lemma_registry_write_once(v1, calls.drop_first(), id);
    }
}

/// Once a non-empty caller has initialized the factory, every further initialization
/// fails with `AlreadyInitialized` and leaves the state, owner included, as it was.
pub proof fn lemma_initialize_once(v: FactoryView, first: Address, second: Address)
    requires
        first != zero_address(),
    ensures
        ({
            let v1 = apply(v, FactoryCall::Initialize { caller: first });
            &&& v1.owner == if v.is_initialized() {
                v.owner
            } else {
                first
            }
            &&& v1.initialize_check() == Err::<(), FactoryError>(FactoryError::AlreadyInitialized)
            &&& apply(v1, FactoryCall::Initialize { caller: second }) == v1
        }),
{
}

/// A paused factory refuses every deployment request with `Paused`, whatever its
/// terms and whatever the deploy primitive would do, and its state stays as it was.
pub proof fn lemma_paused_refuses_deployments(
    v: FactoryView,
    caller: Address,
    terms: AuctionTerms,
    deployed: Option<Address>,
)
    requires
        v.paused,
    ensures
        v.create_check(terms) == Err::<(), FactoryError>(FactoryError::Paused),
        apply(v, FactoryCall::CreateAuction { caller, terms, deployed }) == v,
{
}

/// Pausing and unpausing succeed exactly when the caller is the owner, and change
/// nothing otherwise.
pub proof fn lemma_only_owner_toggles_pause(v: FactoryView, caller: Address)
    ensures
        (v.owner_check(caller) is Ok) <==> caller == v.owner,
        caller != v.owner ==> apply(v, FactoryCall::Pause { caller }) == v,
        caller != v.owner ==> apply(v, FactoryCall::Unpause { caller }) == v,
        caller == v.owner ==> apply(v, FactoryCall::Pause { caller }).paused,
        caller == v.owner ==> !apply(v, FactoryCall::Unpause { caller }).paused,
{
}

/// When the deploy primitive fails, the counter and the registry entries of the
/// candidate id are exactly as they were: the whole state is.
pub proof fn lemma_failed_deployment_changes_nothing(
    v: FactoryView,
    caller: Address,
    terms: AuctionTerms,
)
    ensures
        ({
            let v1 = apply(v, FactoryCall::CreateAuction { caller, terms, deployed: None });
            &&& v1 == v
            &&& v1.count == v.count
            &&& v1.auction_at(v.count + 1) == v.auction_at(v.count + 1)
            &&& v1.creator_at(v.count + 1) == v.creator_at(v.count + 1)
        }),
{
}

/// A successful deployment registers the instance and its creator under the id one
/// past the old counter, which becomes the new counter.
pub proof fn lemma_deployment_registers_next_id(
    v: FactoryView,
    caller: Address,
    terms: AuctionTerms,
    deployed: Address,
)
    requires
        v.consistent(),
        v.create_check(terms) is Ok,
    ensures
        ({
            let v1 = apply(v, FactoryCall::CreateAuction { caller, terms, deployed: Some(deployed) });
            &&& v1.count == v.count + 1
            &&& v1.auction_at(v.count + 1) == deployed
            &&& v1.creator_at(v.count + 1) == caller
        }),
{
}

} // verus!
