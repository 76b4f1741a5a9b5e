//! The factory's persistent state and the operations on it: initialization, the
//! pause gate, the two steps of a deployment, and read accessors.
//!
//! A deployment runs in two steps around the host's deploy primitive:
//! `create_auction` validates the request and derives the placement salt without
//! touching the state, and `complete_auction` takes the primitive's outcome and
//! records the new instance, or leaves the state untouched when it failed.
use vstd::prelude::*;

use crate::address::{zero_address, Address};
use crate::salt::{derive_salt, salt_of, AuctionTerms};
use crate::word::{lemma_usize_below_max, U256};

verus! {

/// Why an operation of the factory failed.
#[derive(Debug)]
pub enum FactoryError {
    AlreadyInitialized,
    NotOwner,
    Paused,
    InvalidAsset,
    InvalidDuration,
    InvalidDeposit,
    /// The deploy primitive failed; its diagnostic payload, unmodified.
    DeploymentFailed(Vec<u8>),
}

/// What the host is asked to do once a deployment request has been validated:
/// place the instance module under `salt`. `id` is the identifier the instance
/// receives and `creator` the account that asked for it.
#[derive(Clone, Copy, Debug)]
pub struct DeployOrder {
    pub id: U256,
    pub creator: Address,
    pub salt: [u8; 32],
}

/// The abstract state of the factory.
pub struct FactoryView {
    /// Number of successful deployments.
    pub count: nat,
    /// `auctions[i]` is the instance registered under id `i + 1`; entries are only
    /// ever appended.
    pub auctions: Seq<Address>,
    /// `creators[i]` is the account that requested the instance with id `i + 1`.
    pub creators: Seq<Address>,
    pub owner: Address,
    pub paused: bool,
    /// The precompiled instance module that every deployment places.
    pub module: Seq<u8>,
}

impl FactoryView {
    /// The instance registered under `id`, or the empty address.
    pub open spec fn auction_at(self, id: nat) -> Address {
        if 1 <= id <= self.auctions.len() {
            self.auctions[id - 1]
        } else {
            zero_address()
        }
    }

    /// The account that requested the instance under `id`, or the empty address.
    pub open spec fn creator_at(self, id: nat) -> Address {
        if 1 <= id <= self.creators.len() {
            self.creators[id - 1]
        } else {
            zero_address()
        }
    }

    pub open spec fn is_initialized(self) -> bool {
        self.owner != zero_address()
    }

    /// The outcome of an initialization request.
    pub open spec fn initialize_check(self) -> Result<(), FactoryError> {
        if self.is_initialized() {
            Err(FactoryError::AlreadyInitialized)
        } else {
            Ok(())
        }
    }

    /// The state after a successful initialization by `caller`. The counter and the
    /// registry are kept: the counter is zero at genesis and never goes down.
    pub open spec fn initialized_by(self, caller: Address) -> FactoryView {
        FactoryView { owner: caller, paused: false, ..self }
    }

    /// Whether `caller` may pause or unpause.
    pub open spec fn owner_check(self, caller: Address) -> Result<(), FactoryError> {
        if caller == self.owner {
            Ok(())
        } else {
            Err(FactoryError::NotOwner)
        }
    }

    pub open spec fn with_paused(self, paused: bool) -> FactoryView {
        FactoryView { paused, ..self }
    }

    /// The validation of a deployment request; the first failing check wins.
    pub open spec fn create_check(self, terms: AuctionTerms) -> Result<(), FactoryError> {
        if self.paused {
            Err(FactoryError::Paused)
        } else if terms.nft_contract == zero_address() {
            Err(FactoryError::InvalidAsset)
        } else if terms.commit_duration.value() == 0 {
            Err(FactoryError::InvalidDuration)
        } else if terms.reveal_duration.value() == 0 {
            Err(FactoryError::InvalidDuration)
        } else if terms.min_deposit.value() == 0 {
            Err(FactoryError::InvalidDeposit)
        } else {
            Ok(())
        }
    }

    /// The state after `deployed` was placed for `creator` under the next id: both
    /// are appended to the registry and the counter grows by one.
    pub open spec fn recorded(self, deployed: Address, creator: Address) -> FactoryView {
        FactoryView {
            count: self.count + 1,
            auctions: self.auctions.push(deployed),
            creators: self.creators.push(creator),
            ..self
        }
    }

    /// The relations between the parts of the state that every reachable state keeps.
    pub open spec fn consistent(self) -> bool {
        &&& self.count == self.auctions.len()
        &&& self.creators.len() == self.auctions.len()
    }
}

/// The factory: a counter, the registry of instances and their creators, the owner
/// and the pause flag, and the instance module it deploys.
pub struct SealedBidAuctionFactory {
    auction_count: U256,
    auctions: Vec<Address>,
    creators: Vec<Address>,
    owner: Address,
    paused: bool,
    instance_module: Vec<u8>,
}

impl View for SealedBidAuctionFactory {
    type V = FactoryView;

    closed spec fn view(&self) -> FactoryView {
        FactoryView {
            count: self.auction_count.value(),
            auctions: self.auctions@,
            creators: self.creators@,
            owner: self.owner,
            paused: self.paused,
            module: self.instance_module@,
        }
    }
}

impl SealedBidAuctionFactory {
    /// The state invariant.
    pub closed spec fn wf(&self) -> bool {
        self@.consistent()
    }

    pub proof fn lemma_wf_consistent(&self)
        requires
            self.wf(),
        ensures
            self@.consistent(),
    {
    }

    /// The state at genesis: nothing deployed, no owner, not paused.
    pub fn genesis(instance_module: Vec<u8>) -> (r: SealedBidAuctionFactory)
        ensures
            r.wf(),
            r@.count == 0,
            r@.auctions == Seq::<Address>::empty(),
            r@.creators == Seq::<Address>::empty(),
            r@.owner == zero_address(),
            !r@.paused,
            r@.module == instance_module@,
    {
        SealedBidAuctionFactory {
            auction_count: U256::zero(),
            auctions: Vec::new(),
            creators: Vec::new(),
            owner: Address::zero(),
            paused: false,
            instance_module,
        }
    }

    /// Initializes the factory with `caller` as its owner and unpauses it. The counter
    /// and the registry are left as they are. Fails when an owner is already set.
    pub fn new(&mut self, caller: Address) -> (r: Result<(), FactoryError>)
        requires
            old(self).wf(),
        ensures
            final(self).wf(),
            r == old(self)@.initialize_check(),
            r is Ok ==> final(self)@ == old(self)@.initialized_by(caller),
            r is Err ==> final(self)@ == old(self)@,
    {
        if !self.owner.is_zero() {
            return Err(FactoryError::AlreadyInitialized);
        }
        self.owner = caller;
        self.paused = false;
        Ok(())
    }

    fn only_owner(&self, caller: &Address) -> (r: Result<(), FactoryError>)
        ensures
            r == self@.owner_check(*caller),
    {
        if *caller != self.owner {
            return Err(FactoryError::NotOwner);
        }
        Ok(())
    }

    /// Stops new deployments. Only the owner may pause.
    pub fn pause(&mut self, caller: Address) -> (r: Result<(), FactoryError>)
        requires
            old(self).wf(),
        ensures
            final(self).wf(),
            r == old(self)@.owner_check(caller),
            r is Ok ==> final(self)@ == old(self)@.with_paused(true),
            r is Err ==> final(self)@ == old(self)@,
    {
        self.only_owner(&caller)?;
        self.paused = true;
        Ok(())
    }

    /// Allows new deployments again. Only the owner may unpause.
    pub fn unpause(&mut self, caller: Address) -> (r: Result<(), FactoryError>)
        requires
            old(self).wf(),
        ensures
            final(self).wf(),
            r == old(self)@.owner_check(caller),
            r is Ok ==> final(self)@ == old(self)@.with_paused(false),
            r is Err ==> final(self)@ == old(self)@,
    {
        self.only_owner(&caller)?;
        self.paused = false;
        Ok(())
    }
    /// Validates a deployment request from `caller` and derives where its instance is
    /// placed. The state is not changed: the host deploys the module under the
    /// returned order's salt and hands the outcome to `complete_auction`.
    ///
    /// Fails with `Paused`, `InvalidAsset`, `InvalidDuration` (commit, then reveal
    /// duration) or `InvalidDeposit`, checked in that order.
    pub fn create_auction(
        &self,
        caller: Address,
        nft_contract: Address,
        token_id: U256,
        reserve_price: U256,
        commit_duration: U256,
        reveal_duration: U256,
        min_deposit: U256,
    ) -> (r: Result<DeployOrder, FactoryError>)
        requires
            self.wf(),
        ensures
            ({
                let terms = AuctionTerms {
                    nft_contract,
                    token_id,
                    reserve_price,
                    commit_duration,
                    reveal_duration,
                    min_deposit,
                };
                match r {
                    Ok(order) => {
                        &&& self@.create_check(terms) is Ok
                        &&& order.id.value() == self@.count + 1
                        &&& order.creator == caller
                        &&& order.salt@ == salt_of(order.id, caller, terms)
                    },
                    Err(e) => self@.create_check(terms) == Err::<(), FactoryError>(e),
                }
            }),
    {
        if self.paused {
            return Err(FactoryError::Paused);
        }
        if nft_contract.is_zero() {
            return Err(FactoryError::InvalidAsset);
        }
        if commit_duration.is_zero() {
            return Err(FactoryError::InvalidDuration);
        }
        if reveal_duration.is_zero() {
            return Err(FactoryError::InvalidDuration);
        }
        if min_deposit.is_zero() {
            return Err(FactoryError::InvalidDeposit);
        }
        let terms = AuctionTerms {
            nft_contract,
            token_id,
            reserve_price,
            commit_duration,
            reveal_duration,
            min_deposit,
        };
        proof {
            lemma_usize_below_max(self.auctions.len());
        }
        let id = self.auction_count.add_one();
        let salt = derive_salt(&id, &caller, &terms);
        Ok(DeployOrder { id, creator: caller, salt })
    }

    /// Records the outcome of the deployment that `order` asked for. On success the
    /// instance and its creator are registered under the order's id, the counter
    /// takes that id, and the instance's address is returned. On failure the
    /// primitive's payload comes back as `DeploymentFailed` and the state is
    /// unchanged.
    pub fn complete_auction(
        &mut self,
        order: &DeployOrder,
        outcome: Result<Address, Vec<u8>>,
    ) -> (r: Result<Address, FactoryError>)
        requires
            old(self).wf(),
            order.id.value() == old(self)@.count + 1,
        ensures
            final(self).wf(),
            match outcome {
                Ok(deployed) => {
                    &&& r == Ok::<Address, FactoryError>(deployed)
                    &&& final(self)@ == old(self)@.recorded(deployed, order.creator)
                },
                Err(payload) => {
                    &&& r == Err::<Address, FactoryError>(FactoryError::DeploymentFailed(payload))
                    &&& final(self)@ == old(self)@
                },
            },
    {
        match outcome {
            Err(payload) => Err(FactoryError::DeploymentFailed(payload)),
            Ok(deployed) => {
                self.auctions.push(deployed);
                self.creators.push(order.creator);
                self.auction_count = order.id;
                assert(self@ == old(self)@.recorded(deployed, order.creator));
                Ok(deployed)
            },
        }
    }

    /// The instance registered under `id`, or the empty address.
    pub fn get_auction(&self, id: U256) -> (r: Address)
        ensures
            r == self@.auction_at(id.value()),
    {
        match id.to_usize_at_most(self.auctions.len()) {
            Some(i) => {
                if i >= 1 {
                    self.auctions[i - 1]
                } else {
                    Address::zero()
                }
            },
            None => Address::zero(),
        }
    }

    /// The account that requested the instance under `id`, or the empty address.
    pub fn get_creator(&self, id: U256) -> (r: Address)
        ensures
            r == self@.creator_at(id.value()),
    {
        match id.to_usize_at_most(self.creators.len()) {
            Some(i) => {
                if i >= 1 {
                    self.creators[i - 1]
                } else {
                    Address::zero()
                }
            },
            None => Address::zero(),
        }
    }

    /// The number of successful deployments.
    pub fn get_auction_count(&self) -> (r: U256)
        ensures
            r.value() == self@.count,
    {
        self.auction_count
    }

    /// The id the next successful deployment receives.
    pub fn next_auction_id(&self) -> (r: U256)
        requires
            self.wf(),
        ensures
            r.value() == self@.count + 1,
    {
        proof {
            lemma_usize_below_max(self.auctions.len());
        }
        self.auction_count.add_one()
    }

    pub fn get_owner(&self) -> (r: Address)
        ensures
            r == self@.owner,
    {
        self.owner
    }

    pub fn is_paused(&self) -> (r: bool)
        ensures
            r == self@.paused,
    {
        self.paused
    }

    /// The instance module that deployments place.
    pub fn instance_module(&self) -> (r: &Vec<u8>)
        ensures
            r@ == self@.module,
    {
        &self.instance_module
    }

    /// The size in bytes of the instance module.
    pub fn get_bytecode_length(&self) -> (r: U256)
        ensures
            r.value() == self@.module.len(),
    {
        U256::from_u64(self.instance_module.len() as u64)
    }
}

} // verus!
