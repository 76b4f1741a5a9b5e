//! Bookkeeping and address derivation for a factory of sealed-bid auction instances.
//!
//! The factory keeps a counter of deployments, a write-once registry from sequential
//! ids to instance addresses and their creators, an owner and a pause flag. Each
//! instance is placed under a salt derived from its candidate id, its creator and its
//! terms, so that its address can be computed before it is deployed.
use vstd::prelude::*;

pub mod address;
pub mod factory;
pub mod history;
pub mod salt;
pub mod word;

pub use address::Address;
pub use factory::{DeployOrder, FactoryError, SealedBidAuctionFactory};
pub use salt::{build_salt_preimage, derive_salt, AuctionTerms};
pub use word::U256;

verus! {

} // verus!
