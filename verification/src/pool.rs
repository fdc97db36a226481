//! Data carried by the leveraged-pool committer contracts: the kinds of
//! commit they accept and the commit-creation event they emit.

use vstd::prelude::*;

verus! {

/// The event name of the commit-creation log entries.
pub const EVENT_NAME: &'static str = "CreateCommit";

/// Declares ethers' 160-bit account-address type so it can stand in fields.
#[verifier::external_type_specification]
#[verifier::external_body]
pub struct ExH160(ethers::types::H160);

/// Declares ethers' 256-bit unsigned-integer type so it can stand in fields.
#[verifier::external_type_specification]
#[verifier::external_body]
pub struct ExU256(ethers::types::U256);

/// Relies on H160's `Clone`: the type is plain old data and its clone is a
/// copy of the value.
pub assume_specification[ <ethers::types::H160 as core::clone::Clone>::clone ](
    v: &ethers::types::H160,
) -> (r: ethers::types::H160)
    ensures
        r == *v,
;

/// Relies on U256's `Clone`: the type is plain old data and its clone is a
/// copy of the value.
pub assume_specification[ <ethers::types::U256 as core::clone::Clone>::clone ](
    v: &ethers::types::U256,
) -> (r: ethers::types::U256)
    ensures
        r == *v,
;

/// The kinds of commit a pool committer accepts.
#[derive(Copy, Clone, Debug)]
pub enum CommitType {
    /// Mint into the short side of the pool.
    ShortMint,
    /// Burn from the short side of the pool.
    ShortBurn,
    /// Mint into the long side of the pool.
    LongMint,
    /// Burn from the long side of the pool.
    LongBurn,
    /// Burn long and mint short in one commit.
    LongBurnShortMint,
    /// Burn short and mint long in one commit.
    ShortBurnLongMint,
}

/// A commit-creation event as the pool committer contract emits it.
#[derive(Clone, Debug)]
pub struct CreateCommit {
    /// The account that created the commit.
    pub user: ethers::types::Address,
    /// The amount committed.
    pub amount: ethers::types::U256,
    /// The kind of commit, as the contract encodes it.
    pub commit_type: ethers::types::U256,
    /// The update interval the commit lands in.
    pub appropriate_update_interval_id: ethers::types::U256,
    /// Whether the amount is drawn from the aggregate balance.
    pub from_aggregate_balance: bool,
    /// Whether the creator pays to have the claim executed.
    pub pay_for_claim: bool,
    /// The minting fee, as a 128-bit fixed-point quantity.
    pub minting_fee: [u8; 16],
}

} // verus!
