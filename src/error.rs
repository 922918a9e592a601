use vstd::prelude::*;

verus! {

/// Every way in which a staking operation can be rejected. A rejected
/// operation leaves every account it was given exactly as it found it.
#[derive(Clone, Copy, Debug, PartialEq, Eq, Structural)]
pub enum ErrorCode {
    /// The caller is not the owner of the record it presented.
    Unauthorized,
    /// The user already holds `max_stake` staked assets.
    LimitExceeded,
    /// A live stake record already exists for this (user, asset) pair.
    AlreadyStaked,
    /// No live stake record exists for this (user, asset) pair.
    NotStaked,
    /// The freeze period has not yet elapsed since the asset was staked.
    TimeNotElapsed,
    /// A ledger counter would drop below zero.
    Underflow,
    /// A ledger counter would exceed its width.
    Overflow,
    /// A claim was made with no accrued points.
    NoRewardsToClaim,
    /// The custody service refused to move the asset.
    CustodyFailure,
    /// The issuance service refused to mint the reward.
    IssuanceFailure,
}

} // verus!
