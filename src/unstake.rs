use vstd::prelude::*;

use crate::error::ErrorCode;
use crate::state::{Pubkey, StakeAccount, StakeConfig, UserAccount};

verus! {

/// The accounts an unstake works on: the user, the user's ledger, the
/// configuration, the asset, and the record slot for (user, asset), which the
/// unstake empties.
#[derive(Clone, Copy, Debug)]
pub struct Unstake {
    pub user: Pubkey,
    pub user_account: UserAccount,
    pub config: StakeConfig,
    pub nft_mint: Pubkey,
    pub stake_account: Option<StakeAccount>,
}

/// Seconds elapsed between staking and `now`.
pub open spec fn elapsed(record: StakeAccount, now: i64) -> int {
    now as int - record.staked_at as int
}

impl Unstake {
    /// The rule of an unstake at time `now`: the accounts after it, or the
    /// reason it is rejected. Checks come in this order: record present, record
    /// owned by the caller for this asset, freeze period over, a stake to take
    /// back, room for the points.
    pub open spec fn unstake_step(self, now: i64) -> Result<Unstake, ErrorCode> {
        match self.stake_account {
            None => Err(ErrorCode::NotStaked),
            Some(record) => {
                if record.owner@ != self.user@ || record.mint@ != self.nft_mint@ {
                    Err(ErrorCode::Unauthorized)
                } else if elapsed(record, now) < self.config.freeze_period {
                    Err(ErrorCode::TimeNotElapsed)
                } else if self.user_account.amount_staked == 0 {
                    Err(ErrorCode::Underflow)
                } else if self.user_account.points + self.config.points_per_stake > u32::MAX {
                    Err(ErrorCode::Overflow)
                } else {
                    Ok(
                        Unstake {
                            user_account: UserAccount {
                                amount_staked: (self.user_account.amount_staked - 1) as u8,
                                points: (self.user_account.points + self.config.points_per_stake) as u32,
                                ..self.user_account
                            },
                            stake_account: None,
                            ..self
                        },
                    )
                }
            },
        }
    }

    /// Takes `nft_mint` back out of the stake at time `now`: one fewer asset
    /// staked, `points_per_stake` more points, and the record closed. The
    /// caller returns the asset from escrow after an `Ok`, in the same
    /// transaction.
    pub fn unstake(&mut self, now: i64) -> (r: Result<(), ErrorCode>)
        ensures
            match old(self).unstake_step(now) {
                Ok(next) => r is Ok && *final(self) == next,
                Err(e) => r == Err::<(), ErrorCode>(e) && *final(self) == *old(self),
            },
            r is Ok ==> final(self).user_account.points == old(self).user_account.points
                + old(self).config.points_per_stake,
            r is Ok ==> final(self).user_account.amount_staked == old(self).user_account.amount_staked - 1,
            r is Ok ==> final(self).stake_account is None,
    {
        let record = match self.stake_account {
            None => return Err(ErrorCode::NotStaked),
            Some(record) => record,
        };
        if !record.owner.same_as(&self.user) || !record.mint.same_as(&self.nft_mint) {
            return Err(ErrorCode::Unauthorized);
        }
        if (now as i128) - (record.staked_at as i128) < self.config.freeze_period as i128 {
            return Err(ErrorCode::TimeNotElapsed);
        }
        let amount = match self.user_account.amount_staked.checked_sub(1) {
            Some(a) => a,
            None => return Err(ErrorCode::Underflow),
        };
        let points = match self.user_account.points.checked_add(self.config.points_per_stake as u32) {
            Some(p) => p,
            None => return Err(ErrorCode::Overflow),
        };
        self.user_account.amount_staked = amount;
        self.user_account.points = points;
        self.stake_account = None;
        Ok(())
    }
}

} // verus!
