use vstd::prelude::*;

use crate::error::ErrorCode;
use crate::state::{Pubkey, StakeAccount, StakeConfig, UserAccount};

verus! {

/// The accounts a stake works on: the staking user, the user's ledger, the
/// configuration, the asset, and the record slot for (user, asset), which is
/// empty unless the asset is already staked by this user.
#[derive(Clone, Copy, Debug)]
pub struct Stake {
    pub user: Pubkey,
    pub user_account: UserAccount,
    pub config: StakeConfig,
    pub nft_mint: Pubkey,
    pub stake_account: Option<StakeAccount>,
}

impl Stake {
    /// The rule of a stake at time `now`: the accounts after it, or the reason
    /// it is rejected.
    pub open spec fn stake_step(self, now: i64, bump: u8) -> Result<Stake, ErrorCode> {
        if self.user_account.amount_staked >= self.config.max_stake {
            Err(ErrorCode::LimitExceeded)
        } else if self.stake_account is Some {
            Err(ErrorCode::AlreadyStaked)
        } else {
            Ok(
                Stake {
                    user_account: UserAccount {
                        amount_staked: (self.user_account.amount_staked + 1) as u8,
                        ..self.user_account
                    },
                    stake_account: Some(
                        StakeAccount { owner: self.user, mint: self.nft_mint, staked_at: now, bump },
                    ),
                    ..self
                },
            )
        }
    }

    /// Records that `user` staked `nft_mint` at `now`. The caller moves the
    /// asset into escrow after an `Ok`, in the same transaction.
    pub fn stake(&mut self, now: i64, bump: u8) -> (r: Result<(), ErrorCode>)
        ensures
            match old(self).stake_step(now, bump) {
                Ok(next) => r is Ok && *final(self) == next,
                Err(e) => r == Err::<(), ErrorCode>(e) && *final(self) == *old(self),
            },
            r is Ok <==> (old(self).user_account.amount_staked < old(self).config.max_stake
                && old(self).stake_account is None),
            r is Ok ==> final(self).user_account.amount_staked == old(self).user_account.amount_staked + 1,
            r is Ok ==> final(self).user_account.points == old(self).user_account.points,
    {
        if self.user_account.amount_staked >= self.config.max_stake {
            return Err(ErrorCode::LimitExceeded);
        }
        if self.stake_account.is_some() {
            return Err(ErrorCode::AlreadyStaked);
        }
        let amount = match self.user_account.amount_staked.checked_add(1) {
            Some(a) => a,
            None => return Err(ErrorCode::Overflow),
        };
        self.user_account.amount_staked = amount;
        self.stake_account = Some(
            StakeAccount { owner: self.user, mint: self.nft_mint, staked_at: now, bump },
        );
        Ok(())
    }
}

} // verus!
