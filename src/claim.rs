use vstd::prelude::*;

use crate::error::ErrorCode;
use crate::state::{Pubkey, StakeConfig, UserAccount};

verus! {

/// The accounts a claim works on: the user, the user's ledger and the
/// configuration.
#[derive(Clone, Copy, Debug)]
pub struct Claim {
    pub user: Pubkey,
    pub user_account: UserAccount,
    pub config: StakeConfig,
}

impl Claim {
    /// The rule of a claim: the accounts after it and the number of reward
    /// units to mint, or the reason it is rejected.
    pub open spec fn claim_step(self) -> Result<(Claim, u64), ErrorCode> {
        if self.user_account.points == 0 {
            Err(ErrorCode::NoRewardsToClaim)
        } else {
            Ok(
                (
                    Claim { user_account: UserAccount { points: 0, ..self.user_account }, ..self },
                    self.user_account.points as u64,
                ),
            )
        }
    }

    /// Redeems all accrued points: returns how many reward units the caller
    /// mints to the user, in the same transaction, and zeroes the points.
    pub fn claim(&mut self) -> (r: Result<u64, ErrorCode>)
        ensures
            match old(self).claim_step() {
                Ok((next, amount)) => r == Ok::<u64, ErrorCode>(amount) && *final(self) == next,
                Err(e) => r == Err::<u64, ErrorCode>(e) && *final(self) == *old(self),
            },
            old(self).user_account.points == 0 <==> r == Err::<u64, ErrorCode>(ErrorCode::NoRewardsToClaim),
            r is Ok ==> r->Ok_0 == old(self).user_account.points && final(self).user_account.points == 0,
    {
        let amount = self.user_account.points;
        if amount == 0 {
            return Err(ErrorCode::NoRewardsToClaim);
        }
        self.user_account.points = 0;
        Ok(amount as u64)
    }
}

} // verus!
