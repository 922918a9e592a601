use vstd::prelude::*;

use crate::claim::Claim;
use crate::error::ErrorCode;
use crate::stake::Stake;
use crate::state::{Pubkey, StakeAccount, StakeConfig, UserAccount};
use crate::unstake::{elapsed, Unstake};

verus! {

/// One operation of a user on their own ledger.
#[derive(Clone, Copy, Debug)]
pub enum LedgerOp {
    Stake { mint: Pubkey, now: i64, bump: u8 },
    Unstake { mint: Pubkey, now: i64 },
    Claim,
}

/// The slot for `mint` among one user's live stake records, keyed by asset.
pub open spec fn record_slot(records: Map<Seq<u8>, StakeAccount>, mint: Pubkey) -> Option<StakeAccount> {
    if records.contains_key(mint@) {
        Some(records[mint@])
    } else {
        None
    }
}

/// The ledger and records after one operation; a rejected operation changes nothing.
pub open spec fn apply_op(
    config: StakeConfig,
    user: Pubkey,
    account: UserAccount,
    records: Map<Seq<u8>, StakeAccount>,
    op: LedgerOp,
) -> (UserAccount, Map<Seq<u8>, StakeAccount>) {
    match op {
        LedgerOp::Stake { mint, now, bump } => {
            let ctx = Stake {
                user,
                user_account: account,
                config,
                nft_mint: mint,
                stake_account: record_slot(records, mint),
            };
            match ctx.stake_step(now, bump) {
                Ok(next) => (next.user_account, records.insert(mint@, next.stake_account->Some_0)),
                Err(_) => (account, records),
            }
        },
        LedgerOp::Unstake { mint, now } => {
            let ctx = Unstake {
                user,
                user_account: account,
                config,
                nft_mint: mint,
                stake_account: record_slot(records, mint),
            };
            match ctx.unstake_step(now) {
                Ok(next) => (next.user_account, records.remove(mint@)),
                Err(_) => (account, records),
            }
        },
        LedgerOp::Claim => {
            let ctx = Claim { user, user_account: account, config };
            match ctx.claim_step() {
                Ok((next, _)) => (next.user_account, records),
                Err(_) => (account, records),
            }
        },
    }
}

/// The ledger and records after a sequence of operations, applied in order.
pub open spec fn run_ops(
    config: StakeConfig,
    user: Pubkey,
    account: UserAccount,
    records: Map<Seq<u8>, StakeAccount>,
    ops: Seq<LedgerOp>,
) -> (UserAccount, Map<Seq<u8>, StakeAccount>)
    decreases ops.len(),
{
    if ops.len() == 0 {
        (account, records)
    } else {
        let step = apply_op(config, user, account, records, ops[0]);
        run_ops(config, user, step.0, step.1, ops.subrange(1, ops.len() as int))
    }
}

/// Whatever sequence of stakes, unstakes and claims a user makes, the number of
/// assets they have staked stays between zero and `max_stake`.
pub proof fn amount_staked_stays_within_limit(
    config: StakeConfig,
    user: Pubkey,
    account: UserAccount,
    records: Map<Seq<u8>, StakeAccount>,
    ops: Seq<LedgerOp>,
)
    requires
        account.wf(config),
    ensures
        run_ops(config, user, account, records, ops).0.wf(config),
        0 <= run_ops(config, user, account, records, ops).0.amount_staked <= config.max_stake,
    decreases ops.len(),
{
    if ops.len() > 0 {
        let step = apply_op(config, user, account, records, ops[0]);
        amount_staked_stays_within_limit(config, user, step.0, step.1, ops.subrange(1, ops.len() as int));
    }
}

/// An asset staked at `staked_at` cannot be taken back while less than
/// `freeze_period` seconds have passed; once they have, the same unstake goes
/// through (given room in the points counter).
pub proof fn unstake_waits_for_freeze_period(stake: Stake, staked_at: i64, bump: u8, now: i64)
    requires
        stake.stake_step(staked_at, bump) is Ok,
    ensures
        ({
            let s = stake.stake_step(staked_at, bump)->Ok_0;
            let u = Unstake {
                user: s.user,
                user_account: s.user_account,
                config: s.config,
                nft_mint: s.nft_mint,
                stake_account: s.stake_account,
            };
            &&& now - staked_at < stake.config.freeze_period ==> u.unstake_step(now) == Err::<
                Unstake,
                ErrorCode,
            >(ErrorCode::TimeNotElapsed)
            &&& (now - staked_at >= stake.config.freeze_period && stake.user_account.points
                + stake.config.points_per_stake <= u32::MAX) ==> u.unstake_step(now) is Ok
        }),
{
    let s = stake.stake_step(staked_at, bump)->Ok_0;
    assert(elapsed(s.stake_account->Some_0, now) == now - staked_at);
}

/// Every successful unstake credits exactly `points_per_stake`, also right
/// after the points were claimed.
pub proof fn unstake_credits_points_per_stake(claim: Claim, unstake: Unstake, now: i64)
    requires
        claim.claim_step() is Ok,
        unstake.user_account == claim.claim_step()->Ok_0.0.user_account,
        unstake.unstake_step(now) is Ok,
    ensures
        unstake.unstake_step(now)->Ok_0.user_account.points == unstake.config.points_per_stake,
        forall|u: Unstake|
            #[trigger] u.unstake_step(now) is Ok ==> u.unstake_step(now)->Ok_0.user_account.points
                == u.user_account.points + u.config.points_per_stake,
{
}

/// A claim with no points is rejected with `NoRewardsToClaim`.
pub proof fn claim_without_points_is_rejected(claim: Claim)
    requires
        claim.user_account.points == 0,
    ensures
        claim.claim_step() == Err::<(Claim, u64), ErrorCode>(ErrorCode::NoRewardsToClaim),
{
}

/// A claim of `P > 0` points mints exactly `P` and leaves no points, so a
/// second claim right after it (as any competing claim of the same user, since
/// claims on one ledger are applied one after the other) is rejected.
pub proof fn second_claim_is_rejected(claim: Claim)
    requires
        claim.user_account.points > 0,
    ensures
        claim.claim_step() is Ok,
        claim.claim_step()->Ok_0.1 == claim.user_account.points,
        claim.claim_step()->Ok_0.0.user_account.points == 0,
        claim.claim_step()->Ok_0.0.claim_step() == Err::<(Claim, u64), ErrorCode>(
            ErrorCode::NoRewardsToClaim,
        ),
{
}

} // verus!
