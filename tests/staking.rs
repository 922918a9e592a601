use nft_staking::{Claim, ErrorCode, Pubkey, Stake, StakeAccount, StakeConfig, Unstake, UserAccount};

fn key(b: u8) -> Pubkey {
    Pubkey { bytes: [b; 32] }
}

fn config() -> StakeConfig {
    StakeConfig::new(5, 2, 86400, 7, 9)
}

fn stake_ctx(user: Pubkey, account: UserAccount, mint: Pubkey) -> Stake {
    Stake { user, user_account: account, config: config(), nft_mint: mint, stake_account: None }
}

fn unstake_ctx(user: Pubkey, account: UserAccount, mint: Pubkey, record: Option<StakeAccount>) -> Unstake {
    Unstake { user, user_account: account, config: config(), nft_mint: mint, stake_account: record }
}

#[test]
fn scenario_two_stakes_limit_unstake_and_claim() {
    let user = key(1);
    let t0: i64 = 1_700_000_000;
    let mut account = UserAccount::new(3);

    let mut a = stake_ctx(user, account, key(10));
    assert_eq!(a.stake(t0, 1), Ok(()));
    account = a.user_account;
    assert_eq!(account.amount_staked, 1);

    let mut b = stake_ctx(user, account, key(11));
    assert_eq!(b.stake(t0, 2), Ok(()));
    account = b.user_account;
    assert_eq!(account.amount_staked, 2);

    let mut c = stake_ctx(user, account, key(12));
    assert_eq!(c.stake(t0, 3), Err(ErrorCode::LimitExceeded));
    assert_eq!(c.user_account.amount_staked, 2);
    assert!(c.stake_account.is_none());

    let mut u = unstake_ctx(user, account, key(10), a.stake_account);
    assert_eq!(u.unstake(t0 + 86400), Ok(()));
    account = u.user_account;
    assert_eq!(account.amount_staked, 1);
    assert_eq!(account.points, 5);
    assert!(u.stake_account.is_none());

    let mut cl = Claim { user, user_account: account, config: config() };
    assert_eq!(cl.claim(), Ok(5));
    assert_eq!(cl.user_account.points, 0);
}

#[test]
fn unstake_before_freeze_period_fails_then_succeeds() {
    let user = key(1);
    let t0: i64 = 1_000;
    let mut s = stake_ctx(user, UserAccount::new(0), key(2));
    assert_eq!(s.stake(t0, 0), Ok(()));
    let record = s.stake_account;
    assert_eq!(record.unwrap().staked_at, t0);

    let mut early = unstake_ctx(user, s.user_account, key(2), record);
    assert_eq!(early.unstake(t0), Err(ErrorCode::TimeNotElapsed));
    assert_eq!(early.unstake(t0 + 86399), Err(ErrorCode::TimeNotElapsed));
    assert_eq!(early.user_account.amount_staked, 1);
    assert_eq!(early.user_account.points, 0);
    assert!(early.stake_account.is_some());

    let mut late = unstake_ctx(user, s.user_account, key(2), record);
    assert_eq!(late.unstake(t0 + 86400), Ok(()));
    assert_eq!(late.user_account.amount_staked, 0);
    assert_eq!(late.user_account.points, 5);
}

#[test]
fn unstake_adds_points_per_stake_after_claims() {
    let user = key(4);
    let record = StakeAccount { owner: user, mint: key(5), staked_at: 0, bump: 0 };
    let account = UserAccount { points: 12, amount_staked: 1, bump: 0 };
    let mut cl = Claim { user, user_account: account, config: config() };
    assert_eq!(cl.claim(), Ok(12));
    let mut u = unstake_ctx(user, cl.user_account, key(5), Some(record));
    assert_eq!(u.unstake(100_000), Ok(()));
    assert_eq!(u.user_account.points, 5);
}

#[test]
fn claim_with_no_points_is_rejected_and_changes_nothing() {
    let account = UserAccount { points: 0, amount_staked: 1, bump: 4 };
    let mut cl = Claim { user: key(1), user_account: account, config: config() };
    assert_eq!(cl.claim(), Err(ErrorCode::NoRewardsToClaim));
    assert_eq!(cl.user_account.points, 0);
    assert_eq!(cl.user_account.amount_staked, 1);
    assert_eq!(cl.user_account.bump, 4);
}

#[test]
fn second_claim_is_rejected() {
    let account = UserAccount { points: 5, amount_staked: 0, bump: 0 };
    let mut cl = Claim { user: key(1), user_account: account, config: config() };
    assert_eq!(cl.claim(), Ok(5));
    assert_eq!(cl.claim(), Err(ErrorCode::NoRewardsToClaim));
    assert_eq!(cl.user_account.points, 0);
}

#[test]
fn claim_of_largest_point_count() {
    let account = UserAccount { points: u32::MAX, amount_staked: 0, bump: 0 };
    let mut cl = Claim { user: key(1), user_account: account, config: config() };
    assert_eq!(cl.claim(), Ok(4_294_967_295));
    assert_eq!(cl.user_account.points, 0);
}

#[test]
fn stake_of_already_staked_asset_is_rejected() {
    let user = key(1);
    let record = StakeAccount { owner: user, mint: key(2), staked_at: 5, bump: 0 };
    let account = UserAccount { points: 0, amount_staked: 1, bump: 0 };
    let mut s = Stake { user, user_account: account, config: config(), nft_mint: key(2), stake_account: Some(record) };
    assert_eq!(s.stake(10, 0), Err(ErrorCode::AlreadyStaked));
    assert_eq!(s.user_account.amount_staked, 1);
    assert_eq!(s.stake_account.unwrap().staked_at, 5);
}

#[test]
fn stake_with_zero_limit_is_rejected() {
    let cfg = StakeConfig::new(5, 0, 10, 0, 0);
    let mut s = Stake { user: key(1), user_account: UserAccount::new(0), config: cfg, nft_mint: key(2), stake_account: None };
    assert_eq!(s.stake(10, 0), Err(ErrorCode::LimitExceeded));
}

#[test]
fn stake_creates_record_for_user_and_asset() {
    let mut s = stake_ctx(key(7), UserAccount { points: 3, amount_staked: 0, bump: 1 }, key(8));
    assert_eq!(s.stake(-20, 6), Ok(()));
    let r = s.stake_account.unwrap();
    assert_eq!(r.owner.bytes, [7u8; 32]);
    assert_eq!(r.mint.bytes, [8u8; 32]);
    assert_eq!(r.staked_at, -20);
    assert_eq!(r.bump, 6);
    assert_eq!(s.user_account.points, 3);
}

#[test]
fn unstake_without_record_is_rejected() {
    let account = UserAccount { points: 0, amount_staked: 1, bump: 0 };
    let mut u = unstake_ctx(key(1), account, key(2), None);
    assert_eq!(u.unstake(1_000_000), Err(ErrorCode::NotStaked));
}

#[test]
fn unstake_of_other_users_record_is_rejected() {
    let record = StakeAccount { owner: key(9), mint: key(2), staked_at: 0, bump: 0 };
    let account = UserAccount { points: 0, amount_staked: 1, bump: 0 };
    let mut u = unstake_ctx(key(1), account, key(2), Some(record));
    assert_eq!(u.unstake(1_000_000), Err(ErrorCode::Unauthorized));
    let mut other_asset = unstake_ctx(key(9), account, key(3), Some(record));
    assert_eq!(other_asset.unstake(1_000_000), Err(ErrorCode::Unauthorized));
    assert!(other_asset.stake_account.is_some());
}

#[test]
fn unstake_with_empty_ledger_underflows() {
    let record = StakeAccount { owner: key(1), mint: key(2), staked_at: 0, bump: 0 };
    let account = UserAccount { points: 0, amount_staked: 0, bump: 0 };
    let mut u = unstake_ctx(key(1), account, key(2), Some(record));
    assert_eq!(u.unstake(1_000_000), Err(ErrorCode::Underflow));
}

#[test]
fn unstake_with_full_points_overflows() {
    let record = StakeAccount { owner: key(1), mint: key(2), staked_at: 0, bump: 0 };
    let account = UserAccount { points: u32::MAX - 4, amount_staked: 1, bump: 0 };
    let mut u = unstake_ctx(key(1), account, key(2), Some(record));
    assert_eq!(u.unstake(1_000_000), Err(ErrorCode::Overflow));
    assert_eq!(u.user_account.amount_staked, 1);
    assert_eq!(u.user_account.points, u32::MAX - 4);
}

#[test]
fn unstake_with_extreme_timestamps() {
    let record = StakeAccount { owner: key(1), mint: key(2), staked_at: i64::MAX, bump: 0 };
    let account = UserAccount { points: 0, amount_staked: 1, bump: 0 };
    let mut u = unstake_ctx(key(1), account, key(2), Some(record));
    assert_eq!(u.unstake(i64::MIN), Err(ErrorCode::TimeNotElapsed));
    let old = StakeAccount { owner: key(1), mint: key(2), staked_at: i64::MIN, bump: 0 };
    let mut v = unstake_ctx(key(1), account, key(2), Some(old));
    assert_eq!(v.unstake(i64::MAX), Ok(()));
}

#[test]
fn key_comparison_is_bytewise() {
    let a = key(1);
    let mut b = key(1);
    assert!(a.same_as(&b));
    b.bytes[31] = 2;
    assert!(!a.same_as(&b));
}
