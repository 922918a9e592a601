use vstd::prelude::*;

verus! {

/// A 32-byte account identity (a user, an asset mint or a program-owned
/// account).
#[derive(Clone, Copy, Debug)]
pub struct Pubkey {
    pub bytes: [u8; 32],
}

impl View for Pubkey {
    type V = Seq<u8>;

    open spec fn view(&self) -> Seq<u8> {
        self.bytes@
    }
}

impl Pubkey {
    /// Byte-wise comparison of two identities.
    pub fn same_as(&self, other: &Pubkey) -> (r: bool)
        ensures
            r == (self@ == other@),
    {
        let mut i: usize = 0;
        while i < 32
            invariant
                0 <= i <= 32,
                self@.len() == 32,
                other@.len() == 32,
                forall|j: int| 0 <= j < i ==> self@[j] == other@[j],
            decreases 32 - i,
        {
            if self.bytes[i] != other.bytes[i] {
                return false;
            }
            i += 1;
        }
        assert(self@ =~= other@);
        true
    }
}

/// Program-wide parameters, fixed once the configuration is initialised.
#[derive(Clone, Copy, Debug)]
pub struct StakeConfig {
    /// Reward points credited for each completed stake (on unstake).
    pub points_per_stake: u8,
    /// Largest number of assets one user may have staked at a time.
    pub max_stake: u8,
    /// Minimum number of seconds an asset stays staked.
    pub freeze_period: u32,
    /// Address-derivation bump of the reward mint.
    pub rewards_bump: u8,
    /// Address-derivation bump of the configuration account itself.
    pub bump: u8,
}

impl StakeConfig {
    pub fn new(points_per_stake: u8, max_stake: u8, freeze_period: u32, rewards_bump: u8, bump: u8) -> (r: StakeConfig)
        ensures
            r.points_per_stake == points_per_stake,
            r.max_stake == max_stake,
            r.freeze_period == freeze_period,
            r.rewards_bump == rewards_bump,
            r.bump == bump,
    {
        StakeConfig { points_per_stake, max_stake, freeze_period, rewards_bump, bump }
    }
}

/// One user's ledger: accrued points and the number of assets in escrow.
#[derive(Clone, Copy, Debug)]
pub struct UserAccount {
    /// Points accrued and not yet claimed.
    pub points: u32,
    /// Number of assets currently staked by this user.
    pub amount_staked: u8,
    /// Address-derivation bump of this account.
    pub bump: u8,
}

impl UserAccount {
    /// A fresh ledger, as created on a user's first stake.
    pub fn new(bump: u8) -> (r: UserAccount)
        ensures
            r.points == 0,
            r.amount_staked == 0,
            r.bump == bump,
    {
        UserAccount { points: 0, amount_staked: 0, bump }
    }

    /// The ledger invariant: never more assets staked than the configuration allows.
    pub open spec fn wf(self, config: StakeConfig) -> bool {
        self.amount_staked <= config.max_stake
    }
}

/// The record of one staked asset; it exists exactly while the asset is in escrow.
#[derive(Clone, Copy, Debug)]
pub struct StakeAccount {
    /// The user who staked the asset.
    pub owner: Pubkey,
    /// The staked asset.
    pub mint: Pubkey,
    /// Unix time, in seconds, at which the asset was staked.
    pub staked_at: i64,
    /// Address-derivation bump of this record.
    pub bump: u8,
}

} // verus!
