use vstd::prelude::*;

pub mod error;
pub mod laws;
pub mod state;
pub mod claim;
pub mod stake;
pub mod unstake;

pub use error::ErrorCode;
pub use claim::Claim;
pub use stake::Stake;
pub use unstake::Unstake;
pub use state::{Pubkey, StakeAccount, StakeConfig, UserAccount};

verus! {

} // verus!
