//! Pool accounting for a token airdrop and a time-locked staking escrow,
//! with every state transition stated and proved.

pub mod airdrop;
pub mod key;
pub mod staking;
