//! Staking pools for NFTs and THOG tokens: the account model, the reward
//! arithmetic and the decision logic of every instruction, each with a
//! contract proved by Verus.

pub mod account;
pub mod constants;
pub mod error;
pub mod instructions;
pub mod laws;
pub mod utils;
