pub mod claim_rewards;
pub mod init_user_pool;
pub mod reinitialize;
pub mod stake;
pub mod stake_thog;
pub mod unlock;
pub mod withdraw;
pub mod withdraw_sol;
pub mod withdraw_spl;
pub mod withdraw_thog;
