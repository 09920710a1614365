//! What holds of the economy as a whole: of every operation, and of every
//! history of operations.

pub mod behaviour;
pub mod conservation;
pub mod harvesting;
pub mod operation;
pub mod staking;
pub mod state;
pub mod storage;
