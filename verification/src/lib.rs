//! Resource economy of the Nebula Nomad game: harvesting, staking and yield,
//! together with the order of work of a nebula scan.

pub mod invocation;
pub mod laws;
pub mod ledger;
pub mod nebula_scan;
pub mod records;
pub mod resource_minter;
pub mod rules;
pub mod supply;
pub mod table;
