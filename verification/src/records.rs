//! What the resource economy keeps on the ledger, and under which keys.

use vstd::prelude::*;

use crate::invocation::Address;

verus! {

/// Approximate ledger count per 24-hour day (5 s per ledger).
pub const LEDGERS_PER_DAY: u32 = 17_280;

/// Basis-points denominator (10 000 bps = 100 %).
pub const BPS_DENOM: i128 = 10_000;

/// Ledgers per calendar year (365 days).
pub const LEDGERS_PER_YEAR: i128 = 17_280_i128 * 365;

/// Stardust awarded per anomaly harvest before the rarity bonus.
pub const STARDUST_PER_ANOMALY: i128 = 100;

/// Stardust added to the award for each step of the anomaly index.
pub const RARITY_BONUS: i128 = 10;

/// All in-game resource types supported by the economy layer.
#[derive(Clone, Copy, Debug, PartialEq, Eq, Structural)]
pub enum ResourceType {
    Stardust,
    Plasma,
    Crystals,
}

impl ResourceType {
    /// The number that stands for the resource type in storage keys.
    pub open spec fn spec_code(self) -> u32 {
        match self {
            ResourceType::Stardust => 0,
            ResourceType::Plasma => 1,
            ResourceType::Crystals => 2,
        }
    }

    /// The number that stands for the resource type in storage keys.
    pub fn code(self) -> (code: u32)
        ensures
            code == self.spec_code(),
    {
        match self {
            ResourceType::Stardust => 0,
            ResourceType::Plasma => 1,
            ResourceType::Crystals => 2,
        }
    }
}

/// The keys under which the ledger holds its entries.
#[derive(Clone, Copy, Debug, PartialEq, Eq, Structural)]
pub enum DataKey {
    /// Global contract configuration.
    Config,
    /// Per-ship daily harvest tracking, keyed by ship id.
    HarvestRecord(u64),
    /// Per-address staking position.
    StakeRecord(Address),
    /// Liquid resource balance of an owner.
    Balance(Address, ResourceType),
    /// Cumulative supply minted by harvesting, per resource type.
    TotalMinted(ResourceType),
}

/// Global configuration. The daily cap and the APY can be updated by the
/// admin; the rest never changes once it is set.
#[derive(Clone, Copy, Debug, PartialEq, Eq, Structural)]
pub struct Config {
    pub admin: Address,
    /// Address of the ship registry contract.
    pub ship_contract: Address,
    /// Address of the nebula explorer contract.
    pub nebula_contract: Address,
    /// Annual percentage yield in basis points (500 = 5 % APY).
    pub apy_basis_points: u32,
    /// Maximum stardust harvestable by a single ship per day window.
    pub daily_harvest_cap: i128,
    /// Minimum ledgers that a stake is held before it can be unstaked.
    pub min_stake_duration: u32,
    /// Base stardust awarded per anomaly harvest before the rarity bonus.
    pub stardust_per_anomaly: i128,
}

/// Tracks how much a ship has harvested in the current day window.
#[derive(Clone, Copy, Debug, PartialEq, Eq, Structural)]
pub struct HarvestRecord {
    /// Ledger sequence at which the daily window last reset.
    pub last_reset_ledger: u32,
    /// Stardust harvested since the last reset.
    pub harvested_today: i128,
}

/// An active staking position. An address has at most one.
#[derive(Clone, Copy, Debug, PartialEq, Eq, Structural)]
pub struct StakeRecord {
    pub owner: Address,
    pub resource_type: ResourceType,
    /// Principal locked in this position.
    pub amount: i128,
    /// Ledger when the stake was opened.
    pub start_ledger: u32,
    /// Requested lock duration in ledgers.
    pub duration_ledgers: u32,
    /// Ledger of the last yield claim.
    pub last_claim_ledger: u32,
}

/// Contract errors. Each variant maps to a numeric code that is surfaced in
/// transaction results.
#[derive(Clone, Copy, Debug, PartialEq, Eq, PartialOrd, Ord, Structural)]
pub enum ResourceError {
    /// The contract has not been initialised yet.
    NotInitialized,
    /// `init` was called more than once.
    AlreadyInitialized,
    /// The caller is not authorised for the requested operation.
    Unauthorized,
    /// The caller's liquid balance is too low.
    InsufficientResources,
    /// The ship's daily harvest cap has been reached.
    DailyCapExceeded,
    /// No active stake was found for the given address.
    StakeNotFound,
    /// The stake's time lock has not expired yet.
    TimeLockActive,
    /// The requested duration is below the minimum stake duration.
    InvalidDuration,
    /// The caller does not own the specified ship.
    ShipNotOwned,
    /// The anomaly has not been scanned in the nebula contract.
    AnomalyNotScanned,
    /// An amount must be positive.
    InvalidAmount,
    /// The address already has an open staking position.
    AlreadyStaked,
}

impl ResourceError {
    /// The numeric code of the error.
    pub open spec fn spec_code(self) -> u32 {
        match self {
            ResourceError::NotInitialized => 1,
            ResourceError::AlreadyInitialized => 2,
            ResourceError::Unauthorized => 3,
            ResourceError::InsufficientResources => 4,
            ResourceError::DailyCapExceeded => 5,
            ResourceError::StakeNotFound => 6,
            ResourceError::TimeLockActive => 7,
            ResourceError::InvalidDuration => 8,
            ResourceError::ShipNotOwned => 9,
            ResourceError::AnomalyNotScanned => 10,
            ResourceError::InvalidAmount => 11,
            ResourceError::AlreadyStaked => 12,
        }
    }

    /// The numeric code of the error.
    pub fn code(self) -> (code: u32)
        ensures
            code == self.spec_code(),
    {
        match self {
            ResourceError::NotInitialized => 1,
            ResourceError::AlreadyInitialized => 2,
            ResourceError::Unauthorized => 3,
            ResourceError::InsufficientResources => 4,
            ResourceError::DailyCapExceeded => 5,
            ResourceError::StakeNotFound => 6,
            ResourceError::TimeLockActive => 7,
            ResourceError::InvalidDuration => 8,
            ResourceError::ShipNotOwned => 9,
            ResourceError::AnomalyNotScanned => 10,
            ResourceError::InvalidAmount => 11,
            ResourceError::AlreadyStaked => 12,
        }
    }
}

} // verus!
