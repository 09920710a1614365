//! The rules of the economy: what each operation answers, and what it makes of
//! the ledger.

use vstd::prelude::*;

use crate::invocation::Address;
use crate::ledger::{Event, LedgerView};
use crate::records::{
    Config, HarvestRecord, ResourceError, ResourceType, StakeRecord, BPS_DENOM, LEDGERS_PER_DAY,
    LEDGERS_PER_YEAR, RARITY_BONUS, STARDUST_PER_ANOMALY,
};

verus! {

/// `x` can be held in an amount.
pub open spec fn fits(x: int) -> bool {
    i128::MIN <= x <= i128::MAX
}

// -- Initialisation --------------------------------------------------------

/// The configuration that `init` sets up.
pub open spec fn initial_config(
    admin: Address,
    ship_contract: Address,
    nebula_contract: Address,
    apy_basis_points: u32,
    daily_harvest_cap: i128,
    min_stake_duration: u32,
) -> Config {
    Config {
        admin,
        ship_contract,
        nebula_contract,
        apy_basis_points,
        daily_harvest_cap,
        min_stake_duration,
        stardust_per_anomaly: STARDUST_PER_ANOMALY,
    }
}

/// What `init` answers: it succeeds the first time only.
pub open spec fn init_result(ledger: LedgerView) -> Result<(), ResourceError> {
    if ledger.config() is Some {
        Err(ResourceError::AlreadyInitialized)
    } else {
        Ok(())
    }
}

/// The ledger after `init` with configuration `config`.
pub open spec fn init_post(ledger: LedgerView, config: Config) -> LedgerView {
    if ledger.config() is Some {
        ledger
    } else {
        ledger.with_config(config)
    }
}

// -- Harvesting ------------------------------------------------------------

/// The record of a ship in the day window that `current` falls into: the
/// window starts anew once a day has passed since it last did.
pub open spec fn window_record(record: HarvestRecord, current: u32) -> HarvestRecord {
    if current - record.last_reset_ledger >= LEDGERS_PER_DAY {
        HarvestRecord { last_reset_ledger: current, harvested_today: 0 }
    } else {
        record
    }
}

/// The stardust that an anomaly is worth before the daily cap is applied.
pub open spec fn raw_award(config: Config, anomaly_index: u32) -> int {
    config.stardust_per_anomaly + anomaly_index * RARITY_BONUS
}

/// The stardust that a ship with record `record` gets for an anomaly: what the
/// anomaly is worth, or what is left of the daily cap if that is less.
pub open spec fn award(config: Config, record: HarvestRecord, anomaly_index: u32) -> int {
    let raw = raw_award(config, anomaly_index);
    let left = config.daily_harvest_cap - record.harvested_today;
    if raw <= left {
        raw
    } else {
        left
    }
}

/// The daily cap of the ship is used up.
pub open spec fn cap_reached(
    ledger: LedgerView,
    config: Config,
    current: u32,
    ship_id: u64,
) -> bool {
    window_record(ledger.harvest_record(ship_id), current).harvested_today
        >= config.daily_harvest_cap
}

/// No amount that a confirmed harvest computes leaves the range of amounts.
pub open spec fn harvest_in_range(
    ledger: LedgerView,
    config: Config,
    current: u32,
    caller: Address,
    ship_id: u64,
    anomaly_index: u32,
) -> bool {
    let record = window_record(ledger.harvest_record(ship_id), current);
    let amount = award(config, record, anomaly_index);
    !cap_reached(ledger, config, current, ship_id) ==> {
        &&& fits(raw_award(config, anomaly_index))
        &&& fits(config.daily_harvest_cap - record.harvested_today)
        &&& fits(ledger.balance(caller, ResourceType::Stardust) + amount)
        &&& fits(ledger.minted(ResourceType::Stardust) + amount)
        &&& fits(record.harvested_today + amount)
    }
}

/// What a confirmed harvest answers.
pub open spec fn mint_result(
    ledger: LedgerView,
    config: Config,
    current: u32,
    ship_id: u64,
    anomaly_index: u32,
) -> Result<i128, ResourceError> {
    if cap_reached(ledger, config, current, ship_id) {
        Err(ResourceError::DailyCapExceeded)
    } else {
        let record = window_record(ledger.harvest_record(ship_id), current);
        Ok(award(config, record, anomaly_index) as i128)
    }
}

/// The ledger after a confirmed harvest: the award is credited to the caller,
/// counted as minted and counted against the ship's daily cap, and announced.
pub open spec fn mint_post(
    ledger: LedgerView,
    config: Config,
    current: u32,
    caller: Address,
    ship_id: u64,
    anomaly_index: u32,
) -> LedgerView {
    if cap_reached(ledger, config, current, ship_id) {
        ledger
    } else {
        let record = window_record(ledger.harvest_record(ship_id), current);
        let amount = award(config, record, anomaly_index);
        ledger.with_balance(
            caller,
            ResourceType::Stardust,
            ledger.balance(caller, ResourceType::Stardust) + amount,
        ).with_minted(
            ResourceType::Stardust,
            ledger.minted(ResourceType::Stardust) + amount,
        ).with_harvest_record(
            ship_id,
            HarvestRecord {
                harvested_today: (record.harvested_today + amount) as i128,
                ..record
            },
        ).with_event(
            Event::ResourceHarvested { caller, ship_id, anomaly_index, amount: amount as i128 },
        )
    }
}

/// What `harvest_resource` answers, given the replies of the ship registry and
/// of the nebula explorer.
pub open spec fn harvest_result(
    ledger: LedgerView,
    current: u32,
    ship_id: u64,
    anomaly_index: u32,
    owns_ship: bool,
    has_anomaly: bool,
) -> Result<i128, ResourceError> {
    match ledger.config() {
        None => Err(ResourceError::NotInitialized),
        Some(config) => if !owns_ship {
            Err(ResourceError::ShipNotOwned)
        } else if !has_anomaly {
            Err(ResourceError::AnomalyNotScanned)
        } else {
            mint_result(ledger, config, current, ship_id, anomaly_index)
        },
    }
}

/// The ledger after `harvest_resource`, given the replies of the ship registry
/// and of the nebula explorer.
pub open spec fn harvest_post(
    ledger: LedgerView,
    current: u32,
    caller: Address,
    ship_id: u64,
    anomaly_index: u32,
    owns_ship: bool,
    has_anomaly: bool,
) -> LedgerView {
    match ledger.config() {
        Some(config) if owns_ship && has_anomaly => mint_post(
            ledger,
            config,
            current,
            caller,
            ship_id,
            anomaly_index,
        ),
        _ => ledger,
    }
}

// -- Staking ---------------------------------------------------------------

/// What `stake_for_yield` answers.
pub open spec fn stake_result(
    ledger: LedgerView,
    caller: Address,
    resource_type: ResourceType,
    resource_amount: i128,
    duration_ledgers: u32,
) -> Result<(), ResourceError> {
    match ledger.config() {
        None => Err(ResourceError::NotInitialized),
        Some(config) => if resource_amount <= 0 {
            Err(ResourceError::InvalidAmount)
        } else if duration_ledgers < config.min_stake_duration {
            Err(ResourceError::InvalidDuration)
        } else if ledger.stake(caller) is Some {
            Err(ResourceError::AlreadyStaked)
        } else if ledger.balance(caller, resource_type) < resource_amount {
            Err(ResourceError::InsufficientResources)
        } else {
            Ok(())
        },
    }
}

/// The ledger after `stake_for_yield`: the principal has moved from the
/// caller's liquid balance into a new position.
pub open spec fn stake_post(
    ledger: LedgerView,
    current: u32,
    caller: Address,
    resource_type: ResourceType,
    resource_amount: i128,
    duration_ledgers: u32,
) -> LedgerView {
    if stake_result(ledger, caller, resource_type, resource_amount, duration_ledgers) is Ok {
        ledger.with_balance(
            caller,
            resource_type,
            ledger.balance(caller, resource_type) - resource_amount,
        ).with_stake(
            caller,
            StakeRecord {
                owner: caller,
                resource_type,
                amount: resource_amount,
                start_ledger: current,
                duration_ledgers,
                last_claim_ledger: current,
            },
        )
    } else {
        ledger
    }
}

// -- Yield -----------------------------------------------------------------

/// The ledgers that have passed since yield was last claimed on a position.
pub open spec fn elapsed(stake: StakeRecord, current: u32) -> int {
    if current > stake.last_claim_ledger {
        current - stake.last_claim_ledger
    } else {
        0
    }
}

/// `n / d` with the fraction cut off.
pub open spec fn truncated_quotient(n: int, d: int) -> int {
    if n >= 0 {
        n / d
    } else {
        -((-n) / d)
    }
}

/// The yield accrued on a position since it was last claimed:
/// principal x APY x elapsed time in years, with the fraction cut off.
pub open spec fn accrued(stake: StakeRecord, current: u32, apy_bps: u32) -> int {
    truncated_quotient(
        stake.amount * apy_bps * elapsed(stake, current),
        BPS_DENOM * LEDGERS_PER_YEAR,
    )
}

/// No product that the yield formula computes leaves the range of amounts.
pub open spec fn yield_in_range(stake: StakeRecord, current: u32, apy_bps: u32) -> bool {
    elapsed(stake, current) > 0 ==> {
        &&& fits(stake.amount * apy_bps)
        &&& fits(stake.amount * apy_bps * elapsed(stake, current))
    }
}

/// What `claim_yield` and `get_pending_yield` answer.
pub open spec fn pending_result(
    ledger: LedgerView,
    current: u32,
    owner: Address,
) -> Result<i128, ResourceError> {
    match (ledger.config(), ledger.stake(owner)) {
        (None, _) => Err(ResourceError::NotInitialized),
        (_, None) => Err(ResourceError::StakeNotFound),
        (Some(config), Some(stake)) => Ok(
            accrued(stake, current, config.apy_basis_points) as i128,
        ),
    }
}

/// No product behind the pending yield of `owner` leaves the range of amounts.
pub open spec fn pending_in_range(ledger: LedgerView, current: u32, owner: Address) -> bool {
    match (ledger.config(), ledger.stake(owner)) {
        (Some(config), Some(stake)) => yield_in_range(stake, current, config.apy_basis_points),
        _ => true,
    }
}

/// The ledger after `amount` of yield on a position of `caller` is paid out in
/// plasma and announced. Nothing is paid or announced where there is no yield.
pub open spec fn pay_yield(
    ledger: LedgerView,
    current: u32,
    caller: Address,
    stake: StakeRecord,
    amount: int,
) -> LedgerView {
    if amount > 0 {
        ledger.with_balance(
            caller,
            ResourceType::Plasma,
            ledger.balance(caller, ResourceType::Plasma) + amount,
        ).with_event(
            Event::YieldClaimed {
                caller,
                staked_amount: stake.amount,
                yield_amount: amount as i128,
                ledger: current,
            },
        )
    } else {
        ledger
    }
}

/// No amount that `claim_yield` computes leaves the range of amounts.
pub open spec fn claim_in_range(ledger: LedgerView, current: u32, caller: Address) -> bool {
    match (ledger.config(), ledger.stake(caller)) {
        (Some(config), Some(stake)) => {
            let amount = accrued(stake, current, config.apy_basis_points);
            &&& yield_in_range(stake, current, config.apy_basis_points)
            &&& amount > 0 ==> fits(ledger.balance(caller, ResourceType::Plasma) + amount)
        },
        _ => true,
    }
}

/// The ledger after `claim_yield`: accrued yield is paid out, and the accrual
/// starts anew. A position that has not accrued a whole unit yet is left
/// as it is, so that it goes on accruing.
pub open spec fn claim_post(ledger: LedgerView, current: u32, caller: Address) -> LedgerView {
    match (ledger.config(), ledger.stake(caller)) {
        (Some(config), Some(stake)) => {
            let amount = accrued(stake, current, config.apy_basis_points);
            if amount > 0 {
                pay_yield(ledger, current, caller, stake, amount).with_stake(
                    caller,
                    StakeRecord { last_claim_ledger: current, ..stake },
                )
            } else {
                ledger
            }
        },
        _ => ledger,
    }
}

/// The time lock on a position has expired.
pub open spec fn unlocked(stake: StakeRecord, config: Config, current: u32) -> bool {
    current >= stake.start_ledger + config.min_stake_duration
}

/// What `unstake` answers.
pub open spec fn unstake_result(
    ledger: LedgerView,
    current: u32,
    caller: Address,
) -> Result<i128, ResourceError> {
    match (ledger.config(), ledger.stake(caller)) {
        (None, _) => Err(ResourceError::NotInitialized),
        (_, None) => Err(ResourceError::StakeNotFound),
        (Some(config), Some(stake)) => if unlocked(stake, config, current) {
            Ok(stake.amount)
        } else {
            Err(ResourceError::TimeLockActive)
        },
    }
}

/// No amount that `unstake` computes leaves the range of amounts.
pub open spec fn unstake_in_range(ledger: LedgerView, current: u32, caller: Address) -> bool {
    match (ledger.config(), ledger.stake(caller)) {
        (Some(config), Some(stake)) if unlocked(stake, config, current) => {
            let amount = accrued(stake, current, config.apy_basis_points);
            let paid = pay_yield(ledger, current, caller, stake, amount);
            &&& claim_in_range(ledger, current, caller)
            &&& fits(paid.balance(caller, stake.resource_type) + stake.amount)
        },
        _ => true,
    }
}

/// The ledger after `unstake`: accrued yield is paid out, the principal is back
/// in the caller's liquid balance, and the position is gone.
pub open spec fn unstake_post(ledger: LedgerView, current: u32, caller: Address) -> LedgerView {
    match (ledger.config(), ledger.stake(caller)) {
        (Some(config), Some(stake)) if unlocked(stake, config, current) => {
            let amount = accrued(stake, current, config.apy_basis_points);
            let paid = pay_yield(ledger, current, caller, stake, amount);
            paid.with_balance(
                caller,
                stake.resource_type,
                paid.balance(caller, stake.resource_type) + stake.amount,
            ).without_stake(caller)
        },
        _ => ledger,
    }
}

// -- Administration --------------------------------------------------------

/// What the admin's updates answer.
pub open spec fn update_result(ledger: LedgerView) -> Result<(), ResourceError> {
    if ledger.config() is Some {
        Ok(())
    } else {
        Err(ResourceError::NotInitialized)
    }
}

/// The ledger after `update_daily_cap`.
pub open spec fn update_daily_cap_post(ledger: LedgerView, new_cap: i128) -> LedgerView {
    match ledger.config() {
        Some(config) => ledger.with_config(Config { daily_harvest_cap: new_cap, ..config }),
        None => ledger,
    }
}

/// The ledger after `update_apy`.
pub open spec fn update_apy_post(ledger: LedgerView, new_apy_bps: u32) -> LedgerView {
    match ledger.config() {
        Some(config) => ledger.with_config(Config { apy_basis_points: new_apy_bps, ..config }),
        None => ledger,
    }
}

} // verus!
