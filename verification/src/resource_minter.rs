//! Harvesting, staking and yield.

use vstd::prelude::*;

use crate::invocation::{Address, Invocation};
use crate::laws::behaviour;
use crate::ledger::{Event, Ledger, Write};
pub use crate::records::{
    Config, DataKey, HarvestRecord, ResourceError, ResourceType, StakeRecord, BPS_DENOM,
    LEDGERS_PER_DAY, LEDGERS_PER_YEAR, RARITY_BONUS, STARDUST_PER_ANOMALY,
};
use crate::rules;

verus! {

/// The question that a harvest is waiting for an answer to.
#[derive(Clone, Copy, Debug, PartialEq, Eq, Structural)]
pub enum HarvestStage {
    /// Does the caller own the ship?
    Ownership,
    /// Has the ship scanned the anomaly?
    Anomaly,
}

/// A harvest that waits for the reply of another contract.
#[derive(Clone, Copy, Debug, PartialEq, Eq, Structural)]
pub struct PendingHarvest {
    pub stage: HarvestStage,
    pub config: Config,
    pub caller: Address,
    pub ship_id: u64,
    pub anomaly_index: u32,
}

/// How far a harvest has come.
#[derive(Clone, Copy, Debug, PartialEq, Eq)]
pub enum HarvestStep {
    Waiting(PendingHarvest),
    Finished(Result<i128, ResourceError>),
}

/// An argument of a query to another contract.
#[derive(Clone, Copy, Debug, PartialEq, Eq, Structural)]
pub enum QueryArgument {
    Address(Address),
    U64(u64),
    U32(u32),
}

/// A query to another contract, which it answers with yes or no.
#[derive(Debug)]
pub struct ContractQuery {
    pub contract: Address,
    pub function: &'static str,
    pub arguments: Vec<QueryArgument>,
}

impl PendingHarvest {
    /// The query whose reply the harvest waits for: `owns_ship(caller, ship_id)`
    /// of the ship registry, then `has_anomaly(ship_id, anomaly_index)` of the
    /// nebula explorer.
    pub fn query(&self) -> (query: ContractQuery)
        ensures
            match self.stage {
                HarvestStage::Ownership => {
                    &&& query.contract == self.config.ship_contract
                    &&& query.function@ == "owns_ship"@
                    &&& query.arguments@ == seq![
                        QueryArgument::Address(self.caller),
                        QueryArgument::U64(self.ship_id),
                    ]
                },
                HarvestStage::Anomaly => {
                    &&& query.contract == self.config.nebula_contract
                    &&& query.function@ == "has_anomaly"@
                    &&& query.arguments@ == seq![
                        QueryArgument::U64(self.ship_id),
                        QueryArgument::U32(self.anomaly_index),
                    ]
                },
            },
    {
        let mut arguments: Vec<QueryArgument> = Vec::new();
        match self.stage {
            HarvestStage::Ownership => {
                arguments.push(QueryArgument::Address(self.caller));
                arguments.push(QueryArgument::U64(self.ship_id));
                ContractQuery {
                    contract: self.config.ship_contract,
                    function: "owns_ship",
                    arguments,
                }
            },
            HarvestStage::Anomaly => {
                arguments.push(QueryArgument::U64(self.ship_id));
                arguments.push(QueryArgument::U32(self.anomaly_index));
                ContractQuery {
                    contract: self.config.nebula_contract,
                    function: "has_anomaly",
                    arguments,
                }
            },
        }
    }
}

/// The resource minter contract.
pub struct ResourceMinter;

impl ResourceMinter {
    // -- Initialisation ------------------------------------------------------

    /// Initialises the resource minter. It succeeds exactly once, and the admin
    /// must have authorised that call.
    pub fn init(
        ledger: &mut Ledger,
        call: &Invocation,
        admin: Address,
        ship_contract: Address,
        nebula_contract: Address,
        apy_basis_points: u32,
        daily_harvest_cap: i128,
        min_stake_duration: u32,
    ) -> (result: Result<(), ResourceError>)
        requires
            old(ledger)@.config() is None ==> call.authorized_by(admin),
        ensures
            result == rules::init_result(old(ledger)@),
            final(ledger)@ == rules::init_post(
                old(ledger)@,
                rules::initial_config(
                    admin,
                    ship_contract,
                    nebula_contract,
                    apy_basis_points,
                    daily_harvest_cap,
                    min_stake_duration,
                ),
            ),
    {
        if ledger.instance.has(DataKey::Config) {
            return Err(ResourceError::AlreadyInitialized);
        }
        let config = Config {
            admin,
            ship_contract,
            nebula_contract,
            apy_basis_points,
            daily_harvest_cap,
            min_stake_duration,
            stardust_per_anomaly: STARDUST_PER_ANOMALY,
        };
        ledger.write(Write::SetConfig(DataKey::Config, config));
        Ok(())
    }

    // -- Harvesting ----------------------------------------------------------

    /// Starts a harvest. Unless the contract is not initialised, the harvest
    /// then waits to hear from the ship registry.
    pub fn begin_harvest(
        ledger: &Ledger,
        call: &Invocation,
        caller: Address,
        ship_id: u64,
        anomaly_index: u32,
    ) -> (step: HarvestStep)
        requires
            call.authorized_by(caller),
        ensures
            step == (match ledger@.config() {
                None => HarvestStep::Finished(Err(ResourceError::NotInitialized)),
                Some(config) => HarvestStep::Waiting(
                    PendingHarvest {
                        stage: HarvestStage::Ownership,
                        config,
                        caller,
                        ship_id,
                        anomaly_index,
                    },
                ),
            }),
    {
        match Self::require_config(ledger) {
            Err(error) => HarvestStep::Finished(Err(error)),
            Ok(config) => HarvestStep::Waiting(
                PendingHarvest {
                    stage: HarvestStage::Ownership,
                    config,
                    caller,
                    ship_id,
                    anomaly_index,
                },
            ),
        }
    }

    /// Continues a harvest with the reply to its query. A refusal ends it; once
    /// both contracts have confirmed, the stardust is minted.
    pub fn resume_harvest(
        ledger: &mut Ledger,
        call: &Invocation,
        pending: PendingHarvest,
        reply: bool,
    ) -> (step: HarvestStep)
        requires
            call.authorized_by(pending.caller),
            pending.stage is Anomaly && reply ==> rules::harvest_in_range(
                old(ledger)@,
                pending.config,
                call.ledger(),
                pending.caller,
                pending.ship_id,
                pending.anomaly_index,
            ),
        ensures
            step == (match (pending.stage, reply) {
                (HarvestStage::Ownership, false) => HarvestStep::Finished(
                    Err(ResourceError::ShipNotOwned),
                ),
                (HarvestStage::Ownership, true) => HarvestStep::Waiting(
                    PendingHarvest { stage: HarvestStage::Anomaly, ..pending },
                ),
                (HarvestStage::Anomaly, false) => HarvestStep::Finished(
                    Err(ResourceError::AnomalyNotScanned),
                ),
                (HarvestStage::Anomaly, true) => HarvestStep::Finished(
                    rules::mint_result(
                        old(ledger)@,
                        pending.config,
                        call.ledger(),
                        pending.ship_id,
                        pending.anomaly_index,
                    ),
                ),
            }),
            final(ledger)@ == (if pending.stage is Anomaly && reply {
                rules::mint_post(
                    old(ledger)@,
                    pending.config,
                    call.ledger(),
                    pending.caller,
                    pending.ship_id,
                    pending.anomaly_index,
                )
            } else {
                old(ledger)@
            }),
    {
        match pending.stage {
            HarvestStage::Ownership => {
                if !reply {
                    return HarvestStep::Finished(Err(ResourceError::ShipNotOwned));
                }
                HarvestStep::Waiting(PendingHarvest { stage: HarvestStage::Anomaly, ..pending })
            },
            HarvestStage::Anomaly => {
                if !reply {
                    return HarvestStep::Finished(Err(ResourceError::AnomalyNotScanned));
                }
                HarvestStep::Finished(
                    Self::mint_stardust(
                        ledger,
                        call,
                        pending.config,
                        pending.caller,
                        pending.ship_id,
                        pending.anomaly_index,
                    ),
                )
            },
        }
    }

    /// Whether no amount that a confirmed harvest computes leaves the range of
    /// amounts.
    pub fn harvest_fits(ledger: &Ledger, call: &Invocation, pending: &PendingHarvest) -> (yes: bool)
        ensures
            yes == rules::harvest_in_range(
                ledger@,
                pending.config,
                call.ledger(),
                pending.caller,
                pending.ship_id,
                pending.anomaly_index,
            ),
    {
        let cap: i128 = pending.config.daily_harvest_cap;
        let record = Self::current_record(ledger, call, pending.ship_id);
        if record.harvested_today >= cap {
            return true;
        }
        let bonus: i128 = pending.anomaly_index as i128 * RARITY_BONUS;
        let raw: i128 = match pending.config.stardust_per_anomaly.checked_add(bonus) {
            Some(raw) => raw,
            None => return false,
        };
        let left: i128 = match cap.checked_sub(record.harvested_today) {
            Some(left) => left,
            None => return false,
        };
        let amount: i128 = if raw <= left {
            raw
        } else {
            left
        };
        let balance: i128 = Self::get_balance(ledger, pending.caller, ResourceType::Stardust);
        let total: i128 = ledger.amount(DataKey::TotalMinted(ResourceType::Stardust));
        balance.checked_add(amount).is_some() && total.checked_add(amount).is_some()
            && record.harvested_today.checked_add(amount).is_some()
    }

    /// The harvest record of a ship in the day window of the call.
    fn current_record(ledger: &Ledger, call: &Invocation, ship_id: u64) -> (record: HarvestRecord)
        ensures
            record == rules::window_record(ledger@.harvest_record(ship_id), call.ledger()),
            call.ledger() >= ledger@.harvest_record(ship_id).last_reset_ledger + 17_280 ==> {
                &&& record.last_reset_ledger == call.ledger()
                &&& record.harvested_today == 0
            },
            call.ledger() < ledger@.harvest_record(ship_id).last_reset_ledger + 17_280 ==> record
                == ledger@.harvest_record(ship_id),
    {
        let current: u32 = call.sequence();
        let record = ledger.harvest_record(ship_id);
        if current.saturating_sub(record.last_reset_ledger) >= LEDGERS_PER_DAY {
            HarvestRecord { last_reset_ledger: current, harvested_today: 0 }
        } else {
            record
        }
    }

    /// Enforces the ship's daily cap and mints stardust with the rarity bonus.
    fn mint_stardust(
        ledger: &mut Ledger,
        call: &Invocation,
        config: Config,
        caller: Address,
        ship_id: u64,
        anomaly_index: u32,
    ) -> (result: Result<i128, ResourceError>)
        requires
            rules::harvest_in_range(
                old(ledger)@,
                config,
                call.ledger(),
                caller,
                ship_id,
                anomaly_index,
            ),
        ensures
            result == rules::mint_result(
                old(ledger)@,
                config,
                call.ledger(),
                ship_id,
                anomaly_index,
            ),
            final(ledger)@ == rules::mint_post(
                old(ledger)@,
                config,
                call.ledger(),
                caller,
                ship_id,
                anomaly_index,
            ),
    {
        let mut record = Self::current_record(ledger, call, ship_id);
        if record.harvested_today >= config.daily_harvest_cap {
            return Err(ResourceError::DailyCapExceeded);
        }
        let raw: i128 = config.stardust_per_anomaly + anomaly_index as i128 * RARITY_BONUS;
        let left: i128 = config.daily_harvest_cap - record.harvested_today;
        let amount: i128 = if raw <= left {
            raw
        } else {
            left
        };

        let balance_key = DataKey::Balance(caller, ResourceType::Stardust);
        let balance: i128 = ledger.amount(balance_key);
        ledger.write(Write::SetAmount(balance_key, balance + amount));

        let total_key = DataKey::TotalMinted(ResourceType::Stardust);
        let total: i128 = ledger.amount(total_key);
        ledger.write(Write::SetAmount(total_key, total + amount));

        record.harvested_today = record.harvested_today + amount;
        ledger.write(Write::SetHarvestRecord(DataKey::HarvestRecord(ship_id), record));

        ledger.publish(Event::ResourceHarvested { caller, ship_id, anomaly_index, amount });
        Ok(amount)
    }

    /// Harvests stardust from a previously scanned anomaly.
    ///
    /// `owns_ship` is the ship registry's reply on whether the caller owns the
    /// ship, and `has_anomaly` the nebula explorer's on whether the ship has
    /// scanned the anomaly. The answer is the stardust minted, which is less
    /// than the anomaly is worth near the daily cap.
    pub fn harvest_resource(
        ledger: &mut Ledger,
        call: &Invocation,
        caller: Address,
        ship_id: u64,
        anomaly_index: u32,
        owns_ship: bool,
        has_anomaly: bool,
    ) -> (result: Result<i128, ResourceError>)
        requires
            call.authorized_by(caller),
            old(ledger)@.config() is Some && owns_ship && has_anomaly ==> rules::harvest_in_range(
                old(ledger)@,
                old(ledger)@.config()->0,
                call.ledger(),
                caller,
                ship_id,
                anomaly_index,
            ),
        ensures
            result == rules::harvest_result(
                old(ledger)@,
                call.ledger(),
                ship_id,
                anomaly_index,
                owns_ship,
                has_anomaly,
            ),
            final(ledger)@ == rules::harvest_post(
                old(ledger)@,
                call.ledger(),
                caller,
                ship_id,
                anomaly_index,
                owns_ship,
                has_anomaly,
            ),
    {
        match Self::begin_harvest(ledger, call, caller, ship_id, anomaly_index) {
            HarvestStep::Finished(result) => result,
            HarvestStep::Waiting(first) => {
                match Self::resume_harvest(ledger, call, first, owns_ship) {
                    HarvestStep::Finished(result) => result,
                    HarvestStep::Waiting(second) => {
                        match Self::resume_harvest(ledger, call, second, has_anomaly) {
                            HarvestStep::Finished(result) => result,
                            // Both replies are in: there is nothing left to wait for.
                            HarvestStep::Waiting(_) => Err(ResourceError::AnomalyNotScanned),
                        }
                    },
                }
            },
        }
    }

    // -- Staking -------------------------------------------------------------

    /// Locks `resource_amount` of a resource to earn plasma yield.
    ///
    /// The duration must not be below the configured minimum, and an address
    /// has one position at most.
    pub fn stake_for_yield(
        ledger: &mut Ledger,
        call: &Invocation,
        caller: Address,
        resource_type: ResourceType,
        resource_amount: i128,
        duration_ledgers: u32,
    ) -> (result: Result<(), ResourceError>)
        requires
            call.authorized_by(caller),
        ensures
            result == rules::stake_result(
                old(ledger)@,
                caller,
                resource_type,
                resource_amount,
                duration_ledgers,
            ),
            final(ledger)@ == rules::stake_post(
                old(ledger)@,
                call.ledger(),
                caller,
                resource_type,
                resource_amount,
                duration_ledgers,
            ),
    {
        let config = match Self::require_config(ledger) {
            Ok(config) => config,
            Err(error) => return Err(error),
        };
        if resource_amount <= 0 {
            return Err(ResourceError::InvalidAmount);
        }
        if duration_ledgers < config.min_stake_duration {
            return Err(ResourceError::InvalidDuration);
        }
        if ledger.stakes.has(DataKey::StakeRecord(caller)) {
            return Err(ResourceError::AlreadyStaked);
        }
        let balance_key = DataKey::Balance(caller, resource_type);
        let balance: i128 = ledger.amount(balance_key);
        if balance < resource_amount {
            return Err(ResourceError::InsufficientResources);
        }
        ledger.write(Write::SetAmount(balance_key, balance - resource_amount));
        let current: u32 = call.sequence();
        let stake = StakeRecord {
            owner: caller,
            resource_type,
            amount: resource_amount,
            start_ledger: current,
            duration_ledgers,
            last_claim_ledger: current,
        };
        ledger.write(Write::SetStake(DataKey::StakeRecord(caller), stake));
        Ok(())
    }

    /// Claims accrued plasma yield without unstaking. Less than a whole unit of
    /// yield is not paid but goes on accruing.
    pub fn claim_yield(ledger: &mut Ledger, call: &Invocation, caller: Address) -> (result: Result<
        i128,
        ResourceError,
    >)
        requires
            call.authorized_by(caller),
            rules::claim_in_range(old(ledger)@, call.ledger(), caller),
        ensures
            result == rules::pending_result(old(ledger)@, call.ledger(), caller),
            final(ledger)@ == rules::claim_post(old(ledger)@, call.ledger(), caller),
    {
        let config = match Self::require_config(ledger) {
            Ok(config) => config,
            Err(error) => return Err(error),
        };
        let stake = match Self::get_stake(ledger, caller) {
            Some(stake) => stake,
            None => return Err(ResourceError::StakeNotFound),
        };
        let current: u32 = call.sequence();
        let amount: i128 = Self::calculate_yield(&stake, current, config.apy_basis_points);
        if amount > 0 {
            Self::pay_yield(ledger, current, caller, &stake, amount);
            ledger.write(
                Write::SetStake(
                    DataKey::StakeRecord(caller),
                    StakeRecord { last_claim_ledger: current, ..stake },
                ),
            );
        }
        Ok(amount)
    }

    /// Credits yield to the caller's plasma balance and announces it.
    fn pay_yield(
        ledger: &mut Ledger,
        current: u32,
        caller: Address,
        stake: &StakeRecord,
        amount: i128,
    )
        requires
            amount > 0,
            rules::fits(old(ledger)@.balance(caller, ResourceType::Plasma) + amount),
        ensures
            final(ledger)@ == rules::pay_yield(
                old(ledger)@,
                current,
                caller,
                *stake,
                amount as int,
            ),
    {
        let essence_key = DataKey::Balance(caller, ResourceType::Plasma);
        let balance: i128 = ledger.amount(essence_key);
        ledger.write(Write::SetAmount(essence_key, balance + amount));
        ledger.publish(
            Event::YieldClaimed {
                caller,
                staked_amount: stake.amount,
                yield_amount: amount,
                ledger: current,
            },
        );
    }

    /// Returns the principal once the time lock has expired, and pays residual
    /// yield first, so that the caller never loses accrued plasma.
    pub fn unstake(ledger: &mut Ledger, call: &Invocation, caller: Address) -> (result: Result<
        i128,
        ResourceError,
    >)
        requires
            call.authorized_by(caller),
            rules::unstake_in_range(old(ledger)@, call.ledger(), caller),
        ensures
            result == rules::unstake_result(old(ledger)@, call.ledger(), caller),
            final(ledger)@ == rules::unstake_post(old(ledger)@, call.ledger(), caller),
    {
        let config = match Self::require_config(ledger) {
            Ok(config) => config,
            Err(error) => return Err(error),
        };
        let stake = match Self::get_stake(ledger, caller) {
            Some(stake) => stake,
            None => return Err(ResourceError::StakeNotFound),
        };
        let current: u32 = call.sequence();
        if !Self::is_unlocked(&stake, &config, current) {
            return Err(ResourceError::TimeLockActive);
        }
        let amount: i128 = Self::calculate_yield(&stake, current, config.apy_basis_points);
        if amount > 0 {
            Self::pay_yield(ledger, current, caller, &stake, amount);
        }
        let balance_key = DataKey::Balance(caller, stake.resource_type);
        let balance: i128 = ledger.amount(balance_key);
        ledger.write(Write::SetAmount(balance_key, balance + stake.amount));
        ledger.write(Write::RemoveStake(DataKey::StakeRecord(caller)));
        Ok(stake.amount)
    }

    /// Whether no product that the yield formula computes leaves the range of
    /// amounts.
    pub fn yield_fits(stake: &StakeRecord, current_ledger: u32, apy_bps: u32) -> (yes: bool)
        ensures
            yes == rules::yield_in_range(*stake, current_ledger, apy_bps),
    {
        let elapsed: i128 = current_ledger.saturating_sub(stake.last_claim_ledger) as i128;
        if elapsed == 0 {
            return true;
        }
        match stake.amount.checked_mul(apy_bps as i128) {
            Some(yearly) => yearly.checked_mul(elapsed).is_some(),
            None => false,
        }
    }

    /// Whether no product behind the pending yield of `owner` leaves the range
    /// of amounts.
    pub fn pending_fits(ledger: &Ledger, call: &Invocation, owner: Address) -> (yes: bool)
        ensures
            yes == rules::pending_in_range(ledger@, call.ledger(), owner),
    {
        match (Self::get_config(ledger), Self::get_stake(ledger, owner)) {
            (Some(config), Some(stake)) => Self::yield_fits(
                &stake,
                call.sequence(),
                config.apy_basis_points,
            ),
            _ => true,
        }
    }

    /// Whether no amount that `claim_yield` computes leaves the range of
    /// amounts.
    pub fn claim_fits(ledger: &Ledger, call: &Invocation, caller: Address) -> (yes: bool)
        ensures
            yes == rules::claim_in_range(ledger@, call.ledger(), caller),
    {
        match (Self::get_config(ledger), Self::get_stake(ledger, caller)) {
            (Some(config), Some(stake)) => {
                let current: u32 = call.sequence();
                let apy_bps: u32 = config.apy_basis_points;
                if !Self::yield_fits(&stake, current, apy_bps) {
                    return false;
                }
                let amount: i128 = Self::calculate_yield(&stake, current, apy_bps);
                let balance: i128 = Self::get_balance(ledger, caller, ResourceType::Plasma);
                amount <= 0 || balance.checked_add(amount).is_some()
            },
            _ => true,
        }
    }

    /// Whether no amount that `unstake` computes leaves the range of amounts.
    pub fn unstake_fits(ledger: &Ledger, call: &Invocation, caller: Address) -> (yes: bool)
        ensures
            yes == rules::unstake_in_range(ledger@, call.ledger(), caller),
    {
        match (Self::get_config(ledger), Self::get_stake(ledger, caller)) {
            (Some(config), Some(stake)) => {
                let current: u32 = call.sequence();
                if !Self::is_unlocked(&stake, &config, current) {
                    return true;
                }
                if !Self::claim_fits(ledger, call, caller) {
                    return false;
                }
                let amount: i128 = Self::calculate_yield(&stake, current, config.apy_basis_points);
                let mut balance: i128 = Self::get_balance(ledger, caller, stake.resource_type);
                if amount > 0 && stake.resource_type == ResourceType::Plasma {
                    balance = balance + amount;
                }
                balance.checked_add(stake.amount).is_some()
            },
            _ => true,
        }
    }

    /// Whether the time lock on a position has expired.
    fn is_unlocked(stake: &StakeRecord, config: &Config, current: u32) -> (yes: bool)
        ensures
            yes == rules::unlocked(*stake, *config, current),
            yes <==> current >= stake.start_ledger + config.min_stake_duration,
    {
        current as u64 >= stake.start_ledger as u64 + config.min_stake_duration as u64
    }

    // -- Queries -------------------------------------------------------------

    /// The liquid (non-staked) balance of an owner in a resource.
    pub fn get_balance(ledger: &Ledger, owner: Address, resource_type: ResourceType) -> (balance:
        i128)
        ensures
            balance == ledger@.balance(owner, resource_type),
    {
        ledger.amount(DataKey::Balance(owner, resource_type))
    }

    /// The staking position of `owner`, or `None` if there is none.
    pub fn get_stake(ledger: &Ledger, owner: Address) -> (stake: Option<StakeRecord>)
        ensures
            stake == ledger@.stake(owner),
    {
        ledger.stakes.get(DataKey::StakeRecord(owner))
    }

    /// The current configuration, or `None` before `init`.
    pub fn get_config(ledger: &Ledger) -> (config: Option<Config>)
        ensures
            config == ledger@.config(),
    {
        ledger.instance.get(DataKey::Config)
    }

    /// The yield accrued since the last claim, without claiming it.
    pub fn get_pending_yield(ledger: &Ledger, call: &Invocation, owner: Address) -> (result: Result<
        i128,
        ResourceError,
    >)
        requires
            rules::pending_in_range(ledger@, call.ledger(), owner),
        ensures
            result == rules::pending_result(ledger@, call.ledger(), owner),
    {
        let config = match Self::require_config(ledger) {
            Ok(config) => config,
            Err(error) => return Err(error),
        };
        match Self::get_stake(ledger, owner) {
            Some(stake) => Ok(
                Self::calculate_yield(&stake, call.sequence(), config.apy_basis_points),
            ),
            None => Err(ResourceError::StakeNotFound),
        }
    }

    // -- Administration ------------------------------------------------------

    /// Updates the daily harvest cap. The admin must have authorised the call.
    pub fn update_daily_cap(ledger: &mut Ledger, call: &Invocation, new_cap: i128) -> (result: Result<
        (),
        ResourceError,
    >)
        requires
            old(ledger)@.config() matches Some(config) ==> call.authorized_by(config.admin),
        ensures
            result == rules::update_result(old(ledger)@),
            final(ledger)@ == rules::update_daily_cap_post(old(ledger)@, new_cap),
    {
        let mut config = match Self::require_config(ledger) {
            Ok(config) => config,
            Err(error) => return Err(error),
        };
        config.daily_harvest_cap = new_cap;
        ledger.write(Write::SetConfig(DataKey::Config, config));
        Ok(())
    }

    /// Updates the APY rate in basis points. The admin must have authorised the
    /// call.
    pub fn update_apy(ledger: &mut Ledger, call: &Invocation, new_apy_bps: u32) -> (result: Result<
        (),
        ResourceError,
    >)
        requires
            old(ledger)@.config() matches Some(config) ==> call.authorized_by(config.admin),
        ensures
            result == rules::update_result(old(ledger)@),
            final(ledger)@ == rules::update_apy_post(old(ledger)@, new_apy_bps),
    {
        let mut config = match Self::require_config(ledger) {
            Ok(config) => config,
            Err(error) => return Err(error),
        };
        config.apy_basis_points = new_apy_bps;
        ledger.write(Write::SetConfig(DataKey::Config, config));
        Ok(())
    }

    // -- Internal helpers ----------------------------------------------------

    /// The configuration, or an error before `init`.
    pub fn require_config(ledger: &Ledger) -> (result: Result<Config, ResourceError>)
        ensures
            result == (match ledger@.config() {
                Some(config) => Ok(config),
                None => Err(ResourceError::NotInitialized),
            }),
    {
        match Self::get_config(ledger) {
            Some(config) => Ok(config),
            None => Err(ResourceError::NotInitialized),
        }
    }

    /// Pro-rated APY yield. The fraction is cut off, which keeps the result
    /// deterministic and leaves nothing to gain from rounding.
    pub fn calculate_yield(stake: &StakeRecord, current_ledger: u32, apy_bps: u32) -> (amount: i128)
        requires
            rules::yield_in_range(*stake, current_ledger, apy_bps),
        ensures
            amount == rules::accrued(*stake, current_ledger, apy_bps),
            current_ledger <= stake.last_claim_ledger ==> amount == 0,
            current_ledger >= stake.last_claim_ledger && stake.amount >= 0 ==> amount * 10_000
                * 6_307_200 <= stake.amount * apy_bps * (current_ledger - stake.last_claim_ledger)
                < (amount + 1) * 10_000 * 6_307_200,
    {
        proof {
            behaviour::law_yield_is_pro_rated(*stake, current_ledger, apy_bps);
        }
        let elapsed: i128 = current_ledger.saturating_sub(stake.last_claim_ledger) as i128;
        if elapsed == 0 {
            return 0;
        }
        stake.amount * (apy_bps as i128) * elapsed / (BPS_DENOM * LEDGERS_PER_YEAR)
    }
}

} // verus!
