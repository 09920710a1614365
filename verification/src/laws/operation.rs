//! The operations of the economy, and histories of them.

use vstd::prelude::*;

use crate::invocation::Address;
use crate::ledger::LedgerView;
use crate::records::{ResourceError, ResourceType};
use crate::rules;

verus! {

/// An operation that can change the ledger, with its arguments.
pub enum Operation {
    Init {
        admin: Address,
        ship_contract: Address,
        nebula_contract: Address,
        apy_basis_points: u32,
        daily_harvest_cap: i128,
        min_stake_duration: u32,
    },
    Harvest {
        caller: Address,
        ship_id: u64,
        anomaly_index: u32,
        owns_ship: bool,
        has_anomaly: bool,
    },
    Stake {
        caller: Address,
        resource_type: ResourceType,
        resource_amount: i128,
        duration_ledgers: u32,
    },
    Claim { caller: Address },
    Unstake { caller: Address },
    UpdateDailyCap { new_cap: i128 },
    UpdateApy { new_apy_bps: u32 },
}

impl Operation {
    /// The error that the operation answers with in ledger `current`, if it
    /// fails.
    pub open spec fn error(self, ledger: LedgerView, current: u32) -> Option<ResourceError> {
        match self {
            Operation::Init { .. } => error_of(rules::init_result(ledger)),
            Operation::Harvest { ship_id, anomaly_index, owns_ship, has_anomaly, .. } => error_of(
                rules::harvest_result(
                    ledger,
                    current,
                    ship_id,
                    anomaly_index,
                    owns_ship,
                    has_anomaly,
                ),
            ),
            Operation::Stake { caller, resource_type, resource_amount, duration_ledgers } => error_of(
                rules::stake_result(
                    ledger,
                    caller,
                    resource_type,
                    resource_amount,
                    duration_ledgers,
                ),
            ),
            Operation::Claim { caller } => error_of(
                rules::pending_result(ledger, current, caller),
            ),
            Operation::Unstake { caller } => error_of(
                rules::unstake_result(ledger, current, caller),
            ),
            Operation::UpdateDailyCap { .. } => error_of(rules::update_result(ledger)),
            Operation::UpdateApy { .. } => error_of(rules::update_result(ledger)),
        }
    }

    /// No amount that the operation computes leaves the range of amounts.
    pub open spec fn in_range(self, ledger: LedgerView, current: u32) -> bool {
        match self {
            Operation::Harvest { caller, ship_id, anomaly_index, owns_ship, has_anomaly } => {
                ledger.config() is Some && owns_ship && has_anomaly ==> rules::harvest_in_range(
                    ledger,
                    ledger.config()->0,
                    current,
                    caller,
                    ship_id,
                    anomaly_index,
                )
            },
            Operation::Claim { caller } => rules::claim_in_range(ledger, current, caller),
            Operation::Unstake { caller } => rules::unstake_in_range(ledger, current, caller),
            _ => true,
        }
    }

    /// The ledger after the operation.
    pub open spec fn apply(self, ledger: LedgerView, current: u32) -> LedgerView {
        match self {
            Operation::Init {
                admin,
                ship_contract,
                nebula_contract,
                apy_basis_points,
                daily_harvest_cap,
                min_stake_duration,
            } => rules::init_post(
                ledger,
                rules::initial_config(
                    admin,
                    ship_contract,
                    nebula_contract,
                    apy_basis_points,
                    daily_harvest_cap,
                    min_stake_duration,
                ),
            ),
            Operation::Harvest {
                caller,
                ship_id,
                anomaly_index,
                owns_ship,
                has_anomaly,
            } => rules::harvest_post(
                ledger,
                current,
                caller,
                ship_id,
                anomaly_index,
                owns_ship,
                has_anomaly,
            ),
            Operation::Stake {
                caller,
                resource_type,
                resource_amount,
                duration_ledgers,
            } => rules::stake_post(
                ledger,
                current,
                caller,
                resource_type,
                resource_amount,
                duration_ledgers,
            ),
            Operation::Claim { caller } => rules::claim_post(ledger, current, caller),
            Operation::Unstake { caller } => rules::unstake_post(ledger, current, caller),
            Operation::UpdateDailyCap { new_cap } => rules::update_daily_cap_post(ledger, new_cap),
            Operation::UpdateApy { new_apy_bps } => rules::update_apy_post(ledger, new_apy_bps),
        }
    }

    /// `owner` is the one on whose behalf the operation is carried out.
    pub open spec fn acts_for(self, owner: Address) -> bool {
        match self {
            Operation::Harvest { caller, .. } => caller == owner,
            Operation::Stake { caller, .. } => caller == owner,
            Operation::Claim { caller } => caller == owner,
            Operation::Unstake { caller } => caller == owner,
            _ => false,
        }
    }

    /// The stardust that the operation mints on the account of a ship.
    pub open spec fn minted_for(self, ledger: LedgerView, current: u32, ship_id: u64) -> int {
        match self {
            Operation::Harvest {
                ship_id: harvester,
                anomaly_index,
                owns_ship,
                has_anomaly,
                ..
            } if harvester == ship_id => match rules::harvest_result(
                ledger,
                current,
                ship_id,
                anomaly_index,
                owns_ship,
                has_anomaly,
            ) {
                Ok(amount) => amount as int,
                Err(_) => 0,
            },
            _ => 0,
        }
    }
}

/// The error in a result, if it is one.
pub open spec fn error_of<T>(result: Result<T, ResourceError>) -> Option<ResourceError> {
    match result {
        Ok(_) => None,
        Err(error) => Some(error),
    }
}

/// The ledger after a history of operations, each in the ledger given with it.
pub open spec fn run(start: LedgerView, history: Seq<(u32, Operation)>) -> LedgerView
    decreases history.len(),
{
    if history.len() == 0 {
        start
    } else {
        history.last().1.apply(run(start, history.drop_last()), history.last().0)
    }
}

/// No amount that a history computes leaves the range of amounts.
pub open spec fn all_in_range(start: LedgerView, history: Seq<(u32, Operation)>) -> bool
    decreases history.len(),
{
    history.len() > 0 ==> {
        &&& all_in_range(start, history.drop_last())
        &&& history.last().1.in_range(run(start, history.drop_last()), history.last().0)
    }
}

} // verus!
