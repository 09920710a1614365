//! Laws on where resources come from and where they are.

use vstd::prelude::*;

use crate::invocation::Address;
use crate::laws::operation;
use crate::laws::operation::Operation;
use crate::ledger::LedgerView;
use crate::records::{DataKey, ResourceType, StakeRecord};
use crate::rules;
use crate::supply;

verus! {

/// Law of supply, for one operation: the supply of every resource grows by
/// exactly what the operation announces as created, so staking and unstaking
/// neither create nor destroy anything; and the total of minted stardust grows
/// by exactly as much as the supply of stardust.
pub proof fn law_supply_step(
    ledger: LedgerView,
    current: u32,
    operation: Operation,
    resource_type: ResourceType,
)
    requires
        ledger.finite(),
        operation.in_range(ledger, current),
    ensures
        operation.apply(ledger, current).finite(),
        supply::supply(operation.apply(ledger, current), resource_type) - supply::announced(
            operation.apply(ledger, current).events,
            resource_type,
        ) == supply::supply(ledger, resource_type) - supply::announced(
            ledger.events,
            resource_type,
        ),
        operation.apply(ledger, current).minted(resource_type) - ledger.minted(resource_type) == (
        if resource_type is Stardust {
            supply::supply(operation.apply(ledger, current), resource_type) - supply::supply(
                ledger,
                resource_type,
            )
        } else {
            0
        }),
{
    let after = operation.apply(ledger, current);
    if after != ledger {
        match operation {
            Operation::Harvest { caller, ship_id, anomaly_index, owns_ship, has_anomaly } => {
                let config = ledger.config()->0;
                let record = rules::window_record(ledger.harvest_record(ship_id), current);
                let amount = rules::award(config, record, anomaly_index);
                let balance_key = DataKey::Balance(caller, ResourceType::Stardust);
                let total_key = DataKey::TotalMinted(ResourceType::Stardust);
                let credited = ledger.with_amount(
                    balance_key,
                    ledger.amount(balance_key) + amount,
                );
                let counted = credited.with_amount(total_key, ledger.amount(total_key) + amount);
                supply::lemma_liquid_with_amount(
                    ledger,
                    balance_key,
                    ledger.amount(balance_key) + amount,
                    resource_type,
                );
                supply::lemma_liquid_with_amount(
                    credited,
                    total_key,
                    ledger.amount(total_key) + amount,
                    resource_type,
                );
                assert(after.amounts == counted.amounts);
                supply::lemma_announced_push(ledger.events, after.events.last(), resource_type);
            },
            Operation::Stake { caller, resource_type: held, resource_amount, duration_ledgers } => {
                let key = DataKey::Balance(caller, held);
                let debited = ledger.with_amount(key, ledger.amount(key) - resource_amount);
                supply::lemma_liquid_with_amount(
                    ledger,
                    key,
                    ledger.amount(key) - resource_amount,
                    resource_type,
                );
                supply::lemma_staked_with_stake(
                    debited,
                    caller,
                    after.stakes[DataKey::StakeRecord(caller)],
                    resource_type,
                );
            },
            Operation::Claim { caller } => {
                let config = ledger.config()->0;
                let stake = ledger.stake(caller)->0;
                let amount = rules::accrued(stake, current, config.apy_basis_points);
                lemma_supply_pay_yield(ledger, current, caller, stake, amount, resource_type);
                supply::lemma_staked_with_stake(
                    rules::pay_yield(ledger, current, caller, stake, amount),
                    caller,
                    StakeRecord { last_claim_ledger: current, ..stake },
                    resource_type,
                );
            },
            Operation::Unstake { caller } => {
                let config = ledger.config()->0;
                let stake = ledger.stake(caller)->0;
                let amount = rules::accrued(stake, current, config.apy_basis_points);
                lemma_supply_pay_yield(ledger, current, caller, stake, amount, resource_type);
                let paid = rules::pay_yield(ledger, current, caller, stake, amount);
                let key = DataKey::Balance(caller, stake.resource_type);
                supply::lemma_liquid_with_amount(
                    paid,
                    key,
                    paid.amount(key) + stake.amount,
                    resource_type,
                );
                supply::lemma_staked_without_stake(
                    paid.with_amount(key, paid.amount(key) + stake.amount),
                    caller,
                    resource_type,
                );
            },
            _ => {},
        }
    }
}

/// How much of a resource comes into being when `amount` of yield is paid out.
spec fn plasma_paid(amount: int, resource_type: ResourceType) -> int {
    if amount > 0 && resource_type is Plasma {
        amount
    } else {
        0
    }
}

/// Paying out yield creates as much plasma as it announces.
proof fn lemma_supply_pay_yield(
    ledger: LedgerView,
    current: u32,
    caller: Address,
    stake: StakeRecord,
    amount: int,
    resource_type: ResourceType,
)
    requires
        ledger.finite(),
        amount > 0 ==> rules::fits(amount) && rules::fits(
            ledger.balance(caller, ResourceType::Plasma) + amount,
        ),
    ensures
        rules::pay_yield(ledger, current, caller, stake, amount).finite(),
        supply::liquid(rules::pay_yield(ledger, current, caller, stake, amount), resource_type)
            == supply::liquid(ledger, resource_type) + plasma_paid(amount, resource_type),
        supply::announced(
            rules::pay_yield(ledger, current, caller, stake, amount).events,
            resource_type,
        ) == supply::announced(ledger.events, resource_type) + plasma_paid(amount, resource_type),
        supply::staked(rules::pay_yield(ledger, current, caller, stake, amount), resource_type)
            == supply::staked(ledger, resource_type),
        rules::pay_yield(ledger, current, caller, stake, amount).minted(resource_type)
            == ledger.minted(resource_type),
        rules::pay_yield(ledger, current, caller, stake, amount).stake(caller) == ledger.stake(
            caller,
        ),
{
    if amount > 0 {
        let key = DataKey::Balance(caller, ResourceType::Plasma);
        supply::lemma_liquid_with_amount(ledger, key, ledger.amount(key) + amount, resource_type);
        supply::lemma_announced_push(
            ledger.events,
            rules::pay_yield(ledger, current, caller, stake, amount).events.last(),
            resource_type,
        );
    }
}

/// Law of supply: in every history, all stardust in balances and positions adds
/// up to the total minted, and the supply of every resource to what was
/// announced as created.
pub proof fn law_supply_history(history: Seq<(u32, Operation)>, resource_type: ResourceType)
    requires
        operation::all_in_range(LedgerView::empty(), history),
    ensures
        operation::run(LedgerView::empty(), history).finite(),
        supply::supply(operation::run(LedgerView::empty(), history), ResourceType::Stardust) == operation::run(
            LedgerView::empty(),
            history,
        ).minted(ResourceType::Stardust),
        supply::supply(operation::run(LedgerView::empty(), history), resource_type) == supply::announced(
            operation::run(LedgerView::empty(), history).events,
            resource_type,
        ),
    decreases history.len(),
{
    let start = LedgerView::empty();
    if history.len() > 0 {
        let before = operation::run(start, history.drop_last());
        law_supply_history(history.drop_last(), resource_type);
        law_supply_step(before, history.last().0, history.last().1, resource_type);
        law_supply_step(before, history.last().0, history.last().1, ResourceType::Stardust);
    }
}

} // verus!
