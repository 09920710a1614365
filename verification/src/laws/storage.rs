//! Laws that tie a call to the storage around it: which entries decide it, and
//! how its writes change them.

use vstd::prelude::*;

use crate::invocation::Address;
use crate::laws::operation::Operation;
use crate::ledger::{Event, LedgerView, Write};
use crate::records::{ResourceType, StakeRecord};
use crate::rules;

verus! {

/// The ledger after a series of writes.
pub open spec fn replay(start: LedgerView, writes: Seq<Write>) -> LedgerView
    decreases writes.len(),
{
    if writes.len() == 0 {
        start
    } else {
        replay(start, writes.drop_last()).after(writes.last())
    }
}

/// The writes that were logged between two states of a ledger.
pub open spec fn writes_since(before: LedgerView, after: LedgerView) -> Seq<Write> {
    after.writes.skip(before.writes.len() as int)
}

/// The writes and events logged before are still there, and the writes logged
/// since turn the entries of before into those of after.
pub open spec fn accounted_for(before: LedgerView, after: LedgerView) -> bool {
    &&& before.writes.is_prefix_of(after.writes)
    &&& before.events.is_prefix_of(after.events)
    &&& replay(before, writes_since(before, after)) == (LedgerView {
        events: before.events,
        ..after
    })
}

proof fn lemma_nothing_happened(ledger: LedgerView)
    ensures
        accounted_for(ledger, ledger),
{
    assert(writes_since(ledger, ledger) =~= Seq::<Write>::empty());
}

proof fn lemma_one_more_write(before: LedgerView, between: LedgerView, write: Write)
    requires
        accounted_for(before, between),
    ensures
        accounted_for(before, between.after(write)),
{
    let writes = writes_since(before, between);
    assert(writes_since(before, between.after(write)) =~= writes.push(write));
    assert(writes.push(write).drop_last() =~= writes);
}

proof fn lemma_one_more_event(before: LedgerView, between: LedgerView, event: Event)
    requires
        accounted_for(before, between),
    ensures
        accounted_for(before, between.with_event(event)),
{
    assert(writes_since(before, between.with_event(event)) =~= writes_since(before, between));
}

proof fn lemma_pay_yield_accounted_for(
    ledger: LedgerView,
    current: u32,
    caller: Address,
    stake: StakeRecord,
    amount: int,
)
    ensures
        accounted_for(ledger, rules::pay_yield(ledger, current, caller, stake, amount)),
{
    lemma_nothing_happened(ledger);
    if amount > 0 {
        let after = rules::pay_yield(ledger, current, caller, stake, amount);
        let write = after.writes.last();
        lemma_one_more_write(ledger, ledger, write);
        lemma_one_more_event(ledger, ledger.after(write), after.events.last());
    }
}

/// Law of the write log: the writes that an operation logs are exactly what it
/// does to the entries. Carried out one after the other on what was there
/// before, they give what is there after.
pub proof fn law_writes_account_for_everything(
    ledger: LedgerView,
    current: u32,
    operation: Operation,
)
    ensures
        accounted_for(ledger, operation.apply(ledger, current)),
{
    let after = operation.apply(ledger, current);
    let logged = writes_since(ledger, after);
    lemma_nothing_happened(ledger);
    if after != ledger {
        match operation {
            Operation::Harvest { .. } => {
                lemma_one_more_write(ledger, ledger, logged[0]);
                lemma_one_more_write(ledger, ledger.after(logged[0]), logged[1]);
                lemma_one_more_write(
                    ledger,
                    ledger.after(logged[0]).after(logged[1]),
                    logged[2],
                );
                lemma_one_more_event(
                    ledger,
                    ledger.after(logged[0]).after(logged[1]).after(logged[2]),
                    after.events.last(),
                );
            },
            Operation::Stake { .. } => {
                lemma_one_more_write(ledger, ledger, logged[0]);
                lemma_one_more_write(ledger, ledger.after(logged[0]), logged[1]);
            },
            Operation::Claim { caller } => {
                let stake = ledger.stake(caller)->0;
                let amount = rules::accrued(
                    stake,
                    current,
                    ledger.config()->0.apy_basis_points,
                );
                lemma_pay_yield_accounted_for(ledger, current, caller, stake, amount);
                lemma_one_more_write(
                    ledger,
                    rules::pay_yield(ledger, current, caller, stake, amount),
                    after.writes.last(),
                );
            },
            Operation::Unstake { caller } => {
                let stake = ledger.stake(caller)->0;
                let amount = rules::accrued(
                    stake,
                    current,
                    ledger.config()->0.apy_basis_points,
                );
                let paid = rules::pay_yield(ledger, current, caller, stake, amount);
                lemma_pay_yield_accounted_for(ledger, current, caller, stake, amount);
                let returned = after.writes[after.writes.len() - 2];
                lemma_one_more_write(ledger, paid, returned);
                lemma_one_more_write(ledger, paid.after(returned), after.writes.last());
            },
            _ => {
                lemma_one_more_write(ledger, ledger, logged[0]);
            },
        }
    }
}

/// Two ledgers agree on the entries that decide an operation: the configuration,
/// the record of the ship that harvests, the total of minted stardust, and the
/// balances and the position of the caller.
pub open spec fn agree_on(operation: Operation, one: LedgerView, other: LedgerView) -> bool {
    &&& one.config() == other.config()
    &&& forall|owner: Address| #[trigger]
        operation.acts_for(owner) ==> one.stake(owner) == other.stake(owner)
    &&& forall|owner: Address, resource_type: ResourceType|
        operation.acts_for(owner) ==> #[trigger] one.balance(owner, resource_type)
            == other.balance(owner, resource_type)
    &&& operation matches Operation::Harvest { ship_id, .. } ==> {
        &&& one.harvest_record(ship_id) == other.harvest_record(ship_id)
        &&& one.minted(ResourceType::Stardust) == other.minted(ResourceType::Stardust)
    }
}

/// Law of locality: an operation is decided by few entries. Two ledgers that
/// agree on those get the same answer, the same writes and the same events, so a
/// call needs to bring no more of the ledger than these.
pub proof fn law_few_entries_decide(
    one: LedgerView,
    other: LedgerView,
    current: u32,
    operation: Operation,
)
    requires
        agree_on(operation, one, other),
    ensures
        operation.error(one, current) == operation.error(other, current),
        operation.in_range(one, current) == operation.in_range(other, current),
        writes_since(one, operation.apply(one, current)) == writes_since(
            other,
            operation.apply(other, current),
        ),
        operation.apply(one, current).events.skip(one.events.len() as int)
            == operation.apply(other, current).events.skip(other.events.len() as int),
        operation matches Operation::Harvest {
            ship_id,
            anomaly_index,
            owns_ship,
            has_anomaly,
            ..
        } ==> rules::harvest_result(
            one,
            current,
            ship_id,
            anomaly_index,
            owns_ship,
            has_anomaly,
        ) == rules::harvest_result(
            other,
            current,
            ship_id,
            anomaly_index,
            owns_ship,
            has_anomaly,
        ),
        operation matches Operation::Claim { caller } ==> rules::pending_result(
            one,
            current,
            caller,
        ) == rules::pending_result(other, current, caller),
        operation matches Operation::Unstake { caller } ==> rules::unstake_result(
            one,
            current,
            caller,
        ) == rules::unstake_result(other, current, caller),
{
    match operation {
        Operation::Harvest { caller, .. } => {
            assert(operation.acts_for(caller));
            assert(one.balance(caller, ResourceType::Stardust) == other.balance(
                caller,
                ResourceType::Stardust,
            ));
        },
        Operation::Stake { caller, resource_type, .. } => {
            assert(operation.acts_for(caller));
            assert(one.balance(caller, resource_type) == other.balance(caller, resource_type));
        },
        Operation::Claim { caller } => {
            assert(operation.acts_for(caller));
            assert(one.balance(caller, ResourceType::Plasma) == other.balance(
                caller,
                ResourceType::Plasma,
            ));
        },
        Operation::Unstake { caller } => {
            assert(operation.acts_for(caller));
            assert(one.balance(caller, ResourceType::Plasma) == other.balance(
                caller,
                ResourceType::Plasma,
            ));
            if let Some(stake) = one.stake(caller) {
                assert(one.balance(caller, stake.resource_type) == other.balance(
                    caller,
                    stake.resource_type,
                ));
            }
        },
        _ => {},
    }
}

} // verus!
