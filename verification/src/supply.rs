//! How much of each resource exists, in liquid balances and in positions.

use vstd::prelude::*;

use crate::invocation::Address;
use crate::ledger::{Event, LedgerView};
use crate::records::{DataKey, ResourceType, StakeRecord};

verus! {

/// The sum of `weight` over all entries of a finite map.
pub open spec fn sum_over<V>(m: Map<DataKey, V>, weight: spec_fn(DataKey, V) -> int) -> int
    decreases m.dom().len(),
    when m.dom().finite()
{
    if m.dom().len() == 0 {
        0
    } else {
        let key = m.dom().choose();
        weight(key, m[key]) + sum_over(m.remove(key), weight)
    }
}

/// What an entry adds to the liquid balances in a resource.
pub open spec fn liquid_weight(resource_type: ResourceType) -> spec_fn(DataKey, i128) -> int {
    |key: DataKey, amount: i128|
        match key {
            DataKey::Balance(_, held) if held == resource_type => amount as int,
            _ => 0,
        }
}

/// What an entry adds to the positions in a resource.
pub open spec fn staked_weight(resource_type: ResourceType) -> spec_fn(
    DataKey,
    StakeRecord,
) -> int {
    |key: DataKey, stake: StakeRecord|
        if stake.resource_type == resource_type {
            stake.amount as int
        } else {
            0
        }
}

/// The sum of all liquid balances in a resource.
pub open spec fn liquid(ledger: LedgerView, resource_type: ResourceType) -> int {
    sum_over(ledger.amounts, liquid_weight(resource_type))
}

/// The sum of all principals locked in a resource.
pub open spec fn staked(ledger: LedgerView, resource_type: ResourceType) -> int {
    sum_over(ledger.stakes, staked_weight(resource_type))
}

/// All of a resource that exists.
pub open spec fn supply(ledger: LedgerView, resource_type: ResourceType) -> int {
    liquid(ledger, resource_type) + staked(ledger, resource_type)
}

/// What a position, if there is one, locks of a resource.
pub open spec fn locked(stake: Option<StakeRecord>, resource_type: ResourceType) -> int {
    match stake {
        Some(stake) if stake.resource_type == resource_type => stake.amount as int,
        _ => 0,
    }
}

/// How much of a resource an event announces as newly created.
pub open spec fn created_by(event: Event, resource_type: ResourceType) -> int {
    match event {
        Event::ResourceHarvested { amount, .. } if resource_type is Stardust => amount as int,
        Event::YieldClaimed { yield_amount, .. } if resource_type is Plasma => yield_amount as int,
        _ => 0,
    }
}

/// How much of a resource the events announce as newly created.
pub open spec fn announced(events: Seq<Event>, resource_type: ResourceType) -> int
    decreases events.len(),
{
    if events.len() == 0 {
        0
    } else {
        announced(events.drop_last(), resource_type) + created_by(events.last(), resource_type)
    }
}

/// Any entry can be split off a sum.
pub proof fn lemma_sum_remove<V>(
    m: Map<DataKey, V>,
    weight: spec_fn(DataKey, V) -> int,
    key: DataKey,
)
    requires
        m.dom().finite(),
        m.contains_key(key),
    ensures
        sum_over(m, weight) == weight(key, m[key]) + sum_over(m.remove(key), weight),
    decreases m.dom().len(),
{
    let first = m.dom().choose();
    assert(m.dom().contains(first));
    if first != key {
        lemma_sum_remove(m.remove(first), weight, key);
        lemma_sum_remove(m.remove(key), weight, first);
        assert(m.remove(first).remove(key) =~= m.remove(key).remove(first));
    }
}

/// Filing a value under a key replaces the share of that key in a sum.
pub proof fn lemma_sum_insert<V>(
    m: Map<DataKey, V>,
    weight: spec_fn(DataKey, V) -> int,
    key: DataKey,
    value: V,
)
    requires
        m.dom().finite(),
    ensures
        sum_over(m.insert(key, value), weight) == sum_over(m, weight) + weight(key, value) - (
        if m.contains_key(key) {
            weight(key, m[key])
        } else {
            0
        }),
{
    lemma_sum_remove(m.insert(key, value), weight, key);
    assert(m.insert(key, value).remove(key) =~= m.remove(key));
    if m.contains_key(key) {
        lemma_sum_remove(m, weight, key);
    } else {
        assert(m.remove(key) =~= m);
    }
}

/// Changing a filed amount changes the liquid balances by what its key counts
/// for.
pub proof fn lemma_liquid_with_amount(
    ledger: LedgerView,
    key: DataKey,
    amount: int,
    resource_type: ResourceType,
)
    requires
        ledger.finite(),
    ensures
        ledger.with_amount(key, amount).finite(),
        liquid(ledger.with_amount(key, amount), resource_type) == liquid(ledger, resource_type)
            + liquid_weight(resource_type)(key, amount as i128) - liquid_weight(resource_type)(
            key,
            ledger.amount(key),
        ),
        staked(ledger.with_amount(key, amount), resource_type) == staked(ledger, resource_type),
{
    lemma_sum_insert(ledger.amounts, liquid_weight(resource_type), key, amount as i128);
}

/// Opening or changing a position changes the locked principals by its own.
pub proof fn lemma_staked_with_stake(
    ledger: LedgerView,
    owner: Address,
    stake: StakeRecord,
    resource_type: ResourceType,
)
    requires
        ledger.finite(),
    ensures
        ledger.with_stake(owner, stake).finite(),
        staked(ledger.with_stake(owner, stake), resource_type) == staked(ledger, resource_type)
            + locked(Some(stake), resource_type) - locked(ledger.stake(owner), resource_type),
        liquid(ledger.with_stake(owner, stake), resource_type) == liquid(ledger, resource_type),
{
    lemma_sum_insert(
        ledger.stakes,
        staked_weight(resource_type),
        DataKey::StakeRecord(owner),
        stake,
    );
}

/// Closing a position takes its principal out of the locked ones.
pub proof fn lemma_staked_without_stake(
    ledger: LedgerView,
    owner: Address,
    resource_type: ResourceType,
)
    requires
        ledger.finite(),
    ensures
        ledger.without_stake(owner).finite(),
        staked(ledger.without_stake(owner), resource_type) == staked(ledger, resource_type)
            - locked(ledger.stake(owner), resource_type),
        liquid(ledger.without_stake(owner), resource_type) == liquid(ledger, resource_type),
{
    let key = DataKey::StakeRecord(owner);
    if ledger.stakes.contains_key(key) {
        lemma_sum_remove(ledger.stakes, staked_weight(resource_type), key);
    } else {
        assert(ledger.stakes.remove(key) =~= ledger.stakes);
    }
}

/// An event adds what it announces.
pub proof fn lemma_announced_push(events: Seq<Event>, event: Event, resource_type: ResourceType)
    ensures
        announced(events.push(event), resource_type) == announced(events, resource_type)
            + created_by(event, resource_type),
{
    assert(events.push(event).drop_last() =~= events);
}

} // verus!
