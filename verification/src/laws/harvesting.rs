//! Laws on the daily cap.

use vstd::prelude::*;

use crate::laws::operation;
use crate::laws::operation::Operation;
use crate::laws::state;
use crate::ledger::LedgerView;
use crate::records::{ResourceError, LEDGERS_PER_DAY};
use crate::rules;

verus! {

/// The stardust that a history mints on the account of a ship.
pub open spec fn total_minted_for(
    start: LedgerView,
    history: Seq<(u32, Operation)>,
    ship_id: u64,
) -> int
    decreases history.len(),
{
    if history.len() == 0 {
        0
    } else {
        total_minted_for(start, history.drop_last(), ship_id) + history.last().1.minted_for(
            operation::run(start, history.drop_last()),
            history.last().0,
            ship_id,
        )
    }
}

/// Every operation of a history falls into the day window that the ship is in
/// at the start, and none changes the daily cap.
pub open spec fn within_one_window(
    start: LedgerView,
    history: Seq<(u32, Operation)>,
    ship_id: u64,
) -> bool {
    forall|i: int|
        0 <= i < history.len() ==> {
            &&& (#[trigger] history[i]).0 - start.harvest_record(ship_id).last_reset_ledger
                < LEDGERS_PER_DAY
            &&& !(history[i].1 is UpdateDailyCap)
        }
}

/// Law of the daily cap: whatever is done within one day window, by whomever,
/// a ship harvests no more in it than is left of the cap, and its record says
/// how much it was.
pub proof fn law_daily_cap(start: LedgerView, history: Seq<(u32, Operation)>, ship_id: u64)
    requires
        start.config() is Some,
        operation::all_in_range(start, history),
        within_one_window(start, history, ship_id),
    ensures
        ({
            let cap = start.config()->0.daily_harvest_cap;
            let before = start.harvest_record(ship_id);
            let after = operation::run(start, history).harvest_record(ship_id);
            let total = total_minted_for(start, history, ship_id);
            &&& after.last_reset_ledger == before.last_reset_ledger
            &&& after.harvested_today == before.harvested_today + total
            &&& before.harvested_today <= cap ==> total <= cap - before.harvested_today
            &&& before.harvested_today >= cap ==> total == 0
        }),
        operation::run(start, history).config() is Some,
        operation::run(start, history).config()->0.daily_harvest_cap
            == start.config()->0.daily_harvest_cap,
    decreases history.len(),
{
    if history.len() > 0 {
        let rest = history.drop_last();
        assert forall|i: int| 0 <= i < rest.len() implies (#[trigger] rest[i]).0
            - start.harvest_record(ship_id).last_reset_ledger < LEDGERS_PER_DAY && !(
        rest[i].1 is UpdateDailyCap) by {
            assert(rest[i] == history[i]);
        }
        law_daily_cap(start, rest, ship_id);
        assert(history[history.len() - 1] == history.last());
        state::law_config_step(
            operation::run(start, rest),
            history.last().0,
            history.last().1,
        );
    }
}

/// Every operation of a history falls into the day that begins with ledger
/// `first`, and none changes the daily cap.
pub open spec fn within_one_day(history: Seq<(u32, Operation)>, first: u32) -> bool {
    forall|i: int|
        0 <= i < history.len() ==> {
            &&& first <= (#[trigger] history[i]).0 < first + 17_280
            &&& !(history[i].1 is UpdateDailyCap)
        }
}

/// Law of the renewed cap: from a ledger `first` in which the ship's window has
/// run out, whatever is done in the day that follows, the ship harvests no more
/// than one cap in all. Either it has harvested nothing and its record is
/// untouched, or its window has started in that day and its record counts just
/// what it has harvested in it.
pub proof fn law_daily_cap_after_renewal(
    start: LedgerView,
    history: Seq<(u32, Operation)>,
    ship_id: u64,
    first: u32,
)
    requires
        start.config() is Some,
        operation::all_in_range(start, history),
        first >= start.harvest_record(ship_id).last_reset_ledger + 17_280,
        within_one_day(history, first),
    ensures
        ({
            let cap = start.config()->0.daily_harvest_cap;
            let before = start.harvest_record(ship_id);
            let after = operation::run(start, history).harvest_record(ship_id);
            let total = total_minted_for(start, history, ship_id);
            &&& total == 0 || total <= cap
            &&& total == 0 && after == before || {
                &&& first <= after.last_reset_ledger < first + 17_280
                &&& after.harvested_today == total
                &&& total <= cap
            }
        }),
        operation::run(start, history).config() is Some,
        operation::run(start, history).config()->0.daily_harvest_cap
            == start.config()->0.daily_harvest_cap,
    decreases history.len(),
{
    if history.len() > 0 {
        let rest = history.drop_last();
        assert forall|i: int| 0 <= i < rest.len() implies first <= (#[trigger] rest[i]).0 < first
            + 17_280 && !(rest[i].1 is UpdateDailyCap) by {
            assert(rest[i] == history[i]);
        }
        law_daily_cap_after_renewal(start, rest, ship_id, first);
        assert(history[history.len() - 1] == history.last());
        state::law_config_step(operation::run(start, rest), history.last().0, history.last().1);
    }
}

/// Law of any day: whenever it begins, a day sees at most one renewal, so a ship
/// harvests no more in it than what was left of the cap and one cap more.
pub proof fn law_daily_cap_on_any_day(
    start: LedgerView,
    history: Seq<(u32, Operation)>,
    ship_id: u64,
    first: u32,
)
    requires
        start.config() is Some,
        start.config()->0.daily_harvest_cap >= 0,
        operation::all_in_range(start, history),
        within_one_day(history, first),
    ensures
        ({
            let cap = start.config()->0.daily_harvest_cap;
            let before = start.harvest_record(ship_id);
            let after = operation::run(start, history).harvest_record(ship_id);
            let total = total_minted_for(start, history, ship_id);
            let left: int = if before.harvested_today <= cap {
                cap - before.harvested_today
            } else {
                0
            };
            &&& total <= left + cap
            &&& ({
                // No renewal yet.
                &&& after.last_reset_ledger == before.last_reset_ledger
                &&& after.harvested_today == before.harvested_today + total
                &&& total <= left
            }) || ({
                // One renewal, within the day.
                &&& first <= after.last_reset_ledger
                &&& total <= left + after.harvested_today
                &&& after.harvested_today <= cap
            })
        }),
        operation::run(start, history).config() is Some,
        operation::run(start, history).config()->0.daily_harvest_cap
            == start.config()->0.daily_harvest_cap,
    decreases history.len(),
{
    if history.len() > 0 {
        let rest = history.drop_last();
        assert forall|i: int| 0 <= i < rest.len() implies first <= (#[trigger] rest[i]).0 < first
            + 17_280 && !(rest[i].1 is UpdateDailyCap) by {
            assert(rest[i] == history[i]);
        }
        law_daily_cap_on_any_day(start, rest, ship_id, first);
        assert(history[history.len() - 1] == history.last());
        state::law_config_step(operation::run(start, rest), history.last().0, history.last().1);
    }
}

/// Law of renewal: once a day has passed since the ship's window started, a
/// confirmed harvest gets what the anomaly is worth, up to the whole cap,
/// whatever was harvested before.
pub proof fn law_cap_renewed(
    ledger: LedgerView,
    current: u32,
    ship_id: u64,
    anomaly_index: u32,
)
    requires
        state::sound(ledger),
        ledger.config() matches Some(config) && config.daily_harvest_cap > 0,
        current - ledger.harvest_record(ship_id).last_reset_ledger >= LEDGERS_PER_DAY,
    ensures
        ({
            let config = ledger.config()->0;
            let raw = rules::raw_award(config, anomaly_index);
            let cap = config.daily_harvest_cap;
            rules::harvest_result(ledger, current, ship_id, anomaly_index, true, true) == Ok::<
                i128,
                ResourceError,
            >(
                if raw <= cap {
                    raw as i128
                } else {
                    cap
                },
            )
        }),
{
}

/// Law of the award: in a sound state a harvest that succeeds mints a positive
/// amount, no more than 100 + 10 x anomaly index, and that exactly if so much is
/// left of the cap.
pub proof fn law_award(
    ledger: LedgerView,
    current: u32,
    ship_id: u64,
    anomaly_index: u32,
    amount: i128,
)
    requires
        state::sound(ledger),
        rules::harvest_result(ledger, current, ship_id, anomaly_index, true, true) == Ok::<
            i128,
            ResourceError,
        >(amount),
    ensures
        0 < amount <= 100 + 10 * anomaly_index,
        amount == 100 + 10 * anomaly_index <==> 100 + 10 * anomaly_index
            <= ledger.config()->0.daily_harvest_cap - rules::window_record(
            ledger.harvest_record(ship_id),
            current,
        ).harvested_today,
{
}

/// Law of separate ships: an operation touches no harvest record but that of
/// the ship that harvests, so no ship uses up the cap of another.
pub proof fn law_ships_independent(
    ledger: LedgerView,
    current: u32,
    operation: Operation,
    other_ship: u64,
)
    requires
        operation matches Operation::Harvest { ship_id, .. } ==> ship_id != other_ship,
    ensures
        operation.apply(ledger, current).harvest_record(other_ship) == ledger.harvest_record(
            other_ship,
        ),
{
}

} // verus!
