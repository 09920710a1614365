//! What each operation answers and brings about, in plain arithmetic on its
//! arguments and on what was on the ledger before.

use vstd::prelude::*;

use crate::invocation::{Address, Invocation};
use crate::ledger::{Event, Ledger, LedgerView, Write};
use crate::records::{Config, DataKey, HarvestRecord, ResourceError, ResourceType, StakeRecord};
use crate::rules;

verus! {

/// `x` is a number that an amount can hold.
pub open spec fn representable(x: int) -> bool {
    -0x8000_0000_0000_0000_0000_0000_0000_0000 <= x <= 0x7fff_ffff_ffff_ffff_ffff_ffff_ffff_ffff
}

// -- Initialisation ----------------------------------------------------------

/// Law of `init`: on a ledger without a configuration it succeeds, and the
/// configuration then holds exactly the arguments of the call and a base award
/// of 100; otherwise it is refused. Nothing else on the ledger changes.
pub proof fn law_init_keeps_its_arguments(
    ledger: LedgerView,
    admin: Address,
    ship_contract: Address,
    nebula_contract: Address,
    apy_basis_points: u32,
    daily_harvest_cap: i128,
    min_stake_duration: u32,
)
    ensures
        ({
            let result = rules::init_result(ledger);
            let after = rules::init_post(
                ledger,
                rules::initial_config(
                    admin,
                    ship_contract,
                    nebula_contract,
                    apy_basis_points,
                    daily_harvest_cap,
                    min_stake_duration,
                ),
            );
            &&& result == Ok::<(), ResourceError>(()) <==> ledger.config() is None
            &&& result == Err::<(), ResourceError>(ResourceError::AlreadyInitialized)
                <==> ledger.config() is Some
            &&& ledger.config() is Some ==> after == ledger
            &&& ledger.config() is None ==> {
                let config = after.config()->0;
                &&& after.config() is Some
                &&& config.admin == admin
                &&& config.ship_contract == ship_contract
                &&& config.nebula_contract == nebula_contract
                &&& config.apy_basis_points == apy_basis_points
                &&& config.daily_harvest_cap == daily_harvest_cap
                &&& config.min_stake_duration == min_stake_duration
                &&& config.stardust_per_anomaly == 100
                &&& after.instance == ledger.instance.insert(DataKey::Config, config)
                &&& after.writes == ledger.writes.push(Write::SetConfig(DataKey::Config, config))
            }
            &&& after.harvests == ledger.harvests
            &&& after.stakes == ledger.stakes
            &&& after.amounts == ledger.amounts
            &&& after.events == ledger.events
        }),
{
}

// -- Harvesting --------------------------------------------------------------

/// Law of the harvest's answer: it is refused for the first of these reasons
/// that applies, and for no other: no configuration, a ship that is not owned,
/// an anomaly that was not scanned, a daily cap that is used up.
pub proof fn law_harvest_refusals(
    ledger: LedgerView,
    current: u32,
    ship_id: u64,
    anomaly_index: u32,
    owns_ship: bool,
    has_anomaly: bool,
)
    ensures
        ({
            let result = rules::harvest_result(
                ledger,
                current,
                ship_id,
                anomaly_index,
                owns_ship,
                has_anomaly,
            );
            let config = ledger.config()->0;
            let record = ledger.harvest_record(ship_id);
            let day_passed = current >= record.last_reset_ledger + 17_280;
            let open = ledger.config() is Some && owns_ship && has_anomaly;
            &&& result == Err::<i128, ResourceError>(ResourceError::NotInitialized)
                <==> ledger.config() is None
            &&& result == Err::<i128, ResourceError>(ResourceError::ShipNotOwned)
                <==> ledger.config() is Some && !owns_ship
            &&& result == Err::<i128, ResourceError>(ResourceError::AnomalyNotScanned)
                <==> ledger.config() is Some && owns_ship && !has_anomaly
            &&& result == Err::<i128, ResourceError>(ResourceError::DailyCapExceeded) <==> open && (
            if day_passed {
                config.daily_harvest_cap <= 0
            } else {
                config.daily_harvest_cap <= record.harvested_today
            })
            &&& result is Ok <==> open && (if day_passed {
                0 < config.daily_harvest_cap
            } else {
                record.harvested_today < config.daily_harvest_cap
            })
        }),
{
}

/// Law of the harvest's stages: with both replies in its favour a harvest is the
/// minting step under the configuration on the ledger, and without them it
/// changes nothing.
pub proof fn law_harvest_is_confirmed_minting(
    ledger: LedgerView,
    current: u32,
    caller: Address,
    ship_id: u64,
    anomaly_index: u32,
    owns_ship: bool,
    has_anomaly: bool,
)
    ensures
        ({
            let after = rules::harvest_post(
                ledger,
                current,
                caller,
                ship_id,
                anomaly_index,
                owns_ship,
                has_anomaly,
            );
            &&& ledger.config() is None || !owns_ship || !has_anomaly ==> after == ledger
            &&& ledger.config() is Some && owns_ship && has_anomaly ==> {
                let config = ledger.config()->0;
                &&& after == rules::mint_post(
                    ledger,
                    config,
                    current,
                    caller,
                    ship_id,
                    anomaly_index,
                )
                &&& rules::harvest_result(
                    ledger,
                    current,
                    ship_id,
                    anomaly_index,
                    owns_ship,
                    has_anomaly,
                ) == rules::mint_result(ledger, config, current, ship_id, anomaly_index)
            }
        }),
{
}

/// Law of minting, while the day window lasts: the amount minted is the smaller
/// of what the anomaly is worth, base award + 10 x index, and what the cap leaves
/// over what the ship has harvested. The window keeps its start, and the ship's
/// count grows by the amount.
pub proof fn law_minting_within_the_window(
    ledger: LedgerView,
    config: Config,
    current: u32,
    caller: Address,
    ship_id: u64,
    anomaly_index: u32,
)
    requires
        current < ledger.harvest_record(ship_id).last_reset_ledger + 17_280,
        rules::harvest_in_range(ledger, config, current, caller, ship_id, anomaly_index),
    ensures
        ({
            let record = ledger.harvest_record(ship_id);
            let worth = config.stardust_per_anomaly + 10 * anomaly_index;
            let left = config.daily_harvest_cap - record.harvested_today;
            let result = rules::mint_result(ledger, config, current, ship_id, anomaly_index);
            let after = rules::mint_post(
                ledger,
                config,
                current,
                caller,
                ship_id,
                anomaly_index,
            );
            &&& left <= 0 <==> result == Err::<i128, ResourceError>(
                ResourceError::DailyCapExceeded,
            )
            &&& left > 0 <==> result is Ok
            &&& result matches Ok(amount) ==> {
                &&& amount <= worth
                &&& amount <= left
                &&& amount == worth || amount == left
                &&& after.harvest_record(ship_id).last_reset_ledger == record.last_reset_ledger
                &&& after.harvest_record(ship_id).harvested_today == record.harvested_today
                    + amount
            }
        }),
{
}

/// Law of minting, once a day has passed since the window started: whatever was
/// harvested before is forgotten, the amount minted is the smaller of what the
/// anomaly is worth and the whole cap, and a new window starts in the ledger of
/// the call, with just that amount counted.
pub proof fn law_minting_starts_a_new_window(
    ledger: LedgerView,
    config: Config,
    current: u32,
    caller: Address,
    ship_id: u64,
    anomaly_index: u32,
)
    requires
        current >= ledger.harvest_record(ship_id).last_reset_ledger + 17_280,
        rules::harvest_in_range(ledger, config, current, caller, ship_id, anomaly_index),
    ensures
        ({
            let worth = config.stardust_per_anomaly + 10 * anomaly_index;
            let cap = config.daily_harvest_cap;
            let result = rules::mint_result(ledger, config, current, ship_id, anomaly_index);
            let after = rules::mint_post(
                ledger,
                config,
                current,
                caller,
                ship_id,
                anomaly_index,
            );
            &&& cap <= 0 <==> result == Err::<i128, ResourceError>(
                ResourceError::DailyCapExceeded,
            )
            &&& cap > 0 <==> result is Ok
            &&& result matches Ok(amount) ==> {
                &&& amount <= worth
                &&& amount <= cap
                &&& amount == worth || amount == cap
                &&& after.harvest_record(ship_id).last_reset_ledger == current
                &&& after.harvest_record(ship_id).harvested_today == amount
            }
        }),
{
}

/// Law of the minting's books: what is answered as minted is added to the
/// caller's stardust and to the total minted, announced with the caller, the ship
/// and the anomaly, and written in that order. No other entry changes, and a
/// refused minting changes none.
pub proof fn law_minting_is_booked(
    ledger: LedgerView,
    config: Config,
    current: u32,
    caller: Address,
    ship_id: u64,
    anomaly_index: u32,
)
    requires
        rules::harvest_in_range(ledger, config, current, caller, ship_id, anomaly_index),
    ensures
        ({
            let stardust = DataKey::Balance(caller, ResourceType::Stardust);
            let total = DataKey::TotalMinted(ResourceType::Stardust);
            let ship = DataKey::HarvestRecord(ship_id);
            let result = rules::mint_result(ledger, config, current, ship_id, anomaly_index);
            let after = rules::mint_post(
                ledger,
                config,
                current,
                caller,
                ship_id,
                anomaly_index,
            );
            &&& result is Err ==> after == ledger
            &&& result matches Ok(amount) ==> {
                &&& after.balance(caller, ResourceType::Stardust) == ledger.balance(
                    caller,
                    ResourceType::Stardust,
                ) + amount
                &&& after.minted(ResourceType::Stardust) == ledger.minted(ResourceType::Stardust)
                    + amount
                &&& after.amounts.contains_key(stardust) && after.amounts.contains_key(total)
                &&& after.amounts.remove(stardust).remove(total) == ledger.amounts.remove(
                    stardust,
                ).remove(total)
                &&& after.harvests == ledger.harvests.insert(ship, after.harvest_record(ship_id))
                &&& after.instance == ledger.instance
                &&& after.stakes == ledger.stakes
                &&& after.events == ledger.events.push(
                    Event::ResourceHarvested { caller, ship_id, anomaly_index, amount },
                )
                &&& after.writes == ledger.writes + seq![
                    Write::SetAmount(stardust, after.amounts[stardust]),
                    Write::SetAmount(total, after.amounts[total]),
                    Write::SetHarvestRecord(ship, after.harvests[ship]),
                ]
            }
        }),
{
    let after = rules::mint_post(ledger, config, current, caller, ship_id, anomaly_index);
    let stardust = DataKey::Balance(caller, ResourceType::Stardust);
    let total = DataKey::TotalMinted(ResourceType::Stardust);
    assert(after.amounts.remove(stardust).remove(total) =~= ledger.amounts.remove(
        stardust,
    ).remove(total));
    if rules::mint_result(ledger, config, current, ship_id, anomaly_index) is Ok {
        assert(after.writes =~= ledger.writes + seq![
            Write::SetAmount(stardust, after.amounts[stardust]),
            Write::SetAmount(total, after.amounts[total]),
            Write::SetHarvestRecord(
                DataKey::HarvestRecord(ship_id),
                after.harvests[DataKey::HarvestRecord(ship_id)],
            ),
        ]);
    }
}

/// Law of the harvest's range: nothing is asked of a harvest but that each of
/// the five numbers it computes can be held in an amount, and nothing at all
/// where the cap is used up.
pub proof fn law_harvest_range(
    ledger: LedgerView,
    config: Config,
    current: u32,
    caller: Address,
    ship_id: u64,
    anomaly_index: u32,
)
    ensures
        ({
            let record = ledger.harvest_record(ship_id);
            let used: int = if current >= record.last_reset_ledger + 17_280 {
                0
            } else {
                record.harvested_today as int
            };
            let worth = config.stardust_per_anomaly + 10 * anomaly_index;
            let left = config.daily_harvest_cap - used;
            let amount = vstd::math::min(worth, left);
            rules::harvest_in_range(ledger, config, current, caller, ship_id, anomaly_index)
                <==> left <= 0 || {
                &&& representable(worth)
                &&& representable(left)
                &&& representable(ledger.balance(caller, ResourceType::Stardust) + amount)
                &&& representable(ledger.minted(ResourceType::Stardust) + amount)
                &&& representable(used + amount)
            }
        }),
{
}

// -- Staking -----------------------------------------------------------------

/// Law of the stake's answer: it is refused for the first of these reasons that
/// applies, and for no other: no configuration, an amount that is not positive, a
/// duration below the minimum, an open position, too low a balance.
pub proof fn law_stake_refusals(
    ledger: LedgerView,
    caller: Address,
    resource_type: ResourceType,
    resource_amount: i128,
    duration_ledgers: u32,
)
    ensures
        ({
            let result = rules::stake_result(
                ledger,
                caller,
                resource_type,
                resource_amount,
                duration_ledgers,
            );
            let ready = ledger.config() is Some;
            let positive = resource_amount > 0;
            let long_enough = duration_ledgers >= ledger.config()->0.min_stake_duration;
            let free = ledger.stake(caller) is None;
            let covered = ledger.balance(caller, resource_type) >= resource_amount;
            &&& result == Err::<(), ResourceError>(ResourceError::NotInitialized) <==> !ready
            &&& result == Err::<(), ResourceError>(ResourceError::InvalidAmount) <==> ready
                && !positive
            &&& result == Err::<(), ResourceError>(ResourceError::InvalidDuration) <==> ready
                && positive && !long_enough
            &&& result == Err::<(), ResourceError>(ResourceError::AlreadyStaked) <==> ready
                && positive && long_enough && !free
            &&& result == Err::<(), ResourceError>(ResourceError::InsufficientResources) <==> ready
                && positive && long_enough && free && !covered
            &&& result == Ok::<(), ResourceError>(()) <==> ready && positive && long_enough && free
                && covered
        }),
{
}

/// Law of the stake: a successful stake in ledger `opened` leaves a position that
/// belongs to the caller, holds the resource, the amount and the duration asked
/// for, and started and was last claimed in `opened`; the amount is gone from the
/// caller's balance in that resource. No other entry changes, and a refused stake
/// changes none.
pub proof fn law_stake_keeps_its_arguments(
    ledger: LedgerView,
    opened: u32,
    caller: Address,
    resource_type: ResourceType,
    resource_amount: i128,
    duration_ledgers: u32,
)
    ensures
        ({
            let result = rules::stake_result(
                ledger,
                caller,
                resource_type,
                resource_amount,
                duration_ledgers,
            );
            let after = rules::stake_post(
                ledger,
                opened,
                caller,
                resource_type,
                resource_amount,
                duration_ledgers,
            );
            let balance = DataKey::Balance(caller, resource_type);
            let place = DataKey::StakeRecord(caller);
            let stake = after.stake(caller)->0;
            &&& result is Err ==> after == ledger
            &&& result is Ok ==> {
                &&& after.stake(caller) is Some
                &&& stake.owner == caller
                &&& stake.resource_type == resource_type
                &&& stake.amount == resource_amount
                &&& stake.start_ledger == opened
                &&& stake.duration_ledgers == duration_ledgers
                &&& stake.last_claim_ledger == opened
                &&& after.balance(caller, resource_type) + resource_amount == ledger.balance(
                    caller,
                    resource_type,
                )
                &&& after.amounts.contains_key(balance)
                &&& after.amounts.remove(balance) == ledger.amounts.remove(balance)
                &&& after.stakes == ledger.stakes.insert(place, stake)
                &&& after.writes == ledger.writes.push(
                    Write::SetAmount(balance, after.amounts[balance]),
                ).push(Write::SetStake(place, stake))
            }
            &&& after.instance == ledger.instance
            &&& after.harvests == ledger.harvests
            &&& after.events == ledger.events
        }),
{
    let after = rules::stake_post(
        ledger,
        opened,
        caller,
        resource_type,
        resource_amount,
        duration_ledgers,
    );
    let balance = DataKey::Balance(caller, resource_type);
    assert(after.amounts.remove(balance) =~= ledger.amounts.remove(balance));
}

// -- Yield -------------------------------------------------------------------

/// Law of the yield: at every moment it is the largest number of whole units
/// that principal x rate x ledgers passed covers, where a unit takes 10 000 basis
/// points over the 6 307 200 ledgers of a year. A negative principal yields what
/// the positive one does, with the sign changed, and no time passed yields
/// nothing.
pub proof fn law_yield_is_pro_rated(stake: StakeRecord, current: u32, apy_bps: u32)
    ensures
        ({
            let y = rules::accrued(stake, current, apy_bps);
            let passed = current - stake.last_claim_ledger;
            &&& passed <= 0 ==> y == 0
            &&& passed >= 0 && stake.amount >= 0 ==> y * 10_000 * 6_307_200 <= stake.amount
                * apy_bps * passed < (y + 1) * 10_000 * 6_307_200
            &&& passed >= 0 && stake.amount <= 0 ==> (y - 1) * 10_000 * 6_307_200 < stake.amount
                * apy_bps * passed <= y * 10_000 * 6_307_200
        }),
{
    let amount: int = stake.amount as int;
    let apy: int = apy_bps as int;
    let passed = current - stake.last_claim_ledger;
    let y = rules::accrued(stake, current, apy_bps);
    let yearly = amount * apy;
    if passed >= 0 {
        assert(rules::elapsed(stake, current) == passed);
        assert(amount >= 0 ==> yearly * passed >= 0) by (nonlinear_arith)
            requires
                yearly == amount * apy,
                apy >= 0,
                passed >= 0,
        ;
        assert(amount <= 0 ==> yearly * passed <= 0) by (nonlinear_arith)
            requires
                yearly == amount * apy,
                apy >= 0,
                passed >= 0,
        ;
    }
}

/// Law of the range of yield: nothing is asked of a yield but that both products
/// on the way to it can be held in an amount, and nothing where no time has
/// passed.
pub proof fn law_yield_range(stake: StakeRecord, current: u32, apy_bps: u32)
    ensures
        rules::yield_in_range(stake, current, apy_bps) <==> current <= stake.last_claim_ledger || {
            &&& representable(stake.amount * apy_bps)
            &&& representable(stake.amount * apy_bps * (current - stake.last_claim_ledger))
        },
{
}

/// Law of the pending yield's answer: it is refused for want of a configuration,
/// else for want of a position, and for no other reason; what it answers is the
/// pro-rated yield on the position at the configured rate. Nothing is asked of it
/// but the range of that yield.
pub proof fn law_pending_yield(ledger: LedgerView, current: u32, owner: Address)
    ensures
        ({
            let result = rules::pending_result(ledger, current, owner);
            let stake = ledger.stake(owner)->0;
            let apy_bps = ledger.config()->0.apy_basis_points;
            let passed = current - stake.last_claim_ledger;
            let earned = stake.amount * apy_bps * passed;
            &&& result == Err::<i128, ResourceError>(ResourceError::NotInitialized)
                <==> ledger.config() is None
            &&& result == Err::<i128, ResourceError>(ResourceError::StakeNotFound)
                <==> ledger.config() is Some && ledger.stake(owner) is None
            &&& result is Ok <==> ledger.config() is Some && ledger.stake(owner) is Some
            &&& result is Ok && rules::pending_in_range(ledger, current, owner) ==> {
                let y = result->Ok_0;
                &&& passed <= 0 ==> y == 0
                &&& passed >= 0 && stake.amount >= 0 ==> y * 10_000 * 6_307_200 <= earned < (y + 1)
                    * 10_000 * 6_307_200
                &&& passed >= 0 && stake.amount <= 0 ==> (y - 1) * 10_000 * 6_307_200 < earned <= y
                    * 10_000 * 6_307_200
            }
            &&& rules::pending_in_range(ledger, current, owner) <==> result is Err || passed <= 0
                || representable(stake.amount * apy_bps) && representable(earned)
        }),
{
    if ledger.config() is Some && ledger.stake(owner) is Some {
        let stake = ledger.stake(owner)->0;
        law_yield_is_pro_rated(stake, current, ledger.config()->0.apy_basis_points);
        law_yield_range(stake, current, ledger.config()->0.apy_basis_points);
    }
}

/// Law of accrual from the start: after a successful stake in ledger `opened`,
/// the pending yield in any ledger `t` from then on is the amount that was staked
/// x the rate x the ledgers since `opened`, pro-rated. The duration asked for
/// does not matter.
pub proof fn law_stake_accrues_from_the_start(
    ledger: LedgerView,
    opened: u32,
    t: u32,
    caller: Address,
    resource_type: ResourceType,
    resource_amount: i128,
    duration_ledgers: u32,
)
    requires
        rules::stake_result(ledger, caller, resource_type, resource_amount, duration_ledgers)
            is Ok,
        opened <= t,
        representable(
            resource_amount * ledger.config()->0.apy_basis_points * (t - opened),
        ),
    ensures
        ({
            let staked = rules::stake_post(
                ledger,
                opened,
                caller,
                resource_type,
                resource_amount,
                duration_ledgers,
            );
            let earned = resource_amount * ledger.config()->0.apy_basis_points * (t - opened);
            &&& rules::pending_in_range(staked, t, caller)
            &&& rules::pending_result(staked, t, caller) matches Ok(y)
            &&& y * 10_000 * 6_307_200 <= earned < (y + 1) * 10_000 * 6_307_200
        }),
{
    let staked = rules::stake_post(
        ledger,
        opened,
        caller,
        resource_type,
        resource_amount,
        duration_ledgers,
    );
    let yearly = resource_amount * ledger.config()->0.apy_basis_points;
    let passed = t - opened;
    assert(0 <= yearly) by (nonlinear_arith)
        requires
            yearly == resource_amount * ledger.config()->0.apy_basis_points,
            resource_amount > 0,
            ledger.config()->0.apy_basis_points >= 0,
    ;
    assert(passed > 0 ==> yearly <= yearly * passed) by (nonlinear_arith)
        requires
            yearly >= 0,
    ;
    law_stake_keeps_its_arguments(
        ledger,
        opened,
        caller,
        resource_type,
        resource_amount,
        duration_ledgers,
    );
    law_pending_yield(staked, t, caller);
}

/// Law of the claim: a claim that pays adds what it answers to the caller's
/// plasma, announces it with the principal and the ledger, and moves the
/// position's last claim to the ledger of the call. No other entry and nothing
/// else of the position changes; a claim that is refused or has nothing to pay
/// changes nothing at all.
pub proof fn law_claim_is_booked(ledger: LedgerView, current: u32, caller: Address)
    requires
        rules::claim_in_range(ledger, current, caller),
    ensures
        ({
            let result = rules::pending_result(ledger, current, caller);
            let after = rules::claim_post(ledger, current, caller);
            let plasma = DataKey::Balance(caller, ResourceType::Plasma);
            let place = DataKey::StakeRecord(caller);
            let stake = ledger.stake(caller)->0;
            &&& result is Err ==> after == ledger
            &&& result is Ok && result->Ok_0 <= 0 ==> after == ledger
            &&& result is Ok && result->Ok_0 > 0 ==> {
                let y = result->Ok_0;
                let claimed = after.stake(caller)->0;
                &&& after.balance(caller, ResourceType::Plasma) == ledger.balance(
                    caller,
                    ResourceType::Plasma,
                ) + y
                &&& after.amounts.contains_key(plasma)
                &&& after.amounts.remove(plasma) == ledger.amounts.remove(plasma)
                &&& after.stake(caller) is Some
                &&& claimed.owner == stake.owner
                &&& claimed.resource_type == stake.resource_type
                &&& claimed.amount == stake.amount
                &&& claimed.start_ledger == stake.start_ledger
                &&& claimed.duration_ledgers == stake.duration_ledgers
                &&& claimed.last_claim_ledger == current
                &&& after.stakes == ledger.stakes.insert(place, claimed)
                &&& after.instance == ledger.instance
                &&& after.harvests == ledger.harvests
                &&& after.events == ledger.events.push(
                    Event::YieldClaimed {
                        caller,
                        staked_amount: stake.amount,
                        yield_amount: y,
                        ledger: current,
                    },
                )
                &&& after.writes == ledger.writes.push(
                    Write::SetAmount(plasma, after.amounts[plasma]),
                ).push(Write::SetStake(place, claimed))
            }
        }),
{
    let after = rules::claim_post(ledger, current, caller);
    let plasma = DataKey::Balance(caller, ResourceType::Plasma);
    if ledger.config() is Some && ledger.stake(caller) is Some {
        law_yield_is_pro_rated(
            ledger.stake(caller)->0,
            current,
            ledger.config()->0.apy_basis_points,
        );
    }
    assert(after.amounts.remove(plasma) =~= ledger.amounts.remove(plasma));
}

/// Law of the claim's range: nothing is asked of a claim but the range of the
/// pending yield, and that a balance can hold the plasma it pays.
pub proof fn law_claim_range(ledger: LedgerView, current: u32, caller: Address)
    ensures
        ({
            let plasma = ledger.balance(caller, ResourceType::Plasma);
            let result = rules::pending_result(ledger, current, caller);
            rules::claim_in_range(ledger, current, caller) <==> rules::pending_in_range(
                ledger,
                current,
                caller,
            ) && (result is Ok && result->Ok_0 > 0 ==> representable(
                plasma + result->Ok_0,
            ))
        }),
{
    if ledger.config() is Some && ledger.stake(caller) is Some {
        law_yield_is_pro_rated(
            ledger.stake(caller)->0,
            current,
            ledger.config()->0.apy_basis_points,
        );
    }
}

// -- Unstaking ---------------------------------------------------------------

/// Law of the unstaking's answer: it is refused for the first of these reasons
/// that applies, and for no other: no configuration, no position, fewer ledgers
/// since the position was opened than the configured minimum. What it answers is
/// the principal, whether or not and whenever yield was claimed.
pub proof fn law_unstake_answer(ledger: LedgerView, current: u32, caller: Address)
    ensures
        ({
            let result = rules::unstake_result(ledger, current, caller);
            let ready = ledger.config() is Some;
            let open = ledger.stake(caller) is Some;
            let stake = ledger.stake(caller)->0;
            let waited = current >= stake.start_ledger + ledger.config()->0.min_stake_duration;
            &&& result == Err::<i128, ResourceError>(ResourceError::NotInitialized) <==> !ready
            &&& result == Err::<i128, ResourceError>(ResourceError::StakeNotFound) <==> ready
                && !open
            &&& result == Err::<i128, ResourceError>(ResourceError::TimeLockActive) <==> ready
                && open && !waited
            &&& result is Ok <==> ready && open && waited
            &&& result matches Ok(amount) ==> amount == stake.amount
        }),
{
}

/// Law of claims and the time lock: a claim at any time changes nothing about
/// when a position can be closed or what comes back then.
pub proof fn law_claims_do_not_extend_the_lock(
    ledger: LedgerView,
    claimed: u32,
    closed: u32,
    caller: Address,
)
    ensures
        rules::unstake_result(rules::claim_post(ledger, claimed, caller), closed, caller)
            == rules::unstake_result(ledger, closed, caller),
{
}

/// Law of the unstaking: a successful one removes the position, gives the
/// principal back in the resource it was taken from, and pays on top, in plasma,
/// exactly the yield that was pending, with an announcement if there was any. No
/// other entry changes, and a refused one changes none.
pub proof fn law_unstake_is_booked(ledger: LedgerView, current: u32, caller: Address)
    requires
        rules::unstake_in_range(ledger, current, caller),
    ensures
        ({
            let result = rules::unstake_result(ledger, current, caller);
            let pending = rules::pending_result(ledger, current, caller)->Ok_0;
            let after = rules::unstake_post(ledger, current, caller);
            let place = DataKey::StakeRecord(caller);
            let stake = ledger.stake(caller)->0;
            let plasma = DataKey::Balance(caller, ResourceType::Plasma);
            let back = DataKey::Balance(caller, stake.resource_type);
            let paid: int = if pending > 0 {
                pending as int
            } else {
                0
            };
            &&& result is Err ==> after == ledger
            &&& result is Ok ==> {
                &&& after.stake(caller) is None
                &&& after.stakes == ledger.stakes.remove(place)
                &&& forall|kind: ResourceType| #[trigger]
                    after.balance(caller, kind) == ledger.balance(caller, kind) + (
                    if kind == stake.resource_type {
                        stake.amount as int
                    } else {
                        0
                    }) + (if kind is Plasma {
                        paid
                    } else {
                        0
                    })
                &&& after.amounts.contains_key(back)
                &&& paid > 0 ==> after.amounts.contains_key(plasma)
                &&& after.amounts.remove(back).remove(plasma) == ledger.amounts.remove(
                    back,
                ).remove(plasma)
                &&& paid == 0 ==> after.amounts.remove(back) == ledger.amounts.remove(back)
                &&& after.instance == ledger.instance
                &&& after.harvests == ledger.harvests
                &&& after.events == ledger.events + (if paid > 0 {
                    seq![
                        Event::YieldClaimed {
                            caller,
                            staked_amount: stake.amount,
                            yield_amount: pending,
                            ledger: current,
                        },
                    ]
                } else {
                    seq![]
                })
                &&& after.writes == ledger.writes + (if paid > 0 {
                    seq![
                        Write::SetAmount(
                            plasma,
                            (ledger.balance(caller, ResourceType::Plasma) + paid) as i128,
                        ),
                    ]
                } else {
                    seq![]
                }) + seq![
                    Write::SetAmount(back, after.amounts[back]),
                    Write::RemoveStake(place),
                ]
            }
        }),
{
    let after = rules::unstake_post(ledger, current, caller);
    let stake = ledger.stake(caller)->0;
    let plasma = DataKey::Balance(caller, ResourceType::Plasma);
    let back = DataKey::Balance(caller, stake.resource_type);
    if rules::unstake_result(ledger, current, caller) is Ok {
        law_yield_is_pro_rated(stake, current, ledger.config()->0.apy_basis_points);
        assert(after.amounts.remove(back).remove(plasma) =~= ledger.amounts.remove(back).remove(
            plasma,
        ));
        if rules::accrued(stake, current, ledger.config()->0.apy_basis_points) <= 0 {
            assert(after.amounts.remove(back) =~= ledger.amounts.remove(back));
        }
    }
}

/// Law of the unstaking's range: nothing is asked of a position whose time lock
/// has expired but the range of the claim, and that a balance can hold what it
/// has, what is claimed into it and the principal; nothing at all is asked of any
/// other.
pub proof fn law_unstake_range(ledger: LedgerView, current: u32, caller: Address)
    ensures
        ({
            let pending = rules::pending_result(ledger, current, caller)->Ok_0;
            let stake = ledger.stake(caller)->0;
            let paid: int = if pending > 0 && stake.resource_type is Plasma {
                pending as int
            } else {
                0
            };
            rules::unstake_in_range(ledger, current, caller) <==> rules::unstake_result(
                ledger,
                current,
                caller,
            ) is Err || rules::claim_in_range(ledger, current, caller) && representable(
                ledger.balance(caller, stake.resource_type) + paid + stake.amount,
            )
        }),
{
    if ledger.config() is Some && ledger.stake(caller) is Some {
        law_yield_is_pro_rated(
            ledger.stake(caller)->0,
            current,
            ledger.config()->0.apy_basis_points,
        );
    }
}

// -- Administration ----------------------------------------------------------

/// Law of the updates: with a configuration they succeed and set just the rate
/// they are for, to just the value given, whatever it is; without one they are
/// refused. Nothing else on the ledger changes.
pub proof fn law_updates(ledger: LedgerView, new_cap: i128, new_apy_bps: u32)
    ensures
        ({
            let result = rules::update_result(ledger);
            let capped = rules::update_daily_cap_post(ledger, new_cap);
            let rated = rules::update_apy_post(ledger, new_apy_bps);
            let config = ledger.config()->0;
            let with_cap = Config { daily_harvest_cap: new_cap, ..config };
            let with_apy = Config { apy_basis_points: new_apy_bps, ..config };
            &&& result == Ok::<(), ResourceError>(()) <==> ledger.config() is Some
            &&& result == Err::<(), ResourceError>(ResourceError::NotInitialized)
                <==> ledger.config() is None
            &&& ledger.config() is None ==> capped == ledger && rated == ledger
            &&& ledger.config() is Some ==> {
                &&& capped.config() == Some(with_cap)
                &&& rated.config() == Some(with_apy)
                &&& capped.instance == ledger.instance.insert(DataKey::Config, with_cap)
                &&& rated.instance == ledger.instance.insert(DataKey::Config, with_apy)
                &&& capped.writes == ledger.writes.push(
                    Write::SetConfig(DataKey::Config, with_cap),
                )
                &&& rated.writes == ledger.writes.push(
                    Write::SetConfig(DataKey::Config, with_apy),
                )
            }
            &&& capped.harvests == ledger.harvests && rated.harvests == ledger.harvests
            &&& capped.stakes == ledger.stakes && rated.stakes == ledger.stakes
            &&& capped.amounts == ledger.amounts && rated.amounts == ledger.amounts
            &&& capped.events == ledger.events && rated.events == ledger.events
        }),
{
}

// -- The ledger itself -------------------------------------------------------

/// Law of the blank ledger: it has no entries, no writes and no events, so there
/// is no configuration, no position and no balance, and no ship has harvested.
pub proof fn law_blank_ledger(
    owner: Address,
    resource_type: ResourceType,
    ship_id: u64,
    key: DataKey,
)
    ensures
        ({
            let blank = LedgerView::empty();
            &&& !blank.instance.contains_key(key)
            &&& !blank.harvests.contains_key(key)
            &&& !blank.stakes.contains_key(key)
            &&& !blank.amounts.contains_key(key)
            &&& blank.writes.len() == 0
            &&& blank.events.len() == 0
            &&& blank.config() is None
            &&& blank.stake(owner) is None
            &&& blank.balance(owner, resource_type) == 0
            &&& blank.minted(resource_type) == 0
            &&& blank.harvest_record(ship_id).last_reset_ledger == 0
            &&& blank.harvest_record(ship_id).harvested_today == 0
        }),
{
}

/// Law of reading: every entry is read from its own key just as it is filed
/// there; an amount that is not filed is zero, and a harvest record that is not
/// filed is blank.
pub proof fn law_reading(
    ledger: LedgerView,
    owner: Address,
    resource_type: ResourceType,
    ship_id: u64,
)
    ensures
        ({
            let settings = DataKey::Config;
            let place = DataKey::StakeRecord(owner);
            let ship = DataKey::HarvestRecord(ship_id);
            let balance = DataKey::Balance(owner, resource_type);
            let total = DataKey::TotalMinted(resource_type);
            &&& ledger.config() is Some <==> ledger.instance.contains_key(settings)
            &&& ledger.config() matches Some(config) ==> config == ledger.instance[settings]
            &&& ledger.stake(owner) is Some <==> ledger.stakes.contains_key(place)
            &&& ledger.stake(owner) matches Some(stake) ==> stake == ledger.stakes[place]
            &&& ledger.harvests.contains_key(ship) ==> ledger.harvest_record(ship_id)
                == ledger.harvests[ship]
            &&& !ledger.harvests.contains_key(ship) ==> ledger.harvest_record(ship_id) == (
            HarvestRecord { last_reset_ledger: 0, harvested_today: 0 })
            &&& ledger.amounts.contains_key(balance) ==> ledger.balance(owner, resource_type)
                == ledger.amounts[balance]
            &&& !ledger.amounts.contains_key(balance) ==> ledger.balance(owner, resource_type) == 0
            &&& ledger.amounts.contains_key(total) ==> ledger.minted(resource_type)
                == ledger.amounts[total]
            &&& !ledger.amounts.contains_key(total) ==> ledger.minted(resource_type) == 0
        }),
{
}

/// Law of reading any amount: it is the filed one, or zero.
pub proof fn law_reading_amounts(ledger: LedgerView, key: DataKey)
    ensures
        ledger.amounts.contains_key(key) ==> ledger.amount(key) == ledger.amounts[key],
        !ledger.amounts.contains_key(key) ==> ledger.amount(key) == 0,
{
}

/// Law of writing: a write changes the entry that it names, to the value that it
/// carries, is logged as it is, and touches nothing else.
pub proof fn law_writing(
    ledger: LedgerView,
    key: DataKey,
    config: Config,
    record: HarvestRecord,
    stake: StakeRecord,
    amount: i128,
)
    ensures
        ({
            let write = Write::SetConfig(key, config);
            ledger.after(write) == (LedgerView {
                instance: ledger.instance.insert(key, config),
                writes: ledger.writes.push(write),
                ..ledger
            })
        }),
        ({
            let write = Write::SetHarvestRecord(key, record);
            ledger.after(write) == (LedgerView {
                harvests: ledger.harvests.insert(key, record),
                writes: ledger.writes.push(write),
                ..ledger
            })
        }),
        ({
            let write = Write::SetStake(key, stake);
            ledger.after(write) == (LedgerView {
                stakes: ledger.stakes.insert(key, stake),
                writes: ledger.writes.push(write),
                ..ledger
            })
        }),
        ({
            let write = Write::RemoveStake(key);
            ledger.after(write) == (LedgerView {
                stakes: ledger.stakes.remove(key),
                writes: ledger.writes.push(write),
                ..ledger
            })
        }),
        ({
            let write = Write::SetAmount(key, amount);
            ledger.after(write) == (LedgerView {
                amounts: ledger.amounts.insert(key, amount),
                writes: ledger.writes.push(write),
                ..ledger
            })
        }),
{
}

/// Law of publishing: an event is put after the earlier ones as it is, and
/// touches nothing else.
pub proof fn law_publishing(ledger: LedgerView, event: Event)
    ensures
        ledger.with_event(event) == (LedgerView { events: ledger.events.push(event), ..ledger }),
{
}

/// Law of topics: harvests and claims are each published under their own topic.
pub proof fn law_topics(event: Event)
    ensures
        event is ResourceHarvested ==> event.spec_topic() == "res_harv"@,
        event is YieldClaimed ==> event.spec_topic() == "yld_claim"@,
{
}

/// Law of the view: a ledger stands for just the entries, the writes and the
/// events that it holds.
pub proof fn law_ledger_view(ledger: Ledger)
    ensures
        ledger@.instance == ledger.instance@,
        ledger@.harvests == ledger.harvests@,
        ledger@.stakes == ledger.stakes@,
        ledger@.amounts == ledger.amounts@,
        ledger@.writes == ledger.writes@,
        ledger@.events == ledger.events@,
{
}

/// Law of authorisation: an address has authorised a call exactly if it is among
/// those that were recorded as doing so.
pub proof fn law_authorisation(call: Invocation, address: Address)
    ensures
        call.authorized_by(address) <==> call.signers().contains(address),
{
}

} // verus!
