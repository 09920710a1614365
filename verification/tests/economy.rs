use stellar_nebula_nomad::invocation::{Address, Invocation};
use stellar_nebula_nomad::ledger::{Event, Ledger, Write};
use stellar_nebula_nomad::resource_minter::{
    Config, DataKey, HarvestRecord, HarvestStage, HarvestStep, PendingHarvest, QueryArgument,
    ResourceError, ResourceMinter, ResourceType, StakeRecord, LEDGERS_PER_DAY, LEDGERS_PER_YEAR,
};

const ADMIN: Address = Address { id: 1 };
const SHIPS: Address = Address { id: 2 };
const NEBULA: Address = Address { id: 3 };
const ALICE: Address = Address { id: 10 };
const BOB: Address = Address { id: 11 };

fn call_in(sequence: u32) -> Invocation {
    let mut call = Invocation::new(sequence);
    for address in [ADMIN, ALICE, BOB] {
        call.authorize(address);
    }
    call
}

fn initialised(apy: u32, cap: i128, min_stake: u32) -> Ledger {
    let mut ledger = Ledger::new();
    ResourceMinter::init(&mut ledger, &call_in(0), ADMIN, SHIPS, NEBULA, apy, cap, min_stake)
        .unwrap();
    ledger
}

fn harvest(
    ledger: &mut Ledger,
    sequence: u32,
    caller: Address,
    ship_id: u64,
    anomaly_index: u32,
) -> Result<i128, ResourceError> {
    ResourceMinter::harvest_resource(
        ledger,
        &call_in(sequence),
        caller,
        ship_id,
        anomaly_index,
        true,
        true,
    )
}

fn total_minted(ledger: &Ledger) -> i128 {
    ledger.amount(DataKey::TotalMinted(ResourceType::Stardust))
}

fn position(amount: i128, last_claim_ledger: u32) -> StakeRecord {
    StakeRecord {
        owner: ALICE,
        resource_type: ResourceType::Stardust,
        amount,
        start_ledger: last_claim_ledger,
        duration_ledgers: LEDGERS_PER_DAY,
        last_claim_ledger,
    }
}

#[test]
fn init_fixes_the_configuration() {
    let ledger = initialised(500, 1_000, 7);
    let expected = Config {
        admin: ADMIN,
        ship_contract: SHIPS,
        nebula_contract: NEBULA,
        apy_basis_points: 500,
        daily_harvest_cap: 1_000,
        min_stake_duration: 7,
        stardust_per_anomaly: 100,
    };
    assert_eq!(ResourceMinter::get_config(&ledger), Some(expected));
    assert_eq!(ResourceMinter::require_config(&ledger), Ok(expected));
}

#[test]
fn everything_but_init_needs_init() {
    let mut ledger = Ledger::new();
    let call = call_in(1);
    let refused = ResourceError::NotInitialized;
    assert_eq!(ResourceMinter::get_config(&ledger), None);
    assert_eq!(ResourceMinter::require_config(&ledger), Err(refused));
    assert_eq!(harvest(&mut ledger, 1, ALICE, 1, 0), Err(refused));
    assert_eq!(
        ResourceMinter::stake_for_yield(&mut ledger, &call, ALICE, ResourceType::Plasma, 0, 0),
        Err(refused)
    );
    assert_eq!(ResourceMinter::claim_yield(&mut ledger, &call, ALICE), Err(refused));
    assert_eq!(ResourceMinter::unstake(&mut ledger, &call, ALICE), Err(refused));
    assert_eq!(ResourceMinter::get_pending_yield(&ledger, &call, ALICE), Err(refused));
    assert_eq!(ResourceMinter::update_daily_cap(&mut ledger, &call, 1), Err(refused));
    assert_eq!(ResourceMinter::update_apy(&mut ledger, &call, 1), Err(refused));
    assert!(ledger.writes.is_empty());
    assert!(ledger.events.is_empty());
}

#[test]
fn harvest_asks_the_registry_then_the_explorer() {
    let mut ledger = initialised(500, 1_000, 0);
    let call = call_in(1);
    let first = match ResourceMinter::begin_harvest(&ledger, &call, ALICE, 7, 4) {
        HarvestStep::Waiting(pending) => pending,
        HarvestStep::Finished(result) => panic!("finished with {:?}", result),
    };
    assert_eq!(first.stage, HarvestStage::Ownership);
    let query = first.query();
    assert_eq!(query.contract, SHIPS);
    assert_eq!(query.function, "owns_ship");
    assert_eq!(query.arguments, vec![QueryArgument::Address(ALICE), QueryArgument::U64(7)]);

    let second = match ResourceMinter::resume_harvest(&mut ledger, &call, first, true) {
        HarvestStep::Waiting(pending) => pending,
        HarvestStep::Finished(result) => panic!("finished with {:?}", result),
    };
    assert_eq!(second, PendingHarvest { stage: HarvestStage::Anomaly, ..first });
    let query = second.query();
    assert_eq!(query.contract, NEBULA);
    assert_eq!(query.function, "has_anomaly");
    assert_eq!(query.arguments, vec![QueryArgument::U64(7), QueryArgument::U32(4)]);

    assert!(ResourceMinter::harvest_fits(&ledger, &call, &second));
    assert_eq!(
        ResourceMinter::resume_harvest(&mut ledger, &call, second, true),
        HarvestStep::Finished(Ok(140))
    );
    assert_eq!(ResourceMinter::get_balance(&ledger, ALICE, ResourceType::Stardust), 140);
}

#[test]
fn harvest_refused_by_other_contracts() {
    let mut ledger = initialised(500, 1_000, 0);
    let call = call_in(1);
    for has_anomaly in [false, true] {
        assert_eq!(
            ResourceMinter::harvest_resource(&mut ledger, &call, ALICE, 1, 0, false, has_anomaly),
            Err(ResourceError::ShipNotOwned)
        );
    }
    assert_eq!(
        ResourceMinter::harvest_resource(&mut ledger, &call, ALICE, 1, 0, true, false),
        Err(ResourceError::AnomalyNotScanned)
    );
    assert_eq!(ResourceMinter::get_balance(&ledger, ALICE, ResourceType::Stardust), 0);
    // The one write is that of `init`.
    assert_eq!(ledger.writes.len(), 1);
    assert!(ledger.events.is_empty());
}

#[test]
fn harvest_books_everything_it_mints() {
    let mut ledger = initialised(500, 1_000, 0);
    assert_eq!(harvest(&mut ledger, 20_000, ALICE, 9, 3), Ok(130));
    assert_eq!(ResourceMinter::get_balance(&ledger, ALICE, ResourceType::Stardust), 130);
    assert_eq!(total_minted(&ledger), 130);
    assert_eq!(
        ledger.harvest_record(9),
        HarvestRecord { last_reset_ledger: 20_000, harvested_today: 130 }
    );
    assert_eq!(
        ledger.events,
        vec![Event::ResourceHarvested { caller: ALICE, ship_id: 9, anomaly_index: 3, amount: 130 }]
    );
    assert_eq!(ledger.events[0].topic(), "res_harv");
}

#[test]
fn every_write_is_logged_in_order() {
    let mut ledger = initialised(500, 1_000, 10);
    let stardust = DataKey::Balance(ALICE, ResourceType::Stardust);
    let plasma = DataKey::Balance(ALICE, ResourceType::Plasma);
    ledger.writes.clear();
    harvest(&mut ledger, 1, ALICE, 9, 0).unwrap();
    assert_eq!(
        ledger.writes,
        vec![
            Write::SetAmount(stardust, 100),
            Write::SetAmount(DataKey::TotalMinted(ResourceType::Stardust), 100),
            Write::SetHarvestRecord(
                DataKey::HarvestRecord(9),
                HarvestRecord { last_reset_ledger: 0, harvested_today: 100 },
            ),
        ]
    );
    ledger.writes.clear();
    let call = call_in(2);
    ResourceMinter::stake_for_yield(&mut ledger, &call, ALICE, ResourceType::Stardust, 100, 10)
        .unwrap();
    let stake = ResourceMinter::get_stake(&ledger, ALICE).unwrap();
    assert_eq!(
        ledger.writes,
        vec![
            Write::SetAmount(stardust, 0),
            Write::SetStake(DataKey::StakeRecord(ALICE), stake),
        ]
    );
    ledger.writes.clear();
    let call = call_in(2 + LEDGERS_PER_YEAR as u32);
    ResourceMinter::unstake(&mut ledger, &call, ALICE).unwrap();
    assert_eq!(
        ledger.writes,
        vec![
            Write::SetAmount(plasma, 5),
            Write::SetAmount(stardust, 100),
            Write::RemoveStake(DataKey::StakeRecord(ALICE)),
        ]
    );
    // Carried out on another ledger, the writes give the same entries.
    let mut copy = Ledger::new();
    for write in [
        Write::SetAmount(plasma, 5),
        Write::SetAmount(stardust, 100),
        Write::RemoveStake(DataKey::StakeRecord(ALICE)),
    ] {
        copy.write(write);
    }
    assert_eq!(copy.amount(plasma), 5);
    assert_eq!(copy.amount(stardust), 100);
    assert_eq!(copy.stakes.get(DataKey::StakeRecord(ALICE)), None);
}

#[test]
fn entries_of_others_decide_nothing() {
    let mut small = initialised(500, 1_000, 10);
    let mut large = initialised(500, 1_000, 10);
    harvest(&mut large, 0, BOB, 2, 5).unwrap();
    large.amounts.set(DataKey::TotalMinted(ResourceType::Stardust), 0);
    small.writes.clear();
    large.writes.clear();
    assert_eq!(harvest(&mut small, 3, ALICE, 1, 1), harvest(&mut large, 3, ALICE, 1, 1));
    assert_eq!(small.writes, large.writes);
}

#[test]
fn window_resets_exactly_after_a_day() {
    let mut ledger = initialised(500, 100, 0);
    assert_eq!(harvest(&mut ledger, 30_000, ALICE, 1, 0), Ok(100));
    assert_eq!(
        harvest(&mut ledger, 30_000 + LEDGERS_PER_DAY - 1, ALICE, 1, 0),
        Err(ResourceError::DailyCapExceeded)
    );
    // A refused harvest leaves the window as it was.
    assert_eq!(ledger.harvest_record(1).last_reset_ledger, 30_000);
    assert_eq!(harvest(&mut ledger, 30_000 + LEDGERS_PER_DAY, ALICE, 1, 0), Ok(100));
    // A ledger before the last reset does not reset the window.
    assert_eq!(harvest(&mut ledger, 5, ALICE, 1, 0), Err(ResourceError::DailyCapExceeded));
}

#[test]
fn cap_of_a_window_is_never_exceeded() {
    let mut ledger = initialised(500, 1_000, 0);
    let mut total: i128 = 0;
    for index in 0..12 {
        total += harvest(&mut ledger, 100 + index, ALICE, 1, index).unwrap_or(0);
    }
    assert_eq!(total, 1_000);
    assert_eq!(ledger.harvest_record(1).harvested_today, 1_000);
}

#[test]
fn lowered_or_negative_cap_blocks_harvests() {
    let mut ledger = initialised(500, 1_000, 0);
    assert_eq!(harvest(&mut ledger, 1, ALICE, 1, 0), Ok(100));
    ResourceMinter::update_daily_cap(&mut ledger, &call_in(1), 50).unwrap();
    assert_eq!(harvest(&mut ledger, 1, ALICE, 1, 0), Err(ResourceError::DailyCapExceeded));
    assert_eq!(harvest(&mut ledger, 1, ALICE, 2, 0), Ok(50));
    ResourceMinter::update_daily_cap(&mut ledger, &call_in(1), -1).unwrap();
    assert_eq!(harvest(&mut ledger, 1, ALICE, 3, 0), Err(ResourceError::DailyCapExceeded));
}

#[test]
fn largest_anomaly_index() {
    let mut ledger = initialised(0, i128::MAX, 0);
    assert_eq!(harvest(&mut ledger, 1, ALICE, 1, u32::MAX), Ok(100 + 10 * 4_294_967_295));
}

#[test]
fn harvest_fits_notices_overflow() {
    let mut ledger = initialised(0, i128::MAX, 0);
    let call = call_in(1);
    let pending = PendingHarvest {
        stage: HarvestStage::Anomaly,
        config: ResourceMinter::get_config(&ledger).unwrap(),
        caller: ALICE,
        ship_id: 1,
        anomaly_index: 0,
    };
    assert!(ResourceMinter::harvest_fits(&ledger, &call, &pending));
    ledger.amounts.set(DataKey::Balance(ALICE, ResourceType::Stardust), i128::MAX - 99);
    assert!(!ResourceMinter::harvest_fits(&ledger, &call, &pending));
    ledger.amounts.set(DataKey::Balance(ALICE, ResourceType::Stardust), i128::MAX - 100);
    assert!(ResourceMinter::harvest_fits(&ledger, &call, &pending));
    ledger.amounts.set(DataKey::TotalMinted(ResourceType::Stardust), i128::MAX);
    assert!(!ResourceMinter::harvest_fits(&ledger, &call, &pending));
}

#[test]
fn stake_opens_a_position() {
    let mut ledger = initialised(500, 1_000, 10);
    harvest(&mut ledger, 1, ALICE, 1, 0).unwrap();
    let call = call_in(42);
    ResourceMinter::stake_for_yield(&mut ledger, &call, ALICE, ResourceType::Stardust, 60, 10)
        .unwrap();
    assert_eq!(
        ResourceMinter::get_stake(&ledger, ALICE),
        Some(StakeRecord {
            owner: ALICE,
            resource_type: ResourceType::Stardust,
            amount: 60,
            start_ledger: 42,
            duration_ledgers: 10,
            last_claim_ledger: 42,
        })
    );
    assert_eq!(ResourceMinter::get_balance(&ledger, ALICE, ResourceType::Stardust), 40);
    assert_eq!(ResourceMinter::get_stake(&ledger, BOB), None);
}

#[test]
fn stake_checks_in_order() {
    let mut ledger = initialised(500, 1_000, 10);
    let call = call_in(1);
    let stardust = ResourceType::Stardust;
    assert_eq!(
        ResourceMinter::stake_for_yield(&mut ledger, &call, ALICE, stardust, -1, 0),
        Err(ResourceError::InvalidAmount)
    );
    assert_eq!(
        ResourceMinter::stake_for_yield(&mut ledger, &call, ALICE, stardust, 1, 9),
        Err(ResourceError::InvalidDuration)
    );
    assert_eq!(
        ResourceMinter::stake_for_yield(&mut ledger, &call, ALICE, stardust, 1, 10),
        Err(ResourceError::InsufficientResources)
    );
    harvest(&mut ledger, 1, ALICE, 1, 0).unwrap();
    ResourceMinter::stake_for_yield(&mut ledger, &call, ALICE, stardust, 100, 10).unwrap();
    assert_eq!(
        ResourceMinter::stake_for_yield(&mut ledger, &call, ALICE, stardust, 1_000, 10),
        Err(ResourceError::AlreadyStaked)
    );
}

#[test]
fn claim_and_unstake_need_a_position() {
    let mut ledger = initialised(500, 1_000, 10);
    let call = call_in(1);
    let missing = ResourceError::StakeNotFound;
    assert_eq!(ResourceMinter::claim_yield(&mut ledger, &call, ALICE), Err(missing));
    assert_eq!(ResourceMinter::get_pending_yield(&ledger, &call, ALICE), Err(missing));
    assert_eq!(ResourceMinter::unstake(&mut ledger, &call, ALICE), Err(missing));
}

#[test]
fn yield_formula() {
    let year = LEDGERS_PER_YEAR as u32;
    assert_eq!(year, 6_307_200);
    assert_eq!(ResourceMinter::calculate_yield(&position(100, 0), year, 500), 5);
    assert_eq!(ResourceMinter::calculate_yield(&position(100, 10), year + 10, 500), 5);
    assert_eq!(ResourceMinter::calculate_yield(&position(100, 0), year / 5, 500), 1);
    assert_eq!(ResourceMinter::calculate_yield(&position(100, 0), year / 5 - 1, 500), 0);
    assert_eq!(ResourceMinter::calculate_yield(&position(12_345, 0), year / 2, 777), 479);
    assert_eq!(ResourceMinter::calculate_yield(&position(100, 9), 9, 500), 0);
    assert_eq!(ResourceMinter::calculate_yield(&position(100, 9), 8, 500), 0);
    // The fraction is cut off on either side of zero.
    assert_eq!(ResourceMinter::calculate_yield(&position(-199, 0), year, 500), -9);
}

#[test]
fn yield_fits_notices_overflow() {
    let largest = i128::MAX / 500;
    assert!(ResourceMinter::yield_fits(&position(largest, 0), 1, 500));
    assert!(!ResourceMinter::yield_fits(&position(largest, 0), 2, 500));
    assert!(!ResourceMinter::yield_fits(&position(largest + 1, 0), 1, 500));
    assert!(ResourceMinter::yield_fits(&position(i128::MAX, 7), 7, u32::MAX));
}

#[test]
fn claim_pays_and_restarts_accrual() {
    let mut ledger = initialised(500, 1_000, 10);
    harvest(&mut ledger, 0, ALICE, 1, 0).unwrap();
    ResourceMinter::stake_for_yield(
        &mut ledger,
        &call_in(0),
        ALICE,
        ResourceType::Stardust,
        100,
        10,
    )
    .unwrap();
    let later = call_in(LEDGERS_PER_YEAR as u32);
    assert!(ResourceMinter::claim_fits(&ledger, &later, ALICE));
    assert_eq!(ResourceMinter::claim_yield(&mut ledger, &later, ALICE), Ok(5));
    assert_eq!(
        ledger.events[1],
        Event::YieldClaimed {
            caller: ALICE,
            staked_amount: 100,
            yield_amount: 5,
            ledger: LEDGERS_PER_YEAR as u32,
        }
    );
    assert_eq!(ledger.events[1].topic(), "yld_claim");
    assert_eq!(ledger.events.len(), 2);
    assert_eq!(
        ResourceMinter::get_stake(&ledger, ALICE).unwrap().last_claim_ledger,
        LEDGERS_PER_YEAR as u32
    );
    // Nothing is pending right after the claim.
    assert!(ResourceMinter::pending_fits(&ledger, &later, ALICE));
    assert_eq!(ResourceMinter::get_pending_yield(&ledger, &later, ALICE), Ok(0));
    // Yield does not count as minted stardust.
    assert_eq!(total_minted(&ledger), 100);
}

#[test]
fn claim_of_less_than_a_unit_loses_nothing() {
    let mut ledger = initialised(500, 1_000, 10);
    harvest(&mut ledger, 0, ALICE, 1, 0).unwrap();
    ResourceMinter::stake_for_yield(
        &mut ledger,
        &call_in(0),
        ALICE,
        ResourceType::Stardust,
        100,
        10,
    )
    .unwrap();
    for day in 1..73 {
        let call = call_in(day * LEDGERS_PER_DAY);
        assert_eq!(ResourceMinter::claim_yield(&mut ledger, &call, ALICE), Ok(0));
    }
    assert_eq!(ResourceMinter::get_stake(&ledger, ALICE).unwrap().last_claim_ledger, 0);
    assert_eq!(ledger.events.len(), 1);
    // 73 days are a fifth of a year: 5 % of 100 for a fifth of a year is 1.
    let call = call_in(73 * LEDGERS_PER_DAY);
    assert_eq!(ResourceMinter::claim_yield(&mut ledger, &call, ALICE), Ok(1));
}

#[test]
fn split_claims_pay_at_most_one_unit_less() {
    for middle in [1, 100_000, 3_000_000, 6_000_000] {
        let whole = ResourceMinter::calculate_yield(&position(777, 0), 6_307_200, 500);
        let first = ResourceMinter::calculate_yield(&position(777, 0), middle, 500);
        let second = ResourceMinter::calculate_yield(&position(777, middle), 6_307_200, 500);
        assert!(first + second <= whole && whole <= first + second + 1);
    }
}

#[test]
fn plasma_stake_returns_principal_and_yield_together() {
    let mut ledger = initialised(1_000, 1_000, 10);
    ledger.amounts.set(DataKey::Balance(ALICE, ResourceType::Plasma), 200);
    ResourceMinter::stake_for_yield(
        &mut ledger,
        &call_in(0),
        ALICE,
        ResourceType::Plasma,
        150,
        10,
    )
    .unwrap();
    let later = call_in(LEDGERS_PER_YEAR as u32);
    assert!(ResourceMinter::unstake_fits(&ledger, &later, ALICE));
    assert_eq!(ResourceMinter::unstake(&mut ledger, &later, ALICE), Ok(150));
    // 200 of before, and 10 % of 150.
    assert_eq!(ResourceMinter::get_balance(&ledger, ALICE, ResourceType::Plasma), 215);
    assert_eq!(ResourceMinter::get_stake(&ledger, ALICE), None);
    assert_eq!(ledger.events.len(), 1);
}

#[test]
fn unstake_fits_notices_overflow() {
    let mut ledger = initialised(1_000, 1_000, 10);
    let year = LEDGERS_PER_YEAR as u32;
    ledger.stakes.set(
        DataKey::StakeRecord(ALICE),
        StakeRecord { resource_type: ResourceType::Plasma, ..position(100, 0) },
    );
    // 100 principal and 10 yield are to come back.
    ledger.amounts.set(DataKey::Balance(ALICE, ResourceType::Plasma), i128::MAX - 110);
    assert!(ResourceMinter::unstake_fits(&ledger, &call_in(year), ALICE));
    ledger.amounts.set(DataKey::Balance(ALICE, ResourceType::Plasma), i128::MAX - 109);
    assert!(!ResourceMinter::unstake_fits(&ledger, &call_in(year), ALICE));
    assert!(ResourceMinter::claim_fits(&ledger, &call_in(year), ALICE));
    // A locked position is not touched, so nothing can overflow.
    assert!(ResourceMinter::unstake_fits(&ledger, &call_in(9), ALICE));
    ledger.amounts.set(DataKey::Balance(ALICE, ResourceType::Plasma), i128::MAX - 9);
    assert!(!ResourceMinter::claim_fits(&ledger, &call_in(year), ALICE));
}

#[test]
fn time_lock_expires_exactly_on_time() {
    let mut ledger = initialised(500, 1_000, 10);
    ledger.stakes.set(DataKey::StakeRecord(ALICE), position(100, 50));
    assert_eq!(
        ResourceMinter::unstake(&mut ledger, &call_in(59), ALICE),
        Err(ResourceError::TimeLockActive)
    );
    assert_eq!(ResourceMinter::unstake(&mut ledger, &call_in(60), ALICE), Ok(100));
}

#[test]
fn time_lock_beyond_the_last_ledger_never_expires() {
    let mut ledger = initialised(500, 1_000, u32::MAX);
    ledger.stakes.set(DataKey::StakeRecord(ALICE), position(100, 1));
    assert_eq!(
        ResourceMinter::unstake(&mut ledger, &call_in(u32::MAX), ALICE),
        Err(ResourceError::TimeLockActive)
    );
}

#[test]
fn position_stays_open_while_locked() {
    let mut ledger = initialised(100_000, 1_000, 1_000_000);
    harvest(&mut ledger, 0, ALICE, 1, 0).unwrap();
    let stardust = ResourceType::Stardust;
    ResourceMinter::stake_for_yield(&mut ledger, &call_in(0), ALICE, stardust, 100, 1_000_000)
        .unwrap();
    let opened = ResourceMinter::get_stake(&ledger, ALICE).unwrap();
    let call = call_in(999_999);
    assert_eq!(
        ResourceMinter::unstake(&mut ledger, &call, ALICE),
        Err(ResourceError::TimeLockActive)
    );
    // 100 x 1000 % x 999_999 / 6_307_200 = 158.5
    assert_eq!(ResourceMinter::claim_yield(&mut ledger, &call, ALICE), Ok(158));
    ResourceMinter::update_apy(&mut ledger, &call, 0).unwrap();
    assert_eq!(
        ResourceMinter::get_stake(&ledger, ALICE),
        Some(StakeRecord { last_claim_ledger: 999_999, ..opened })
    );
}

#[test]
fn ordinary_amounts_never_overflow() {
    let mut ledger = initialised(u32::MAX, i128::MAX, 0);
    let large: i128 = 1 << 62;
    for kind in [ResourceType::Stardust, ResourceType::Plasma, ResourceType::Crystals] {
        ledger.amounts.set(DataKey::Balance(ALICE, kind), large);
    }
    ledger.amounts.set(DataKey::TotalMinted(ResourceType::Stardust), large);
    ledger.stakes.set(DataKey::StakeRecord(ALICE), position(large, 0));
    let call = call_in(u32::MAX);
    assert!(ResourceMinter::claim_fits(&ledger, &call, ALICE));
    assert!(ResourceMinter::unstake_fits(&ledger, &call, ALICE));
    assert_eq!(harvest(&mut ledger, u32::MAX, ALICE, 1, 0), Ok(100));
    assert_eq!(ResourceMinter::unstake(&mut ledger, &call, ALICE), Ok(large));
}

#[test]
fn yield_grows_with_time_and_rate() {
    let mut last: i128 = 0;
    for step in 1..20 {
        let current: u32 = step * 300_000;
        let amount = ResourceMinter::calculate_yield(&position(1_000, 0), current, 500);
        assert!(last <= amount);
        assert!(amount <= ResourceMinter::calculate_yield(&position(1_000, 0), current, 501));
        last = amount;
    }
    assert_eq!(last, 45);
}

#[test]
fn updates_change_one_rate_each() {
    let mut ledger = initialised(500, 1_000, 10);
    let before = ResourceMinter::get_config(&ledger).unwrap();
    ResourceMinter::update_daily_cap(&mut ledger, &call_in(1), 2_000).unwrap();
    assert_eq!(
        ResourceMinter::get_config(&ledger),
        Some(Config { daily_harvest_cap: 2_000, ..before })
    );
    ResourceMinter::update_apy(&mut ledger, &call_in(1), 750).unwrap();
    assert_eq!(
        ResourceMinter::get_config(&ledger),
        Some(Config { daily_harvest_cap: 2_000, apy_basis_points: 750, ..before })
    );
}

#[test]
fn players_do_not_touch_each_other() {
    let mut ledger = initialised(500, 1_000, 10);
    harvest(&mut ledger, 0, ALICE, 1, 0).unwrap();
    harvest(&mut ledger, 0, BOB, 2, 1).unwrap();
    let call = call_in(0);
    ResourceMinter::stake_for_yield(&mut ledger, &call, BOB, ResourceType::Stardust, 110, 10)
        .unwrap();
    let later = call_in(LEDGERS_PER_YEAR as u32);
    ResourceMinter::unstake(&mut ledger, &later, BOB).unwrap();
    assert_eq!(ResourceMinter::get_balance(&ledger, ALICE, ResourceType::Stardust), 100);
    assert_eq!(ResourceMinter::get_balance(&ledger, ALICE, ResourceType::Plasma), 0);
    assert_eq!(ResourceMinter::get_balance(&ledger, BOB, ResourceType::Stardust), 110);
    assert_eq!(ResourceMinter::get_balance(&ledger, BOB, ResourceType::Plasma), 5);
}

#[test]
fn stardust_adds_up_to_the_total_minted() {
    let mut ledger = initialised(500, 1_000, 10);
    harvest(&mut ledger, 0, ALICE, 1, 0).unwrap();
    harvest(&mut ledger, 0, BOB, 2, 1).unwrap();
    ResourceMinter::stake_for_yield(
        &mut ledger,
        &call_in(0),
        BOB,
        ResourceType::Stardust,
        70,
        10,
    )
    .unwrap();
    let liquid = ResourceMinter::get_balance(&ledger, ALICE, ResourceType::Stardust)
        + ResourceMinter::get_balance(&ledger, BOB, ResourceType::Stardust);
    let staked = ResourceMinter::get_stake(&ledger, BOB).unwrap().amount;
    assert_eq!((liquid, staked), (140, 70));
    assert_eq!(total_minted(&ledger), 210);
}

#[test]
fn error_and_resource_codes() {
    let errors = [
        ResourceError::NotInitialized,
        ResourceError::AlreadyInitialized,
        ResourceError::Unauthorized,
        ResourceError::InsufficientResources,
        ResourceError::DailyCapExceeded,
        ResourceError::StakeNotFound,
        ResourceError::TimeLockActive,
        ResourceError::InvalidDuration,
        ResourceError::ShipNotOwned,
        ResourceError::AnomalyNotScanned,
        ResourceError::InvalidAmount,
        ResourceError::AlreadyStaked,
    ];
    for (position, error) in errors.iter().enumerate() {
        assert_eq!(error.code(), position as u32 + 1);
    }
    assert_eq!(ResourceType::Stardust.code(), 0);
    assert_eq!(ResourceType::Plasma.code(), 1);
    assert_eq!(ResourceType::Crystals.code(), 2);
}

#[test]
fn table_finds_replaces_and_drops_entries() {
    let mut ledger = Ledger::new();
    let stardust = DataKey::Balance(ALICE, ResourceType::Stardust);
    let plasma = DataKey::Balance(ALICE, ResourceType::Plasma);
    ledger.amounts.set(stardust, 1);
    ledger.amounts.set(plasma, 2);
    ledger.amounts.set(stardust, 3);
    assert_eq!(ledger.amounts.get(stardust), Some(3));
    assert_eq!(ledger.amounts.get(plasma), Some(2));
    ledger.amounts.remove(stardust);
    ledger.amounts.remove(stardust);
    assert!(!ledger.amounts.has(stardust));
    assert_eq!(ledger.amounts.get(plasma), Some(2));
    assert_eq!(ledger.amounts.get(stardust), None);
}

#[test]
fn authorisations_are_remembered() {
    let mut call = Invocation::new(8);
    assert_eq!(call.sequence(), 8);
    assert!(!call.is_authorized_by(ALICE));
    call.authorize(ALICE);
    assert!(call.is_authorized_by(ALICE));
    assert!(!call.is_authorized_by(BOB));
}
