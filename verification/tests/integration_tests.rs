use stellar_nebula_nomad::invocation::{Address, Invocation};
use stellar_nebula_nomad::ledger::Ledger;
use stellar_nebula_nomad::resource_minter::{
    Config, ResourceError, ResourceMinter, ResourceType, StakeRecord, LEDGERS_PER_DAY,
};

/// A ledger with an initialised minter, whose ship registry and nebula explorer
/// confirm everything, and where every call is authorised.
struct World {
    ledger: Ledger,
    sequence: u32,
    admin: Address,
    player: Address,
}

impl World {
    fn call(&self) -> Invocation {
        let mut call = Invocation::new(self.sequence);
        call.authorize(self.admin);
        call.authorize(self.player);
        call
    }

    fn advance_ledgers(&mut self, n: u32) {
        self.sequence += n;
    }

    fn init(&mut self, ship: Address, nebula: Address) -> Result<(), ResourceError> {
        let call = self.call();
        ResourceMinter::init(
            &mut self.ledger,
            &call,
            self.admin,
            ship,
            nebula,
            500u32,          // 5 % APY
            1_000i128,       // daily harvest cap
            LEDGERS_PER_DAY, // min stake duration, about 1 day
        )
    }

    fn harvest(&mut self, ship_id: u64, anomaly_index: u32) -> Result<i128, ResourceError> {
        let call = self.call();
        ResourceMinter::harvest_resource(
            &mut self.ledger,
            &call,
            self.player,
            ship_id,
            anomaly_index,
            true,
            true,
        )
    }

    fn stake(
        &mut self,
        resource_type: ResourceType,
        amount: i128,
        duration: u32,
    ) -> Result<(), ResourceError> {
        let call = self.call();
        ResourceMinter::stake_for_yield(
            &mut self.ledger,
            &call,
            self.player,
            resource_type,
            amount,
            duration,
        )
    }

    fn claim(&mut self) -> Result<i128, ResourceError> {
        let call = self.call();
        ResourceMinter::claim_yield(&mut self.ledger, &call, self.player)
    }

    fn pending(&self) -> Result<i128, ResourceError> {
        ResourceMinter::get_pending_yield(&self.ledger, &self.call(), self.player)
    }

    fn unstake(&mut self) -> Result<i128, ResourceError> {
        let call = self.call();
        ResourceMinter::unstake(&mut self.ledger, &call, self.player)
    }

    fn balance(&self, resource_type: ResourceType) -> i128 {
        ResourceMinter::get_balance(&self.ledger, self.player, resource_type)
    }

    fn get_stake(&self) -> Option<StakeRecord> {
        ResourceMinter::get_stake(&self.ledger, self.player)
    }

    fn config(&self) -> Option<Config> {
        ResourceMinter::get_config(&self.ledger)
    }
}

fn setup() -> World {
    let mut world = World {
        ledger: Ledger::new(),
        sequence: 0,
        admin: Address { id: 3 },
        player: Address { id: 4 },
    };
    world.init(Address { id: 1 }, Address { id: 2 }).unwrap();
    world
}

// Harvest

#[test]
fn test_harvest_base_amount() {
    let mut world = setup();
    // anomaly_index = 0: base 100 + 0 x 10 = 100
    let minted = world.harvest(1, 0).unwrap();
    assert_eq!(minted, 100);
    assert_eq!(world.balance(ResourceType::Stardust), 100);
}

#[test]
fn test_harvest_rarity_bonus() {
    let mut world = setup();
    // anomaly_index = 5: 100 + 5 x 10 = 150
    assert_eq!(world.harvest(1, 5).unwrap(), 150);
}

#[test]
fn test_harvest_multiple_ships_have_independent_caps() {
    let mut world = setup();
    // Drain ship 1's daily cap (10 x 100 = 1000)
    for _ in 0..10 {
        world.harvest(1, 0).unwrap();
    }
    // Ship 2 uses its own independent cap
    assert_eq!(world.harvest(2, 0).unwrap(), 100);
}

#[test]
fn test_harvest_daily_cap_enforced() {
    let mut world = setup();
    for _ in 0..10 {
        world.harvest(1, 0).unwrap();
    }
    let err = world.harvest(1, 0);
    assert_eq!(err, Err(ResourceError::DailyCapExceeded));
}

#[test]
fn test_harvest_cap_resets_after_one_day() {
    let mut world = setup();
    for _ in 0..10 {
        world.harvest(1, 0).unwrap();
    }
    world.advance_ledgers(LEDGERS_PER_DAY);
    // Should succeed again after window reset
    assert_eq!(world.harvest(1, 0).unwrap(), 100);
}

#[test]
fn test_harvest_amount_capped_near_daily_limit() {
    let mut world = setup();
    // 9 x 100 = 900 harvested; 100 remaining in cap
    for _ in 0..9 {
        world.harvest(1, 0).unwrap();
    }
    // Raw amount from anomaly_index = 5 would be 150, but only 100 is left
    assert_eq!(world.harvest(1, 5).unwrap(), 100);
}

// Staking

#[test]
fn test_stake_deducts_liquid_balance() {
    let mut world = setup();
    world.harvest(1, 0).unwrap(); // 100 stardust
    world.stake(ResourceType::Stardust, 100, LEDGERS_PER_DAY).unwrap();
    assert_eq!(world.balance(ResourceType::Stardust), 0);
    assert_eq!(world.get_stake().unwrap().amount, 100);
}

#[test]
fn test_stake_insufficient_resources_rejected() {
    let mut world = setup();
    let err = world.stake(ResourceType::Stardust, 100, LEDGERS_PER_DAY);
    assert_eq!(err, Err(ResourceError::InsufficientResources));
}

#[test]
fn test_stake_below_min_duration_rejected() {
    let mut world = setup();
    world.harvest(1, 0).unwrap();
    // 1000 < 17280 min
    let err = world.stake(ResourceType::Stardust, 100, 1_000);
    assert_eq!(err, Err(ResourceError::InvalidDuration));
}

#[test]
fn test_stake_zero_amount_rejected() {
    let mut world = setup();
    let err = world.stake(ResourceType::Stardust, 0, LEDGERS_PER_DAY);
    assert_eq!(err, Err(ResourceError::InvalidAmount));
}

#[test]
fn test_duplicate_stake_rejected() {
    let mut world = setup();
    // Harvest twice so there is enough balance for a second attempted stake
    world.harvest(1, 0).unwrap();
    world.harvest(2, 0).unwrap();
    world.stake(ResourceType::Stardust, 100, LEDGERS_PER_DAY).unwrap();
    let err = world.stake(ResourceType::Stardust, 100, LEDGERS_PER_DAY);
    assert_eq!(err, Err(ResourceError::AlreadyStaked));
}

// Yield

#[test]
fn test_claim_yield_after_24h() {
    let mut world = setup();
    world.harvest(1, 0).unwrap(); // 100 stardust
    world.stake(ResourceType::Stardust, 100, LEDGERS_PER_DAY).unwrap();

    world.advance_ledgers(LEDGERS_PER_DAY); // +1 day

    let yield_earned = world.claim().unwrap();
    // 100 x 5 % / 365 is about 0.0136, which truncates to 0
    assert!(yield_earned >= 0);
    assert_eq!(world.balance(ResourceType::Plasma), yield_earned);
}

#[test]
fn test_claim_yield_after_1_year() {
    let mut world = setup();
    world.harvest(1, 0).unwrap(); // 100 stardust
    world.stake(ResourceType::Stardust, 100, LEDGERS_PER_DAY).unwrap();

    world.advance_ledgers(LEDGERS_PER_DAY * 365); // +365 days

    let yield_earned = world.claim().unwrap();
    // 100 x 500 / 10_000 x (17280 x 365) / (17280 x 365) = 5 plasma
    assert_eq!(yield_earned, 5);
    assert_eq!(world.balance(ResourceType::Plasma), 5);
}

#[test]
fn test_pending_yield_matches_claim_amount() {
    let mut world = setup();
    world.harvest(1, 0).unwrap();
    world.stake(ResourceType::Stardust, 100, LEDGERS_PER_DAY).unwrap();

    world.advance_ledgers(LEDGERS_PER_DAY * 365);

    let pending = world.pending().unwrap();
    let claimed = world.claim().unwrap();
    assert_eq!(pending, claimed);
}

#[test]
fn test_yield_accumulates_across_partial_claims() {
    let mut world = setup();
    world.harvest(1, 0).unwrap();
    // Use a 2-year lock so we can keep claiming
    world.stake(ResourceType::Stardust, 100, LEDGERS_PER_DAY * 365 * 2).unwrap();

    // Claim at about 6 months then at about 12 months
    world.advance_ledgers(LEDGERS_PER_DAY * 182);
    let y1 = world.claim().unwrap();

    world.advance_ledgers(LEDGERS_PER_DAY * 183);
    let y2 = world.claim().unwrap();

    // 5 % of 100 is 5; one unit may be lost to truncation across two windows
    let total = y1 + y2;
    assert!(total >= 4 && total <= 5);
}

// Unstake and time lock

#[test]
fn test_unstake_blocked_immediately_after_stake() {
    let mut world = setup();
    world.harvest(1, 0).unwrap();
    world.stake(ResourceType::Stardust, 100, LEDGERS_PER_DAY).unwrap();
    let err = world.unstake();
    assert_eq!(err, Err(ResourceError::TimeLockActive));
}

#[test]
fn test_unstake_allowed_after_timelock_expires() {
    let mut world = setup();
    world.harvest(1, 0).unwrap();
    world.stake(ResourceType::Stardust, 100, LEDGERS_PER_DAY).unwrap();

    world.advance_ledgers(LEDGERS_PER_DAY);

    let returned = world.unstake().unwrap();
    assert_eq!(returned, 100);
    assert!(world.get_stake().is_none());
    assert_eq!(world.balance(ResourceType::Stardust), 100);
}

#[test]
fn test_unstake_auto_claims_residual_yield() {
    let mut world = setup();
    world.harvest(1, 0).unwrap();
    world.stake(ResourceType::Stardust, 100, LEDGERS_PER_DAY).unwrap();

    world.advance_ledgers(LEDGERS_PER_DAY * 365); // 1 year: 5 plasma

    world.unstake().unwrap();

    assert_eq!(world.balance(ResourceType::Plasma), 5);
    assert_eq!(world.balance(ResourceType::Stardust), 100);
}

#[test]
fn test_unstake_then_restake_succeeds() {
    let mut world = setup();
    world.harvest(1, 0).unwrap();
    world.stake(ResourceType::Stardust, 100, LEDGERS_PER_DAY).unwrap();

    world.advance_ledgers(LEDGERS_PER_DAY);
    world.unstake().unwrap();

    // Re-staking after unstake must succeed
    world.stake(ResourceType::Stardust, 100, LEDGERS_PER_DAY).unwrap();
    assert_eq!(world.get_stake().unwrap().amount, 100);
}

// Multiple resource types

#[test]
fn test_resource_type_balances_are_independent() {
    let mut world = setup();

    world.harvest(1, 0).unwrap(); // 100 stardust
    world.stake(ResourceType::Stardust, 50, LEDGERS_PER_DAY).unwrap();

    world.advance_ledgers(LEDGERS_PER_DAY * 365);
    let plasma = world.claim().unwrap();

    // 50 x 5 % = 2.5, which truncates to 2 plasma
    assert_eq!(plasma, 2);
    // 50 liquid stardust untouched
    assert_eq!(world.balance(ResourceType::Stardust), 50);
    assert_eq!(world.balance(ResourceType::Plasma), 2);
    // Crystals entirely unaffected
    assert_eq!(world.balance(ResourceType::Crystals), 0);
}

// Administration

#[test]
fn test_update_daily_cap() {
    let mut world = setup();
    let call = world.call();
    ResourceMinter::update_daily_cap(&mut world.ledger, &call, 2_000).unwrap();
    assert_eq!(world.config().unwrap().daily_harvest_cap, 2_000);
}

#[test]
fn test_update_apy() {
    let mut world = setup();
    let call = world.call();
    ResourceMinter::update_apy(&mut world.ledger, &call, 1_000).unwrap(); // 10 %
    assert_eq!(world.config().unwrap().apy_basis_points, 1_000);
}

#[test]
fn test_double_init_rejected() {
    let mut world = setup();
    let dummy = Address { id: 5 };
    let err = world.init(dummy, dummy);
    assert_eq!(err, Err(ResourceError::AlreadyInitialized));
}
