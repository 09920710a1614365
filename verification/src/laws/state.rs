//! Laws on refusals, the configuration, ownership and sound states.

use vstd::prelude::*;

use crate::invocation::Address;
use crate::laws::operation;
use crate::laws::operation::Operation;
use crate::ledger::LedgerView;
use crate::records::{Config, DataKey, ResourceError, ResourceType, STARDUST_PER_ANOMALY};
use crate::rules;

verus! {

/// Law of refusal: an operation that answers with an error changes nothing.
pub proof fn law_refusal_changes_nothing(ledger: LedgerView, current: u32, operation: Operation)
    requires
        operation.error(ledger, current) is Some,
    ensures
        operation.apply(ledger, current) == ledger,
{
}

/// Law of initialisation: before `init` every other operation is refused with
/// `NotInitialized`; after it `init` is refused with `AlreadyInitialized`.
pub proof fn law_initialised_first_and_once(
    ledger: LedgerView,
    current: u32,
    operation: Operation,
)
    ensures
        ledger.config() is None && !(operation is Init) ==> operation.error(ledger, current)
            == Some(ResourceError::NotInitialized),
        ledger.config() is Some && operation is Init ==> operation.error(ledger, current) == Some(
            ResourceError::AlreadyInitialized,
        ),
        ledger.config() is None && operation is Init ==> operation.error(ledger, current) is None
            && operation.apply(ledger, current).config() is Some,
{
}

/// Law of the configuration, for one operation: once set, the configuration
/// stays, and only `update_daily_cap` changes the daily cap, only `update_apy`
/// the APY, and nothing anything else of it.
pub proof fn law_config_step(ledger: LedgerView, current: u32, operation: Operation)
    requires
        ledger.config() is Some,
    ensures
        operation.apply(ledger, current).config() == Some(
            Config {
                daily_harvest_cap: match operation {
                    Operation::UpdateDailyCap { new_cap } => new_cap,
                    _ => ledger.config()->0.daily_harvest_cap,
                },
                apy_basis_points: match operation {
                    Operation::UpdateApy { new_apy_bps } => new_apy_bps,
                    _ => ledger.config()->0.apy_basis_points,
                },
                ..ledger.config()->0
            },
        ),
{
}

/// Law of the configuration: whatever happens after `init`, the admin, the two
/// contracts, the minimum stake duration and the base award stay what they were.
pub proof fn law_config_history(start: LedgerView, history: Seq<(u32, Operation)>)
    requires
        start.config() is Some,
    ensures
        operation::run(start, history).config() == Some(
            Config {
                daily_harvest_cap: operation::run(start, history).config()->0.daily_harvest_cap,
                apy_basis_points: operation::run(start, history).config()->0.apy_basis_points,
                ..start.config()->0
            },
        ),
    decreases history.len(),
{
    if history.len() > 0 {
        law_config_history(start, history.drop_last());
        law_config_step(operation::run(start, history.drop_last()), history.last().0, history.last().1);
    }
}

/// Law of ownership: an operation changes no balance and no position but those
/// of the address it is carried out for.
pub proof fn law_others_untouched(
    ledger: LedgerView,
    current: u32,
    operation: Operation,
    other: Address,
    resource_type: ResourceType,
)
    requires
        !operation.acts_for(other),
    ensures
        operation.apply(ledger, current).balance(other, resource_type) == ledger.balance(
            other,
            resource_type,
        ),
        operation.apply(ledger, current).stake(other) == ledger.stake(other),
{
}

/// Law of separate resources: harvesting touches no balance but stardust,
/// claiming none but plasma, staking none but that of the staked resource, and
/// unstaking none but plasma and that of the returned resource.
pub proof fn law_resources_independent(
    ledger: LedgerView,
    current: u32,
    operation: Operation,
    owner: Address,
    resource_type: ResourceType,
)
    requires
        match operation {
            Operation::Harvest { .. } => !(resource_type is Stardust),
            Operation::Claim { .. } => !(resource_type is Plasma),
            Operation::Stake { resource_type: held, .. } => resource_type != held,
            Operation::Unstake { caller } => {
                &&& !(resource_type is Plasma)
                &&& ledger.stake(caller) matches Some(stake) ==> resource_type
                    != stake.resource_type
            },
            _ => true,
        },
    ensures
        operation.apply(ledger, current).balance(owner, resource_type) == ledger.balance(
            owner,
            resource_type,
        ),
{
}

/// Law of error codes: different errors have different codes, from 1 to 12.
pub proof fn law_error_codes(first: ResourceError, second: ResourceError)
    ensures
        1 <= first.spec_code() <= 12,
        first.spec_code() == second.spec_code() <==> first == second,
{
}

/// Law of the table of error codes: each error has the code that clients know it
/// by.
pub proof fn law_error_code_table(error: ResourceError)
    ensures
        error == ResourceError::NotInitialized <==> error.spec_code() == 1,
        error == ResourceError::AlreadyInitialized <==> error.spec_code() == 2,
        error == ResourceError::Unauthorized <==> error.spec_code() == 3,
        error == ResourceError::InsufficientResources <==> error.spec_code() == 4,
        error == ResourceError::DailyCapExceeded <==> error.spec_code() == 5,
        error == ResourceError::StakeNotFound <==> error.spec_code() == 6,
        error == ResourceError::TimeLockActive <==> error.spec_code() == 7,
        error == ResourceError::InvalidDuration <==> error.spec_code() == 8,
        error == ResourceError::ShipNotOwned <==> error.spec_code() == 9,
        error == ResourceError::AnomalyNotScanned <==> error.spec_code() == 10,
        error == ResourceError::InvalidAmount <==> error.spec_code() == 11,
        error == ResourceError::AlreadyStaked <==> error.spec_code() == 12,
{
}

/// Law of the table of resource codes: each resource type has the code that
/// storage keys hold.
pub proof fn law_resource_code_table(resource_type: ResourceType)
    ensures
        resource_type == ResourceType::Stardust <==> resource_type.spec_code() == 0,
        resource_type == ResourceType::Plasma <==> resource_type.spec_code() == 1,
        resource_type == ResourceType::Crystals <==> resource_type.spec_code() == 2,
{
}

// -- Soundness ---------------------------------------------------------------

/// What can be relied on in every state that the economy gets into.
pub open spec fn sound(ledger: LedgerView) -> bool {
    &&& ledger.config() matches Some(config) ==> config.stardust_per_anomaly
        == STARDUST_PER_ANOMALY
    &&& forall|key: DataKey| #[trigger]
        ledger.amounts.contains_key(key) ==> ledger.amounts[key] >= 0
    &&& forall|key: DataKey| #[trigger]
        ledger.harvests.contains_key(key) ==> ledger.harvests[key].harvested_today >= 0
    &&& forall|key: DataKey| #[trigger]
        ledger.stakes.contains_key(key) ==> sound_stake(ledger, key)
}

/// What can be relied on of a position: it is filed under its owner, locks a
/// positive principal for at least the minimum duration, and was not claimed on
/// before it was opened.
pub open spec fn sound_stake(ledger: LedgerView, key: DataKey) -> bool {
    let stake = ledger.stakes[key];
    &&& key == DataKey::StakeRecord(stake.owner)
    &&& stake.amount > 0
    &&& stake.start_ledger <= stake.last_claim_ledger
    &&& ledger.config() matches Some(config) && stake.duration_ledgers
        >= config.min_stake_duration
}

/// Law of soundness, for one operation: it keeps a sound state sound. In
/// particular no balance ever becomes negative.
pub proof fn law_sound_step(ledger: LedgerView, current: u32, operation: Operation)
    requires
        sound(ledger),
        operation.in_range(ledger, current),
    ensures
        sound(operation.apply(ledger, current)),
{
    let after = operation.apply(ledger, current);
    if let Operation::Claim { caller } = operation {
        lemma_accrued_sign(ledger, current, caller);
    }
    if let Operation::Unstake { caller } = operation {
        lemma_accrued_sign(ledger, current, caller);
    }
    assert forall|key: DataKey| #[trigger] after.stakes.contains_key(key) implies sound_stake(
        after,
        key,
    ) by {
        if ledger.stakes.contains_key(key) {
            assert(sound_stake(ledger, key));
        }
    }
}

/// In a sound state the yield on a position is not negative, and is positive
/// only if time has passed.
proof fn lemma_accrued_sign(ledger: LedgerView, current: u32, caller: Address)
    requires
        sound(ledger),
    ensures
        match (ledger.config(), ledger.stake(caller)) {
            (Some(config), Some(stake)) => {
                let amount = rules::accrued(stake, current, config.apy_basis_points);
                &&& sound_stake(ledger, DataKey::StakeRecord(caller))
                &&& amount >= 0
                &&& amount > 0 ==> current > stake.last_claim_ledger
            },
            _ => true,
        },
{
    if let (Some(config), Some(stake)) = (ledger.config(), ledger.stake(caller)) {
        assert(ledger.stakes.contains_key(DataKey::StakeRecord(caller)));
        let time = rules::elapsed(stake, current);
        let apy: int = config.apy_basis_points as int;
        assert(stake.amount * apy * time >= 0) by (nonlinear_arith)
            requires
                stake.amount > 0,
                apy >= 0,
                time >= 0,
        ;
    }
}

/// Law of soundness: every history from the empty ledger leads to a sound state.
pub proof fn law_sound_history(history: Seq<(u32, Operation)>)
    requires
        operation::all_in_range(LedgerView::empty(), history),
    ensures
        sound(operation::run(LedgerView::empty(), history)),
    decreases history.len(),
{
    if history.len() > 0 {
        law_sound_history(history.drop_last());
        law_sound_step(
            operation::run(LedgerView::empty(), history.drop_last()),
            history.last().0,
            history.last().1,
        );
    }
}

/// Amounts up to here leave ample room for every sum and product.
pub const ORDINARY_AMOUNT: i128 = 4_611_686_018_427_387_904;

/// Every balance, total and principal is of ordinary size.
pub open spec fn ordinary(ledger: LedgerView) -> bool {
    &&& forall|key: DataKey| #[trigger]
        ledger.amounts.contains_key(key) ==> ledger.amounts[key] <= ORDINARY_AMOUNT
    &&& forall|key: DataKey| #[trigger]
        ledger.stakes.contains_key(key) ==> ledger.stakes[key].amount <= ORDINARY_AMOUNT
}

/// Law of range: in a sound state with amounts of ordinary size, no operation
/// computes an amount that leaves the range of amounts, whatever the cap, the
/// rate and the time that has passed.
pub proof fn law_ordinary_amounts_in_range(
    ledger: LedgerView,
    current: u32,
    operation: Operation,
)
    requires
        sound(ledger),
        ordinary(ledger),
    ensures
        operation.in_range(ledger, current),
{
    match operation {
        Operation::Claim { caller } => {
            lemma_ordinary_yield(ledger, current, caller);
        },
        Operation::Unstake { caller } => {
            lemma_ordinary_yield(ledger, current, caller);
        },
        _ => {},
    }
}

/// The yield on a position of ordinary size stays in range.
proof fn lemma_ordinary_yield(ledger: LedgerView, current: u32, caller: Address)
    requires
        sound(ledger),
        ordinary(ledger),
    ensures
        match (ledger.config(), ledger.stake(caller)) {
            (Some(config), Some(stake)) => {
                let amount = rules::accrued(stake, current, config.apy_basis_points);
                &&& 0 < stake.amount <= ORDINARY_AMOUNT
                &&& rules::yield_in_range(stake, current, config.apy_basis_points)
                &&& 0 <= amount <= i128::MAX / 2
            },
            _ => true,
        },
{
    if let (Some(config), Some(stake)) = (ledger.config(), ledger.stake(caller)) {
        lemma_accrued_sign(ledger, current, caller);
        assert(ledger.stakes.contains_key(DataKey::StakeRecord(caller)));
        let amount: int = stake.amount as int;
        let apy: int = config.apy_basis_points as int;
        let time = rules::elapsed(stake, current);
        assert(0 <= amount * apy <= 4_611_686_018_427_387_904 * 4_294_967_295) by (nonlinear_arith)
            requires
                0 < amount <= 4_611_686_018_427_387_904,
                0 <= apy <= 4_294_967_295,
        ;
        assert(0 <= amount * apy * time <= 4_611_686_018_427_387_904 * 4_294_967_295
            * 4_294_967_295) by (nonlinear_arith)
            requires
                0 <= amount * apy <= 4_611_686_018_427_387_904 * 4_294_967_295,
                0 <= time <= 4_294_967_295,
        ;
    }
}

} // verus!
