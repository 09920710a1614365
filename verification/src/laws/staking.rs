//! Laws on positions and their yield.

use vstd::prelude::*;

use crate::invocation::Address;
use crate::laws::operation;
use crate::laws::operation::Operation;
use crate::laws::state;
use crate::ledger::LedgerView;
use crate::records::{
    DataKey, ResourceError, ResourceType, StakeRecord, BPS_DENOM, LEDGERS_PER_YEAR,
};
use crate::rules;

verus! {

// -- Positions ---------------------------------------------------------------

/// Law of the single position: an address with a position cannot open another
/// one before it has closed it.
pub proof fn law_one_position(
    ledger: LedgerView,
    opened: u32,
    caller: Address,
    resource_type: ResourceType,
    resource_amount: i128,
    duration_ledgers: u32,
    again_type: ResourceType,
    again_amount: i128,
    again_duration: u32,
)
    requires
        rules::stake_result(ledger, caller, resource_type, resource_amount, duration_ledgers)
            is Ok,
    ensures
        ({
            let staked = rules::stake_post(
                ledger,
                opened,
                caller,
                resource_type,
                resource_amount,
                duration_ledgers,
            );
            let again = rules::stake_result(
                staked,
                caller,
                again_type,
                again_amount,
                again_duration,
            );
            &&& again is Err
            &&& again_amount > 0 && again_duration >= ledger.config()->0.min_stake_duration
                ==> again == Err::<(), ResourceError>(ResourceError::AlreadyStaked)
        }),
{
}

/// Law of the time lock: a position opened in ledger `opened` is refused with
/// `TimeLockActive` until the minimum stake duration has passed, and returned in
/// full from then on.
pub proof fn law_time_lock(
    ledger: LedgerView,
    opened: u32,
    closed: u32,
    caller: Address,
    resource_type: ResourceType,
    resource_amount: i128,
    duration_ledgers: u32,
)
    requires
        rules::stake_result(ledger, caller, resource_type, resource_amount, duration_ledgers)
            is Ok,
    ensures
        rules::unstake_result(
            rules::stake_post(
                ledger,
                opened,
                caller,
                resource_type,
                resource_amount,
                duration_ledgers,
            ),
            closed,
            caller,
        ) == (if closed < opened + ledger.config()->0.min_stake_duration {
            Err(ResourceError::TimeLockActive)
        } else {
            Ok(resource_amount)
        }),
{
}

/// Law of the lock-up: until its time lock has expired, a position stays open
/// with its principal, whatever happens; claims only move its last claim.
pub proof fn law_position_stays_locked(
    start: LedgerView,
    history: Seq<(u32, Operation)>,
    owner: Address,
)
    requires
        start.config() is Some,
        start.stake(owner) is Some,
        forall|i: int|
            0 <= i < history.len() ==> (#[trigger] history[i]).0 < start.stake(
                owner,
            )->0.start_ledger + start.config()->0.min_stake_duration,
    ensures
        operation::run(start, history).stake(owner) == Some(
            StakeRecord {
                last_claim_ledger: operation::run(start, history).stake(
                    owner,
                )->0.last_claim_ledger,
                ..start.stake(owner)->0
            },
        ),
    decreases history.len(),
{
    if history.len() > 0 {
        let rest = history.drop_last();
        assert forall|i: int| 0 <= i < rest.len() implies (#[trigger] rest[i]).0 < start.stake(
            owner,
        )->0.start_ledger + start.config()->0.min_stake_duration by {
            assert(rest[i] == history[i]);
        }
        law_position_stays_locked(start, rest, owner);
        state::law_config_history(start, rest);
        assert(history[history.len() - 1] == history.last());
    }
}

/// Law of the round trip: what was staked comes back when it is unstaked, and
/// the yield with it. No balance but plasma is different from before, the
/// position is gone, and the same amount can be staked again.
pub proof fn law_round_trip(
    ledger: LedgerView,
    opened: u32,
    closed: u32,
    caller: Address,
    resource_type: ResourceType,
    resource_amount: i128,
    duration_ledgers: u32,
)
    requires
        rules::stake_result(ledger, caller, resource_type, resource_amount, duration_ledgers)
            is Ok,
        closed >= opened + ledger.config()->0.min_stake_duration,
        rules::unstake_in_range(
            rules::stake_post(
                ledger,
                opened,
                caller,
                resource_type,
                resource_amount,
                duration_ledgers,
            ),
            closed,
            caller,
        ),
    ensures
        ({
            let staked = rules::stake_post(
                ledger,
                opened,
                caller,
                resource_type,
                resource_amount,
                duration_ledgers,
            );
            let returned = rules::unstake_post(staked, closed, caller);
            let earned = rules::accrued(
                staked.stake(caller)->0,
                closed,
                ledger.config()->0.apy_basis_points,
            );
            &&& earned >= 0
            &&& returned.stake(caller) is None
            &&& forall|kind: ResourceType| #[trigger]
                returned.balance(caller, kind) == ledger.balance(caller, kind) + (
                if kind is Plasma {
                    earned
                } else {
                    0
                })
            &&& rules::stake_result(
                returned,
                caller,
                resource_type,
                resource_amount,
                duration_ledgers,
            ) is Ok
        }),
{
    let staked = rules::stake_post(
        ledger,
        opened,
        caller,
        resource_type,
        resource_amount,
        duration_ledgers,
    );
    lemma_accrued_nonnegative(
        staked.stake(caller)->0,
        closed,
        ledger.config()->0.apy_basis_points,
    );
}

/// Law of residual yield: unstaking pays the yield that is pending at that
/// moment on top of the principal, so that nothing accrued is lost.
pub proof fn law_unstake_pays_residual_yield(ledger: LedgerView, current: u32, caller: Address)
    requires
        state::sound(ledger),
        rules::unstake_result(ledger, current, caller) is Ok,
        rules::unstake_in_range(ledger, current, caller),
    ensures
        ({
            let stake = ledger.stake(caller)->0;
            let after = rules::unstake_post(ledger, current, caller);
            &&& rules::pending_result(ledger, current, caller) matches Ok(pending)
            &&& after.balance(caller, ResourceType::Plasma) == ledger.balance(
                caller,
                ResourceType::Plasma,
            ) + pending + (if stake.resource_type is Plasma {
                stake.amount as int
            } else {
                0
            })
        }),
{
    let stake = ledger.stake(caller)->0;
    assert(state::sound_stake(ledger, DataKey::StakeRecord(caller)));
    lemma_accrued_nonnegative(stake, current, ledger.config()->0.apy_basis_points);
}

// -- Yield -------------------------------------------------------------------

/// The yield on a principal that is not negative is not negative.
proof fn lemma_accrued_nonnegative(stake: StakeRecord, current: u32, apy_bps: u32)
    requires
        stake.amount >= 0,
    ensures
        stake.amount * apy_bps >= 0,
        stake.amount * apy_bps * rules::elapsed(stake, current) >= 0,
        rules::accrued(stake, current, apy_bps) >= 0,
{
    let amount: int = stake.amount as int;
    let apy: int = apy_bps as int;
    let time = rules::elapsed(stake, current);
    assert(amount * apy >= 0 && amount * apy * time >= 0) by (nonlinear_arith)
        requires
            amount >= 0,
            apy >= 0,
            time >= 0,
    ;
}

/// Law of the annual rate: a year after the last claim the yield is the
/// principal times the APY, with the fraction cut off.
pub proof fn law_yield_of_a_year(stake: StakeRecord, current: u32, apy_bps: u32)
    requires
        stake.amount >= 0,
        current == stake.last_claim_ledger + LEDGERS_PER_YEAR,
    ensures
        rules::accrued(stake, current, apy_bps) == stake.amount * apy_bps / 10_000,
{
    lemma_accrued_nonnegative(stake, current, apy_bps);
    let yearly = stake.amount * apy_bps;
    let year: int = LEDGERS_PER_YEAR as int;
    vstd::arithmetic::div_mod::lemma_div_multiples_vanish_quotient(year, yearly, 10_000);
    assert(yearly * year == year * yearly) by (nonlinear_arith);
}

/// Law of growth: yield never shrinks with time or with the rate.
pub proof fn law_yield_grows(
    stake: StakeRecord,
    earlier: u32,
    later: u32,
    lower_bps: u32,
    higher_bps: u32,
)
    requires
        stake.amount >= 0,
        earlier <= later,
        lower_bps <= higher_bps,
    ensures
        rules::accrued(stake, earlier, lower_bps) <= rules::accrued(stake, later, higher_bps),
{
    lemma_accrued_nonnegative(stake, earlier, lower_bps);
    lemma_accrued_nonnegative(stake, later, higher_bps);
    let amount: int = stake.amount as int;
    let low: int = lower_bps as int;
    let high: int = higher_bps as int;
    let short = rules::elapsed(stake, earlier);
    let long = rules::elapsed(stake, later);
    assert(amount * low <= amount * high) by (nonlinear_arith)
        requires
            amount >= 0,
            low <= high,
    ;
    assert(amount * low * short <= amount * high * long) by (nonlinear_arith)
        requires
            0 <= amount * low <= amount * high,
            0 <= short <= long,
    ;
    vstd::arithmetic::div_mod::lemma_div_is_ordered(
        amount * low * short,
        amount * high * long,
        BPS_DENOM * LEDGERS_PER_YEAR,
    );
}

/// Law of split accrual: yield cut off at a point in between adds up to the
/// yield of the whole time, or to one unit less.
pub proof fn law_yield_splits(stake: StakeRecord, middle: u32, end: u32, apy_bps: u32)
    requires
        stake.amount >= 0,
        stake.last_claim_ledger <= middle <= end,
    ensures
        ({
            let whole = rules::accrued(stake, end, apy_bps);
            let parts = rules::accrued(stake, middle, apy_bps) + rules::accrued(
                StakeRecord { last_claim_ledger: middle, ..stake },
                end,
                apy_bps,
            );
            parts <= whole <= parts + 1
        }),
{
    let rest = StakeRecord { last_claim_ledger: middle, ..stake };
    lemma_accrued_nonnegative(stake, middle, apy_bps);
    lemma_accrued_nonnegative(stake, end, apy_bps);
    lemma_accrued_nonnegative(rest, end, apy_bps);
    let yearly = stake.amount * apy_bps;
    let first: int = middle - stake.last_claim_ledger;
    let second: int = end - middle;
    assert(yearly * (first + second) == yearly * first + yearly * second) by (nonlinear_arith);
    let a = yearly * first;
    let b = yearly * second;
    let d: int = BPS_DENOM * LEDGERS_PER_YEAR;
    assert(a / d + b / d <= (a + b) / d <= a / d + b / d + 1) by (nonlinear_arith)
        requires
            a >= 0,
            b >= 0,
            d == 63_072_000_000,
    ;
}

/// Law of the preview: the pending yield is what a claim in the same ledger
/// pays into plasma, and right after that claim nothing is pending any more.
pub proof fn law_pending_matches_claim(ledger: LedgerView, current: u32, caller: Address)
    requires
        state::sound(ledger),
        rules::pending_result(ledger, current, caller) is Ok,
        rules::claim_in_range(ledger, current, caller),
    ensures
        ({
            let pending = rules::pending_result(ledger, current, caller)->Ok_0;
            let after = rules::claim_post(ledger, current, caller);
            &&& after.balance(caller, ResourceType::Plasma) == ledger.balance(
                caller,
                ResourceType::Plasma,
            ) + pending
            &&& rules::pending_result(after, current, caller) == Ok::<i128, ResourceError>(0)
            &&& pending == 0 ==> after == ledger
        }),
{
    let stake = ledger.stake(caller)->0;
    assert(state::sound_stake(ledger, DataKey::StakeRecord(caller)));
    lemma_accrued_nonnegative(stake, current, ledger.config()->0.apy_basis_points);
}

/// Law of partial claims: claiming in between never pays more than waiting, and
/// at most one unit less. A claim that pays nothing costs nothing.
pub proof fn law_partial_claims(ledger: LedgerView, middle: u32, end: u32, caller: Address)
    requires
        state::sound(ledger),
        rules::pending_result(ledger, middle, caller) is Ok,
        ledger.stake(caller)->0.last_claim_ledger <= middle <= end,
    ensures
        ({
            let apy_bps = ledger.config()->0.apy_basis_points;
            let stake = ledger.stake(caller)->0;
            let whole = rules::accrued(stake, end, apy_bps);
            let first = rules::accrued(stake, middle, apy_bps);
            let between = rules::claim_post(ledger, middle, caller);
            let second = rules::accrued(between.stake(caller)->0, end, apy_bps);
            &&& between.stake(caller) is Some
            &&& between.config() == ledger.config()
            &&& first + second <= whole <= first + second + 1
            &&& first == 0 ==> second == whole
        }),
{
    let stake = ledger.stake(caller)->0;
    assert(state::sound_stake(ledger, DataKey::StakeRecord(caller)));
    law_yield_splits(stake, middle, end, ledger.config()->0.apy_basis_points);
    lemma_accrued_nonnegative(stake, middle, ledger.config()->0.apy_basis_points);
}

} // verus!
