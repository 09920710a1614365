//! The part of the ledger that the resource economy lives on.

use vstd::prelude::*;

use crate::invocation::Address;
use crate::records::{Config, DataKey, HarvestRecord, ResourceType, StakeRecord};
use crate::table::Table;

verus! {

/// What the economy announces to the outside world.
#[derive(Clone, Copy, Debug, PartialEq, Eq, Structural)]
pub enum Event {
    /// Stardust was minted for an anomaly.
    ResourceHarvested { caller: Address, ship_id: u64, anomaly_index: u32, amount: i128 },
    /// Yield was paid out on a staking position.
    YieldClaimed { caller: Address, staked_amount: i128, yield_amount: i128, ledger: u32 },
}

impl Event {
    /// The topic under which the event is published.
    pub open spec fn spec_topic(self) -> Seq<char> {
        match self {
            Event::ResourceHarvested { .. } => "res_harv"@,
            Event::YieldClaimed { .. } => "yld_claim"@,
        }
    }

    /// The topic under which the event is published.
    pub fn topic(&self) -> (topic: &'static str)
        ensures
            topic@ == self.spec_topic(),
    {
        match self {
            Event::ResourceHarvested { .. } => "res_harv",
            Event::YieldClaimed { .. } => "yld_claim",
        }
    }
}

/// A change of one ledger entry.
#[derive(Clone, Copy, Debug, PartialEq, Eq, Structural)]
pub enum Write {
    SetConfig(DataKey, Config),
    SetHarvestRecord(DataKey, HarvestRecord),
    SetStake(DataKey, StakeRecord),
    RemoveStake(DataKey),
    SetAmount(DataKey, i128),
}

/// The ledger entries that a call works on, the writes that it makes to them and
/// the events that it publishes, both oldest first.
///
/// An entry that is not there counts as absent: a balance or a total that is
/// absent is zero, and a ship without a record has harvested nothing.
#[derive(Debug)]
pub struct Ledger {
    pub instance: Table<Config>,
    pub harvests: Table<HarvestRecord>,
    pub stakes: Table<StakeRecord>,
    pub amounts: Table<i128>,
    pub writes: Vec<Write>,
    pub events: Vec<Event>,
}

/// The mathematical content of a [`Ledger`].
#[verifier::ext_equal]
pub struct LedgerView {
    pub instance: Map<DataKey, Config>,
    pub harvests: Map<DataKey, HarvestRecord>,
    pub stakes: Map<DataKey, StakeRecord>,
    pub amounts: Map<DataKey, i128>,
    pub writes: Seq<Write>,
    pub events: Seq<Event>,
}

impl LedgerView {
    /// A ledger without entries, writes or events.
    pub open spec fn empty() -> LedgerView {
        LedgerView {
            instance: Map::empty(),
            harvests: Map::empty(),
            stakes: Map::empty(),
            amounts: Map::empty(),
            writes: Seq::empty(),
            events: Seq::empty(),
        }
    }

    /// The configuration, once the contract is initialised.
    pub open spec fn config(self) -> Option<Config> {
        if self.instance.contains_key(DataKey::Config) {
            Some(self.instance[DataKey::Config])
        } else {
            None
        }
    }

    /// What the ship has harvested in its day window.
    pub open spec fn harvest_record(self, ship_id: u64) -> HarvestRecord {
        if self.harvests.contains_key(DataKey::HarvestRecord(ship_id)) {
            self.harvests[DataKey::HarvestRecord(ship_id)]
        } else {
            HarvestRecord { last_reset_ledger: 0, harvested_today: 0 }
        }
    }

    /// The staking position of `owner`.
    pub open spec fn stake(self, owner: Address) -> Option<StakeRecord> {
        if self.stakes.contains_key(DataKey::StakeRecord(owner)) {
            Some(self.stakes[DataKey::StakeRecord(owner)])
        } else {
            None
        }
    }

    /// The amount filed under `key`.
    pub open spec fn amount(self, key: DataKey) -> i128 {
        if self.amounts.contains_key(key) {
            self.amounts[key]
        } else {
            0
        }
    }

    /// The liquid balance of `owner` in a resource.
    pub open spec fn balance(self, owner: Address, resource_type: ResourceType) -> i128 {
        self.amount(DataKey::Balance(owner, resource_type))
    }

    /// The cumulative supply of a resource minted by harvesting.
    pub open spec fn minted(self, resource_type: ResourceType) -> i128 {
        self.amount(DataKey::TotalMinted(resource_type))
    }

    /// The ledger after one more write.
    pub open spec fn after(self, write: Write) -> LedgerView {
        let logged = LedgerView { writes: self.writes.push(write), ..self };
        match write {
            Write::SetConfig(key, config) => LedgerView {
                instance: self.instance.insert(key, config),
                ..logged
            },
            Write::SetHarvestRecord(key, record) => LedgerView {
                harvests: self.harvests.insert(key, record),
                ..logged
            },
            Write::SetStake(key, stake) => LedgerView {
                stakes: self.stakes.insert(key, stake),
                ..logged
            },
            Write::RemoveStake(key) => LedgerView { stakes: self.stakes.remove(key), ..logged },
            Write::SetAmount(key, amount) => LedgerView {
                amounts: self.amounts.insert(key, amount),
                ..logged
            },
        }
    }

    pub open spec fn with_config(self, config: Config) -> LedgerView {
        self.after(Write::SetConfig(DataKey::Config, config))
    }

    pub open spec fn with_harvest_record(self, ship_id: u64, record: HarvestRecord) -> LedgerView {
        self.after(Write::SetHarvestRecord(DataKey::HarvestRecord(ship_id), record))
    }

    pub open spec fn with_stake(self, owner: Address, stake: StakeRecord) -> LedgerView {
        self.after(Write::SetStake(DataKey::StakeRecord(owner), stake))
    }

    pub open spec fn without_stake(self, owner: Address) -> LedgerView {
        self.after(Write::RemoveStake(DataKey::StakeRecord(owner)))
    }

    pub open spec fn with_amount(self, key: DataKey, amount: int) -> LedgerView {
        self.after(Write::SetAmount(key, amount as i128))
    }

    pub open spec fn with_balance(
        self,
        owner: Address,
        resource_type: ResourceType,
        amount: int,
    ) -> LedgerView {
        self.with_amount(DataKey::Balance(owner, resource_type), amount)
    }

    pub open spec fn with_minted(self, resource_type: ResourceType, amount: int) -> LedgerView {
        self.with_amount(DataKey::TotalMinted(resource_type), amount)
    }

    pub open spec fn with_event(self, event: Event) -> LedgerView {
        LedgerView { events: self.events.push(event), ..self }
    }

    /// Only finitely many entries are there.
    pub open spec fn finite(self) -> bool {
        &&& self.instance.dom().finite()
        &&& self.harvests.dom().finite()
        &&& self.stakes.dom().finite()
        &&& self.amounts.dom().finite()
    }
}

impl View for Ledger {
    type V = LedgerView;

    open spec fn view(&self) -> LedgerView {
        LedgerView {
            instance: self.instance@,
            harvests: self.harvests@,
            stakes: self.stakes@,
            amounts: self.amounts@,
            writes: self.writes@,
            events: self.events@,
        }
    }
}

impl Ledger {
    /// A ledger holds only finitely many entries.
    pub proof fn lemma_view_finite(&self)
        ensures
            self@.finite(),
    {
        self.instance.lemma_view_finite();
        self.harvests.lemma_view_finite();
        self.stakes.lemma_view_finite();
        self.amounts.lemma_view_finite();
    }

    /// A ledger without entries, writes or events.
    pub fn new() -> (ledger: Ledger)
        ensures
            ledger@ == LedgerView::empty(),
    {
        Ledger {
            instance: Table::new(),
            harvests: Table::new(),
            stakes: Table::new(),
            amounts: Table::new(),
            writes: Vec::new(),
            events: Vec::new(),
        }
    }

    /// The amount filed under `key`, zero where there is none.
    pub fn amount(&self, key: DataKey) -> (amount: i128)
        ensures
            amount == self@.amount(key),
    {
        match self.amounts.get(key) {
            Some(amount) => amount,
            None => 0,
        }
    }

    /// The harvest record of a ship, a blank one where there is none.
    pub fn harvest_record(&self, ship_id: u64) -> (record: HarvestRecord)
        ensures
            record == self@.harvest_record(ship_id),
    {
        match self.harvests.get(DataKey::HarvestRecord(ship_id)) {
            Some(record) => record,
            None => HarvestRecord { last_reset_ledger: 0, harvested_today: 0 },
        }
    }

    /// Makes a write, and logs it.
    pub fn write(&mut self, write: Write)
        ensures
            final(self)@ == old(self)@.after(write),
    {
        match write {
            Write::SetConfig(key, config) => self.instance.set(key, config),
            Write::SetHarvestRecord(key, record) => self.harvests.set(key, record),
            Write::SetStake(key, stake) => self.stakes.set(key, stake),
            Write::RemoveStake(key) => self.stakes.remove(key),
            Write::SetAmount(key, amount) => self.amounts.set(key, amount),
        }
        self.writes.push(write);
    }

    /// Publishes an event.
    pub fn publish(&mut self, event: Event)
        ensures
            final(self)@ == old(self)@.with_event(event),
    {
        self.events.push(event);
    }
}

} // verus!
