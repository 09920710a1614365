//! Who is calling, and when.

use vstd::prelude::*;

verus! {

/// The identity of an account or of a deployed contract.
///
/// Nothing but identity is ever read of an address, so a number that is
/// unique to it stands for it.
#[derive(Clone, Copy, Debug, PartialEq, Eq, Structural)]
pub struct Address {
    pub id: u64,
}

/// The circumstances of one call: the ledger it is part of, and the addresses
/// that have authorised it.
#[derive(Debug)]
pub struct Invocation {
    sequence: u32,
    signers: Vec<Address>,
}

impl Invocation {
    /// The sequence number of the ledger that the call is part of.
    pub closed spec fn ledger(&self) -> u32 {
        self.sequence
    }

    /// The addresses that have authorised the call.
    pub closed spec fn signers(&self) -> Set<Address> {
        self.signers@.to_set()
    }

    /// `address` has authorised the call.
    pub open spec fn authorized_by(&self, address: Address) -> bool {
        self.signers().contains(address)
    }

    /// A call in ledger `sequence` that nobody has authorised yet.
    pub fn new(sequence: u32) -> (invocation: Invocation)
        ensures
            invocation.ledger() == sequence,
            invocation.signers() == Set::<Address>::empty(),
    {
        let signers: Vec<Address> = Vec::new();
        assert(signers@.to_set() =~= Set::<Address>::empty());
        Invocation { sequence, signers }
    }

    /// Records that `address` has authorised the call.
    pub fn authorize(&mut self, address: Address)
        ensures
            final(self).ledger() == old(self).ledger(),
            final(self).signers() == old(self).signers().insert(address),
    {
        let ghost before = self.signers@;
        self.signers.push(address);
        proof {
            broadcast use vstd::seq_lib::group_seq_properties;

            assert(before.push(address).to_set() =~= before.to_set().insert(address));
        }
    }

    /// Whether `address` has authorised the call.
    pub fn is_authorized_by(&self, address: Address) -> (yes: bool)
        ensures
            yes == self.authorized_by(address),
    {
        let mut i: usize = 0;
        while i < self.signers.len()
            invariant
                i <= self.signers.len(),
                forall|j: int| 0 <= j < i ==> self.signers@[j] != address,
            decreases self.signers.len() - i,
        {
            if self.signers[i] == address {
                assert(self.signers@.contains(address));
                return true;
            }
            i += 1;
        }
        assert(!self.signers@.contains(address));
        false
    }

    /// The sequence number of the ledger that the call is part of.
    pub fn sequence(&self) -> (sequence: u32)
        ensures
            sequence == self.ledger(),
    {
        self.sequence
    }
}

} // verus!
