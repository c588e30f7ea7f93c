use crate::layout::Region;
use crate::storage::{word_at, Storage};
use crate::word::Word;
use vstd::prelude::*;

verus! {

/// How many slots the fields of module A take: one, for its number.
pub const CONTRACT_A_SLOTS: u64 = 1;

/// Sub-contract module A: one number, kept in the first slot of the region
/// that the module owns.
pub struct ContractA {
    region: Region,
}

impl ContractA {
    /// The region has room for the fields of the module.
    #[verifier::type_invariant]
    pub closed spec fn wf(self) -> bool {
        self.region.size >= CONTRACT_A_SLOTS
    }

    /// The region that the module owns.
    pub closed spec fn region(self) -> Region {
        self.region
    }

    /// The slot that holds the number.
    pub open spec fn number_slot(self) -> u64 {
        self.region().offset
    }

    /// The number of the module, in storage with the written slots `slots`.
    pub open spec fn number(self, slots: Map<u64, Word>) -> Word {
        word_at(slots, self.number_slot())
    }

    /// Places the module on `region`, if the region has room for it.
    pub fn bind(region: Region) -> (r: Option<ContractA>)
        ensures
            r is Some <==> region.size >= CONTRACT_A_SLOTS,
            r matches Some(module) ==> module.wf() && module.region() == region,
    {
        if region.size >= CONTRACT_A_SLOTS {
            Some(ContractA { region })
        } else {
            None
        }
    }

    /// The region that the module owns.
    pub fn owned_region(&self) -> (r: Region)
        ensures
            self.wf(),
            r == self.region(),
            r.contains(self.number_slot() as int),
    {
        proof {
            use_type_invariant(self);
        }
        self.region
    }

    /// Reads the number of the module.
    pub fn ret_num(&self, storage: &Storage) -> (number: Word)
        ensures
            number == self.number(storage@),
    {
        proof {
            use_type_invariant(self);
        }
        storage.load_in(self.region, 0).unwrap()
    }

    /// Writes the number of the module. No slot but the one of the number
    /// changes.
    pub fn set_num(&self, storage: &mut Storage, number: Word)
        ensures
            final(storage)@ == old(storage)@.insert(self.number_slot(), number),
    {
        proof {
            use_type_invariant(self);
        }
        storage.store_in(self.region, 0, number).unwrap()
    }
}

} // verus!
