use crate::error::Error;
use crate::layout::Region;
use crate::word::Word;
use std::collections::HashMap;
use vstd::prelude::*;

verus! {

/// Persistent storage addressed by slot: every slot holds one word, and a
/// slot that was never written holds zero.
pub struct Storage {
    slots: HashMap<u64, Word>,
}

impl View for Storage {
    type V = Map<u64, Word>;

    /// The slots that were written, each with the word it holds.
    closed spec fn view(&self) -> Map<u64, Word> {
        self.slots@
    }
}

/// The word that storage with the written slots `slots` holds at `slot`.
pub open spec fn word_at(slots: Map<u64, Word>, slot: u64) -> Word {
    if slots.contains_key(slot) {
        slots[slot]
    } else {
        Word { limb0: 0, limb1: 0, limb2: 0, limb3: 0 }
    }
}

/// Whether the two storages hold the same word in every slot of `region`.
pub open spec fn agree_on(a: Map<u64, Word>, b: Map<u64, Word>, region: Region) -> bool {
    forall|slot: u64| region.contains(slot as int) ==> word_at(a, slot) == word_at(b, slot)
}

/// A write inside one region is not seen in a region that has no slot in
/// common with it.
pub proof fn lemma_write_stays_in_region(
    slots: Map<u64, Word>,
    written: Region,
    slot: u64,
    word: Word,
    other: Region,
)
    requires
        written.contains(slot as int),
        written.disjoint(other),
    ensures
        agree_on(slots.insert(slot, word), slots, other),
{
    assert forall|s: u64| other.contains(s as int) implies word_at(slots.insert(slot, word), s)
        == word_at(slots, s) by {
        assert(!(written.contains(s as int) && other.contains(s as int)));
    }
}

impl Storage {
    /// The word that the storage holds at `slot`.
    pub open spec fn read(&self, slot: u64) -> Word {
        word_at(self@, slot)
    }

    /// Storage in which no slot was written.
    pub fn new() -> (s: Storage)
        ensures
            s@ == Map::<u64, Word>::empty(),
    {
        Storage { slots: HashMap::new() }
    }

    /// Reads the word at `slot`.
    pub fn load(&self, slot: u64) -> (w: Word)
        ensures
            w == self.read(slot),
    {
        match self.slots.get(&slot) {
            Some(w) => *w,
            None => Word::zero(),
        }
    }

    /// Writes `word` at `slot` and leaves every other slot as it was.
    pub fn store(&mut self, slot: u64, word: Word)
        ensures
            final(self)@ == old(self)@.insert(slot, word),
    {
        self.slots.insert(slot, word);
    }

    /// Reads the word at position `field` of `region`, for the module that
    /// owns the region.
    ///
    /// The access is denied when `field` lies outside the region or when the
    /// storage has no such slot.
    pub fn load_in(&self, region: Region, field: u64) -> (r: Result<Word, Error>)
        ensures
            r is Ok <==> field < region.size && region.offset + field <= u64::MAX,
            r matches Ok(w) ==> w == self.read((region.offset + field) as u64),
            r matches Err(e) ==> e == Error::StorageAccessError,
    {
        if field < region.size && field <= u64::MAX - region.offset {
            Ok(self.load(region.offset + field))
        } else {
            Err(Error::StorageAccessError)
        }
    }

    /// Writes `word` at position `field` of `region`, for the module that
    /// owns the region. No other slot changes.
    ///
    /// The access is denied, and nothing is written, when `field` lies
    /// outside the region or when the storage has no such slot.
    pub fn store_in(&mut self, region: Region, field: u64, word: Word) -> (r: Result<(), Error>)
        ensures
            r is Ok <==> field < region.size && region.offset + field <= u64::MAX,
            r is Ok ==> final(self)@ == old(self)@.insert((region.offset + field) as u64, word),
            r matches Err(e) ==> e == Error::StorageAccessError && final(self)@ == old(self)@,
    {
        if field < region.size && field <= u64::MAX - region.offset {
            self.store(region.offset + field, word);
            Ok(())
        } else {
            Err(Error::StorageAccessError)
        }
    }
}

} // verus!
