use crate::error::Error;
use std::collections::HashMap;
use vstd::prelude::*;

verus! {

/// One entry of a dispatch table: the selector of a call and the handler
/// that answers it.
#[derive(Debug)]
pub struct DispatchEntry<H> {
    pub selector: u32,
    pub handler: H,
}

/// Whether no two of the entries share a selector.
pub open spec fn selectors_unique<H>(entries: Seq<DispatchEntry<H>>) -> bool {
    forall|i: int, j: int|
        0 <= i < j < entries.len() ==> (#[trigger] entries[i]).selector != (
        #[trigger] entries[j]).selector
}

/// The mapping that the first `n` of the entries define: each selector goes
/// to the handler of its entry.
pub open spec fn entries_map<H>(entries: Seq<DispatchEntry<H>>, n: int) -> Map<u32, H>
    decreases n,
{
    if n <= 0 {
        Map::empty()
    } else {
        entries_map(entries, n - 1).insert(entries[n - 1].selector, entries[n - 1].handler)
    }
}

/// The mapping of the first `n` entries knows a selector exactly when one of
/// these entries has it.
pub proof fn lemma_entries_map_dom<H>(entries: Seq<DispatchEntry<H>>, n: int, selector: u32)
    requires
        0 <= n <= entries.len(),
    ensures
        entries_map(entries, n).contains_key(selector) <==> exists|i: int|
            0 <= i < n && (#[trigger] entries[i]).selector == selector,
    decreases n,
{
    if n > 0 {
        lemma_entries_map_dom(entries, n - 1, selector);
        if entries[n - 1].selector == selector {
            assert(0 <= n - 1 < n && entries[n - 1].selector == selector);
        }
    }
}

/// Where no two entries share a selector, the mapping sends the selector of
/// each entry to the handler of that entry.
pub proof fn lemma_entries_map_handler<H>(entries: Seq<DispatchEntry<H>>, n: int, i: int)
    requires
        0 <= i < n <= entries.len(),
        selectors_unique(entries),
    ensures
        entries_map(entries, n).contains_key(entries[i].selector),
        entries_map(entries, n)[entries[i].selector] == entries[i].handler,
    decreases n,
{
    if i < n - 1 {
        lemma_entries_map_handler(entries, n - 1, i);
    }
}

/// The table that routes a call to its handler by the selector of the call.
pub struct DispatchTable<H> {
    handlers: HashMap<u32, H>,
}

impl<H> View for DispatchTable<H> {
    type V = Map<u32, H>;

    /// The handler of each selector that the table knows.
    closed spec fn view(&self) -> Map<u32, H> {
        self.handlers@
    }
}

impl<H: Copy> DispatchTable<H> {
    /// Builds the table of the given entries.
    ///
    /// Fails when two entries share a selector: such a table is never built,
    /// so no call can meet it.
    pub fn build(entries: &Vec<DispatchEntry<H>>) -> (r: Result<DispatchTable<H>, Error>)
        ensures
            r is Ok <==> selectors_unique(entries@),
            r matches Ok(table) ==> table@ == entries_map(entries@, entries.len() as int),
            r matches Err(e) ==> e == Error::SelectorCollisionError,
    {
        let mut handlers: HashMap<u32, H> = HashMap::new();
        let mut n: usize = 0;
        while n < entries.len()
            invariant
                0 <= n <= entries.len(),
                handlers@ == entries_map(entries@, n as int),
                forall|i: int, j: int|
                    0 <= i < j < n ==> (#[trigger] entries@[i]).selector != (
                    #[trigger] entries@[j]).selector,
            decreases entries.len() - n,
        {
            let selector = entries[n].selector;
            proof {
                lemma_entries_map_dom(entries@, n as int, selector);
            }
            if handlers.contains_key(&selector) {
                return Err(Error::SelectorCollisionError);
            }
            handlers.insert(selector, entries[n].handler);
            n = n + 1;
        }
        Ok(DispatchTable { handlers })
    }

    /// Looks up the handler that answers `selector`, if the table knows the
    /// selector.
    pub fn lookup(&self, selector: u32) -> (r: Option<H>)
        ensures
            r == (if self@.contains_key(selector) {
                Some(self@[selector])
            } else {
                None
            }),
    {
        match self.handlers.get(&selector) {
            Some(handler) => Some(*handler),
            None => None,
        }
    }
}

} // verus!
