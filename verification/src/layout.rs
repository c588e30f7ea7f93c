use crate::error::Error;
use vstd::prelude::*;

verus! {

/// A contiguous span of storage slots: `size` slots, the first at `offset`.
#[derive(Clone, Copy, Debug, PartialEq, Eq, Structural)]
pub struct Region {
    pub offset: u64,
    pub size: u64,
}

impl Region {
    /// The slot just past the last slot of the region.
    pub open spec fn end(self) -> int {
        self.offset + self.size
    }

    /// Whether `slot` lies in the region.
    pub open spec fn contains(self, slot: int) -> bool {
        self.offset <= slot < self.end()
    }

    /// Whether the two regions have no slot in common.
    pub open spec fn disjoint(self, other: Region) -> bool {
        forall|slot: int| !(self.contains(slot) && #[trigger] other.contains(slot))
    }

    /// Whether the two regions have a slot in common.
    pub fn overlaps(&self, other: &Region) -> (r: bool)
        ensures
            r == !self.disjoint(*other),
    {
        if self.size == 0 || other.size == 0 {
            return false;
        }
        // Both regions hold their own first slot, so they meet exactly when
        // the first slot of the one that starts later lies in the other.
        let r = if self.offset <= other.offset {
            other.offset - self.offset < self.size
        } else {
            self.offset - other.offset < other.size
        };
        proof {
            if r {
                let first: int = if self.offset <= other.offset {
                    other.offset as int
                } else {
                    self.offset as int
                };
                assert(self.contains(first) && other.contains(first));
            }
        }
        r
    }
}

/// The sum of the first `n` of the declared sizes: where the allocator puts
/// the region of declaration `n`.
pub open spec fn packed_offset(sizes: Seq<u64>, n: int) -> int
    decreases n,
{
    if n <= 0 {
        0
    } else {
        packed_offset(sizes, n - 1) + sizes[n - 1]
    }
}

/// Whether no two regions of the sequence have a slot in common.
pub open spec fn pairwise_disjoint(regions: Seq<Region>) -> bool {
    forall|i: int, j: int|
        0 <= i < j < regions.len() ==> (#[trigger] regions[i]).disjoint(#[trigger] regions[j])
}

/// Whether `regions` is what the allocator assigns to the declared `sizes`:
/// one region for each declaration, in the order of declaration, of the size
/// declared, each starting where the one before it ends.
pub open spec fn is_packing(regions: Seq<Region>, sizes: Seq<u64>) -> bool {
    &&& regions.len() == sizes.len()
    &&& forall|i: int|
        0 <= i < regions.len() ==> {
            &&& (#[trigger] regions[i]).size == sizes[i]
            &&& regions[i].offset == packed_offset(sizes, i)
        }
}

/// The offsets that the allocator assigns never go down.
pub proof fn lemma_packed_offset_monotonic(sizes: Seq<u64>, i: int, j: int)
    requires
        0 <= i <= j,
    ensures
        packed_offset(sizes, i) <= packed_offset(sizes, j),
    decreases j - i,
{
    if i < j {
        lemma_packed_offset_monotonic(sizes, i, j - 1);
    }
}

/// Two regions that the allocator assigns to different declarations have no
/// slot in common, whatever the sizes and their order.
pub proof fn lemma_packing_disjoint(regions: Seq<Region>, sizes: Seq<u64>)
    requires
        is_packing(regions, sizes),
    ensures
        pairwise_disjoint(regions),
{
    assert forall|i: int, j: int| 0 <= i < j < regions.len() implies (#[trigger] regions[i]).disjoint(
        #[trigger] regions[j],
    ) by {
        lemma_packed_offset_monotonic(sizes, i + 1, j);
    }
}

/// The declared sizes and their order settle the regions: the allocator can
/// assign them in one way only.
pub proof fn lemma_packing_unique(first: Seq<Region>, second: Seq<Region>, sizes: Seq<u64>)
    requires
        is_packing(first, sizes),
        is_packing(second, sizes),
    ensures
        first == second,
{
    assert(first =~= second);
}

/// Declaring one more module at the end leaves the regions of the modules
/// declared before it where they were.
pub proof fn lemma_packing_stable(
    before: Seq<Region>,
    after: Seq<Region>,
    sizes: Seq<u64>,
    size: u64,
)
    requires
        is_packing(before, sizes),
        is_packing(after, sizes.push(size)),
    ensures
        after.len() == before.len() + 1,
        forall|i: int| 0 <= i < before.len() ==> after[i] == before[i],
        after[before.len() as int].offset == packed_offset(sizes, sizes.len() as int),
        after[before.len() as int].size == size,
{
    assert forall|i: int| 0 <= i <= sizes.len() implies packed_offset(sizes.push(size), i)
        == packed_offset(sizes, i) by {
        lemma_packed_offset_prefix(sizes, size, i);
    }
}

proof fn lemma_packed_offset_prefix(sizes: Seq<u64>, size: u64, n: int)
    requires
        0 <= n <= sizes.len(),
    ensures
        packed_offset(sizes.push(size), n) == packed_offset(sizes, n),
    decreases n,
{
    if n > 0 {
        lemma_packed_offset_prefix(sizes, size, n - 1);
    }
}

/// The storage regions of the modules of one contract, in the order in which
/// the modules are declared.
pub struct Layout {
    regions: Vec<Region>,
}

impl View for Layout {
    type V = Seq<Region>;

    closed spec fn view(&self) -> Seq<Region> {
        self.regions@
    }
}

impl Layout {
    /// No two regions of a layout have a slot in common.
    #[verifier::type_invariant]
    pub open spec fn wf(self) -> bool {
        pairwise_disjoint(self@)
    }

    /// Assigns a region to each declared size, in the order of declaration:
    /// the first region starts at slot 0 and each other one where the one
    /// before it ends.
    ///
    /// Fails when the sizes add up to more slots than can be told apart.
    pub fn allocate(sizes: &Vec<u64>) -> (r: Result<Layout, Error>)
        ensures
            r is Ok <==> packed_offset(sizes@, sizes.len() as int) <= u64::MAX,
            r matches Ok(layout) ==> layout.wf() && is_packing(layout@, sizes@),
            r matches Err(e) ==> e == Error::LayoutCollisionError,
    {
        let mut regions: Vec<Region> = Vec::new();
        let mut next: u64 = 0;
        let mut i: usize = 0;
        while i < sizes.len()
            invariant
                0 <= i <= sizes.len(),
                next == packed_offset(sizes@, i as int),
                is_packing(regions@, sizes@.take(i as int)),
            decreases sizes.len() - i,
        {
            let size = sizes[i];
            if size > u64::MAX - next {
                proof {
                    lemma_packed_offset_monotonic(sizes@, i + 1, sizes.len() as int);
                }
                return Err(Error::LayoutCollisionError);
            }
            regions.push(Region { offset: next, size });
            next = next + size;
            i = i + 1;
            proof {
                let taken = sizes@.take(i as int);
                assert forall|k: int| 0 <= k < regions.len() implies {
                    &&& (#[trigger] regions@[k]).size == taken[k]
                    &&& regions@[k].offset == packed_offset(taken, k)
                } by {
                    lemma_packed_offset_take(sizes@, i as int, k);
                    lemma_packed_offset_take(sizes@, i - 1, k);
                }
            }
        }
        proof {
            assert(sizes@.take(i as int) =~= sizes@);
            lemma_packing_disjoint(regions@, sizes@);
        }
        Ok(Layout { regions })
    }

    /// Takes the regions as they are given, one for each module in the order
    /// of declaration.
    ///
    /// Fails when two of them have a slot in common.
    pub fn from_regions(regions: Vec<Region>) -> (r: Result<Layout, Error>)
        ensures
            r is Ok <==> pairwise_disjoint(regions@),
            r matches Ok(layout) ==> layout.wf() && layout@ == regions@,
            r matches Err(e) ==> e == Error::LayoutCollisionError,
    {
        let mut j: usize = 0;
        while j < regions.len()
            invariant
                0 <= j <= regions.len(),
                forall|a: int, b: int|
                    0 <= a < b < j ==> (#[trigger] regions@[a]).disjoint(#[trigger] regions@[b]),
            decreases regions.len() - j,
        {
            let mut i: usize = 0;
            while i < j
                invariant
                    0 <= i <= j < regions.len(),
                    forall|a: int|
                        0 <= a < i ==> (#[trigger] regions@[a]).disjoint(regions@[j as int]),
                decreases j - i,
            {
                if regions[i].overlaps(&regions[j]) {
                    return Err(Error::LayoutCollisionError);
                }
                i = i + 1;
            }
            j = j + 1;
        }
        Ok(Layout { regions })
    }

    /// A layout that is well formed keeps the regions of different modules
    /// apart.
    pub proof fn lemma_regions_disjoint(self, i: int, j: int)
        requires
            self.wf(),
            0 <= i < self@.len(),
            0 <= j < self@.len(),
            i != j,
        ensures
            self@[i].disjoint(self@[j]),
    {
        if i < j {
            assert(self.regions@[i].disjoint(self.regions@[j]));
        } else {
            assert(self.regions@[j].disjoint(self.regions@[i]));
        }
    }

    /// How many regions the layout holds.
    pub fn len(&self) -> (n: usize)
        ensures
            self.wf(),
            n == self@.len(),
    {
        proof {
            use_type_invariant(self);
        }
        self.regions.len()
    }

    /// The region of the module declared at position `index`, if there is one.
    pub fn region(&self, index: usize) -> (r: Option<Region>)
        ensures
            self.wf(),
            r == (if index < self@.len() {
                Some(self@[index as int])
            } else {
                None
            }),
    {
        proof {
            use_type_invariant(self);
        }
        if index < self.regions.len() {
            Some(self.regions[index])
        } else {
            None
        }
    }
}

proof fn lemma_packed_offset_take(sizes: Seq<u64>, n: int, k: int)
    requires
        0 <= k <= n <= sizes.len(),
    ensures
        packed_offset(sizes.take(n), k) == packed_offset(sizes, k),
    decreases k,
{
    if k > 0 {
        lemma_packed_offset_take(sizes, n, k - 1);
    }
}

} // verus!
