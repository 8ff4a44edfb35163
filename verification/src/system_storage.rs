//! Storage sizing and allocation for a composed system.
//!
//! Before a system is allowed to run, the backing storage for every
//! variable of every block is computed and reserved. `SystemStorageBuilder`
//! accumulates one byte-range slot per variable, laid out contiguously
//! from offset zero, and fails at build time - deterministically, before
//! any peripheral or scheduling activity - if the target's budget is
//! exceeded. The layout is immutable once built: no variable may be
//! created or resized after the system starts running.
//!
//! Two allocation strategies are selectable per target. The static
//! strategy has a fixed capacity chosen at build time and is
//! allocation-free, as required on targets without a general-purpose
//! allocator; an over-budget request fails the build. The heap strategy
//! relaxes the fixed ceiling (up to the machine's address range) but
//! still computes the total size up front, in one layout, never per step.
//! The two strategies provide the same slot semantics; only the capacity
//! ceiling differs, so the choice is invisible to block authors.

use vstd::prelude::*;

use crate::errors::StorageOverflowError;

verus! {

/// Which allocation strategy backs a system's storage.
#[derive(Clone, Copy, Debug, PartialEq, Eq, Structural)]
pub enum StoragePolicy {
    /// Fixed-capacity, allocation-free layout sized at build time.
    Static { capacity: usize },
    /// Dynamically sized layout for targets with an allocator; the only
    /// remaining ceiling is the machine's address range.
    Heap,
}

/// The capacity ceiling a policy imposes, in bytes.
pub open spec fn policy_capacity(p: StoragePolicy) -> int {
    match p {
        StoragePolicy::Static { capacity } => capacity as int,
        StoragePolicy::Heap => usize::MAX as int,
    }
}

/// One variable's reserved byte range inside the system storage region.
#[derive(Clone, Copy, Debug, PartialEq, Eq, Structural)]
pub struct SlotRange {
    /// First byte of the slot.
    pub offset: usize,
    /// Length of the slot in bytes.
    pub size: usize,
}

/// Total of a sequence of slot sizes, in bytes.
pub open spec fn total_of(sizes: Seq<usize>) -> int
    decreases sizes.len(),
{
    if sizes.len() == 0 {
        0
    } else {
        total_of(sizes.drop_last()) + sizes.last()
    }
}

/// Reserving more variables never shrinks the total: the total of a
/// prefix is at most the total of a longer prefix.
pub proof fn lemma_total_of_take_le(sizes: Seq<usize>, i: int, j: int)
    requires
        0 <= i <= j <= sizes.len(),
    ensures
        total_of(sizes.take(i)) <= total_of(sizes.take(j)),
    decreases j - i,
{
    if i < j {
        lemma_total_of_take_le(sizes, i, j - 1);
        assert(sizes.take(j).drop_last() =~= sizes.take(j - 1));
        assert(total_of(sizes.take(j)) == total_of(sizes.take(j - 1)) + sizes[j - 1]);
    }
}

/// The sizes of a layout's slots, in reservation order.
pub open spec fn slot_sizes(layout: Seq<SlotRange>) -> Seq<usize> {
    layout.map_values(|s: SlotRange| s.size)
}

/// A layout is well formed when its slots are laid out contiguously from
/// offset zero: every slot starts exactly where the sizes before it end.
pub open spec fn layout_wf(layout: Seq<SlotRange>) -> bool {
    forall|i: int|
        0 <= i < layout.len() ==> (#[trigger] layout[i]).offset == total_of(
            slot_sizes(layout).take(i),
        )
}

/// Slots of a well-formed layout are pairwise disjoint: a slot reserved
/// earlier ends no later than a slot reserved later begins, so no two
/// variables ever share a byte.
pub proof fn lemma_layout_slots_disjoint(layout: Seq<SlotRange>, i: int, j: int)
    requires
        layout_wf(layout),
        0 <= i < j < layout.len(),
    ensures
        layout[i].offset + layout[i].size <= layout[j].offset,
{
    let sizes = slot_sizes(layout);
    assert(sizes.take(i + 1).drop_last() =~= sizes.take(i));
    assert(total_of(sizes.take(i + 1)) == total_of(sizes.take(i)) + sizes[i]);
    lemma_total_of_take_le(sizes, i + 1, j);
}

/// Accumulates the storage requirements of every block in a system and
/// produces the concrete storage instance, or fails at build time when
/// the strategy's budget is exceeded.
pub struct SystemStorageBuilder {
    policy: StoragePolicy,
    next_offset: usize,
    slots: Vec<SlotRange>,
}

impl SystemStorageBuilder {
    /// The strategy this builder sizes for.
    pub closed spec fn policy_spec(&self) -> StoragePolicy {
        self.policy
    }

    /// Bytes reserved so far.
    pub closed spec fn used_spec(&self) -> int {
        self.next_offset as int
    }

    /// The slots reserved so far, in reservation order.
    pub closed spec fn layout_spec(&self) -> Seq<SlotRange> {
        self.slots@
    }

    /// Slots are contiguous from zero, the used count matches them, and
    /// the strategy's ceiling is respected.
    pub closed spec fn wf(&self) -> bool {
        &&& layout_wf(self.slots@)
        &&& self.next_offset as int == total_of(slot_sizes(self.slots@))
        &&& self.next_offset as int <= policy_capacity(self.policy)
    }

    /// An empty builder for the given strategy.
    pub fn new(policy: StoragePolicy) -> (r: Self)
        ensures
            r.wf(),
            r.policy_spec() == policy,
            r.used_spec() == 0,
            r.layout_spec() == Seq::<SlotRange>::empty(),
    {
        Self { policy, next_offset: 0, slots: Vec::new() }
    }

    /// Bytes still available under the strategy's ceiling.
    pub fn available(&self) -> (r: usize)
        requires
            self.wf(),
        ensures
            r as int == policy_capacity(self.policy_spec()) - self.used_spec(),
    {
        match self.policy {
            StoragePolicy::Static { capacity } => capacity - self.next_offset,
            StoragePolicy::Heap => usize::MAX - self.next_offset,
        }
    }

    /// Reserves one variable's slot of `size` bytes.
    ///
    /// Succeeds, with the next contiguous byte range, exactly when the
    /// request still fits under the strategy's ceiling; otherwise fails
    /// with `StorageOverflowError` and leaves the builder unchanged.
    pub fn reserve(&mut self, size: usize) -> (r: Result<SlotRange, StorageOverflowError>)
        requires
            old(self).wf(),
        ensures
            final(self).wf(),
            final(self).policy_spec() == old(self).policy_spec(),
            old(self).used_spec() + size <= policy_capacity(old(self).policy_spec()) ==> {
                &&& r is Ok
                &&& r->Ok_0 == (SlotRange { offset: old(self).used_spec() as usize, size })
                &&& final(self).used_spec() == old(self).used_spec() + size
                &&& final(self).layout_spec() == old(self).layout_spec().push(r->Ok_0)
            },
            old(self).used_spec() + size > policy_capacity(old(self).policy_spec()) ==> {
                &&& r is Err
                &&& r->Err_0 == (StorageOverflowError {
                    requested: size,
                    available: (policy_capacity(old(self).policy_spec()) - old(
                        self,
                    ).used_spec()) as usize,
                })
                &&& *final(self) == *old(self)
            },
    {
        let available = self.available();
        if size <= available {
            let slot = SlotRange { offset: self.next_offset, size };
            proof {
                let sizes = slot_sizes(self.slots@);
                let pushed = slot_sizes(self.slots@.push(slot));
                assert(pushed.drop_last() =~= sizes);
                assert(forall|i: int|
                    0 <= i < self.slots@.len() ==> pushed.take(i) =~= sizes.take(i));
                assert(pushed.take(self.slots@.len() as int) =~= sizes);
            }
            self.slots.push(slot);
            self.next_offset = self.next_offset + size;
            Ok(slot)
        } else {
            Err(StorageOverflowError { requested: size, available })
        }
    }

    /// Accumulates one entity's declared requirement: one slot per
    /// variable kind, in the fixed order parameters, inputs, outputs,
    /// discrete states. Succeeds exactly when the whole requirement
    /// still fits under the strategy's ceiling; on failure the builder
    /// is left unchanged, so one over-budget block cannot corrupt the
    /// layout.
    pub fn reserve_sized(&mut self, req: &StorageSize) -> (r: Result<(), StorageOverflowError>)
        requires
            old(self).wf(),
        ensures
            final(self).wf(),
            final(self).policy_spec() == old(self).policy_spec(),
            old(self).used_spec() + req.total_spec() <= policy_capacity(old(self).policy_spec())
                ==> {
                &&& r is Ok
                &&& final(self).used_spec() == old(self).used_spec() + req.total_spec()
                &&& final(self).layout_spec().len() == old(self).layout_spec().len() + 4
            },
            old(self).used_spec() + req.total_spec() > policy_capacity(old(self).policy_spec())
                ==> {
                &&& r is Err
                &&& *final(self) == *old(self)
            },
    {
        let avail = self.available();
        let total = match req.total() {
            Some(t) => t,
            None => {
                return Err(StorageOverflowError { requested: usize::MAX, available: avail });
            },
        };
        if total > avail {
            return Err(StorageOverflowError { requested: total, available: avail });
        }
        let r1 = self.reserve(req.parameter_bytes);
        let r2 = self.reserve(req.input_bytes);
        let r3 = self.reserve(req.output_bytes);
        let r4 = self.reserve(req.discrete_state_bytes);
        proof {
            assert(r1 is Ok && r2 is Ok && r3 is Ok && r4 is Ok);
        }
        Ok(())
    }

    /// Yields the concrete storage instance with the layout computed so
    /// far. The layout is immutable in size thereafter.
    pub fn build(self) -> (r: SystemStorage)
        requires
            self.wf(),
        ensures
            r.wf(),
            r.policy_spec() == self.policy_spec(),
            r.used_spec() == self.used_spec(),
            r.layout_spec() == self.layout_spec(),
    {
        SystemStorage { policy: self.policy, used: self.next_offset, slots: self.slots }
    }
}

/// The sized backing region of one composed system: the slot layout for
/// all variables of all blocks, computed once at build time. Values
/// inside the region may change while the system runs; the layout may
/// not. A storage instance is exclusively owned by the system it was
/// built for.
#[derive(Debug)]
pub struct SystemStorage {
    policy: StoragePolicy,
    used: usize,
    slots: Vec<SlotRange>,
}

impl SystemStorage {
    /// The strategy the storage was built with.
    pub closed spec fn policy_spec(&self) -> StoragePolicy {
        self.policy
    }

    /// Bytes occupied by the layout.
    pub closed spec fn used_spec(&self) -> int {
        self.used as int
    }

    /// The layout, one slot per variable, in reservation order.
    pub closed spec fn layout_spec(&self) -> Seq<SlotRange> {
        self.slots@
    }

    /// Same shape as the builder's invariant: contiguous slots from zero,
    /// within the strategy's ceiling.
    pub closed spec fn wf(&self) -> bool {
        &&& layout_wf(self.slots@)
        &&& self.used as int == total_of(slot_sizes(self.slots@))
        &&& self.used as int <= policy_capacity(self.policy)
    }

    /// Build-time memory diagnostic: bytes the layout occupies.
    pub fn used_bytes(&self) -> (r: usize)
        ensures
            r as int == self.used_spec(),
    {
        self.used
    }

    /// Build-time memory diagnostic: the strategy's capacity ceiling.
    pub fn capacity(&self) -> (r: usize)
        ensures
            r as int == policy_capacity(self.policy_spec()),
    {
        match self.policy {
            StoragePolicy::Static { capacity } => capacity,
            StoragePolicy::Heap => usize::MAX,
        }
    }

    /// How many variable slots the layout holds.
    pub fn slot_count(&self) -> (r: usize)
        ensures
            r == self.layout_spec().len(),
    {
        self.slots.len()
    }

    /// The byte range reserved for the `index`-th variable.
    pub fn slot(&self, index: usize) -> (r: SlotRange)
        requires
            index < self.layout_spec().len(),
        ensures
            r == self.layout_spec()[index as int],
    {
        self.slots[index]
    }
}

/// Sizing descriptor a block (or an aggregate of blocks) declares for its
/// variables: bytes needed per variable kind.
#[derive(Clone, Copy, Debug, PartialEq, Eq, Structural)]
pub struct StorageSize {
    pub parameter_bytes: usize,
    pub input_bytes: usize,
    pub output_bytes: usize,
    pub discrete_state_bytes: usize,
}

impl StorageSize {
    /// All four kinds together, in bytes.
    pub open spec fn total_spec(&self) -> int {
        self.parameter_bytes + self.input_bytes + self.output_bytes + self.discrete_state_bytes
    }

    /// A requirement of nothing.
    pub fn zero() -> (r: Self)
        ensures
            r.total_spec() == 0,
            r == (StorageSize {
                parameter_bytes: 0,
                input_bytes: 0,
                output_bytes: 0,
                discrete_state_bytes: 0,
            }),
    {
        StorageSize { parameter_bytes: 0, input_bytes: 0, output_bytes: 0, discrete_state_bytes: 0 }
    }

    /// All four kinds together; `None` when the total does not fit the
    /// machine's address range.
    pub fn total(&self) -> (r: Option<usize>)
        ensures
            self.total_spec() <= usize::MAX ==> r == Some(self.total_spec() as usize),
            self.total_spec() > usize::MAX ==> r is None,
    {
        let a = self.parameter_bytes;
        if self.input_bytes <= usize::MAX - a {
            let b = a + self.input_bytes;
            if self.output_bytes <= usize::MAX - b {
                let c = b + self.output_bytes;
                if self.discrete_state_bytes <= usize::MAX - c {
                    return Some(c + self.discrete_state_bytes);
                }
            }
        }
        None
    }

    /// Accumulates another block's requirement kind by kind; `None` when
    /// a kind's sum does not fit the machine's address range.
    pub fn plus(&self, other: &StorageSize) -> (r: Option<StorageSize>)
        ensures
            (self.parameter_bytes + other.parameter_bytes <= usize::MAX
                && self.input_bytes + other.input_bytes <= usize::MAX
                && self.output_bytes + other.output_bytes <= usize::MAX
                && self.discrete_state_bytes + other.discrete_state_bytes <= usize::MAX) ==> r
                == Some(StorageSize {
                parameter_bytes: (self.parameter_bytes + other.parameter_bytes) as usize,
                input_bytes: (self.input_bytes + other.input_bytes) as usize,
                output_bytes: (self.output_bytes + other.output_bytes) as usize,
                discrete_state_bytes: (self.discrete_state_bytes
                    + other.discrete_state_bytes) as usize,
            }),
            (self.parameter_bytes + other.parameter_bytes > usize::MAX
                || self.input_bytes + other.input_bytes > usize::MAX
                || self.output_bytes + other.output_bytes > usize::MAX
                || self.discrete_state_bytes + other.discrete_state_bytes > usize::MAX) ==> r
                is None,
    {
        if other.parameter_bytes <= usize::MAX - self.parameter_bytes
            && other.input_bytes <= usize::MAX - self.input_bytes
            && other.output_bytes <= usize::MAX - self.output_bytes
            && other.discrete_state_bytes <= usize::MAX - self.discrete_state_bytes {
            Some(
                StorageSize {
                    parameter_bytes: self.parameter_bytes + other.parameter_bytes,
                    input_bytes: self.input_bytes + other.input_bytes,
                    output_bytes: self.output_bytes + other.output_bytes,
                    discrete_state_bytes: self.discrete_state_bytes + other.discrete_state_bytes,
                },
            )
        } else {
            None
        }
    }
}

/// Any entity that needs backing storage - a block, or an aggregate of
/// blocks - declares its requirement as a `StorageSize`.
pub trait RequiresStorage {
    /// The declared requirement, as a mathematical value.
    spec fn storage_size_spec(&self) -> StorageSize;

    /// The declared requirement.
    fn storage_size(&self) -> (r: StorageSize)
        ensures
            r == self.storage_size_spec(),
    ;
}

/// Computes and reserves the whole layout for a list of per-variable byte
/// sizes, in order, under the given strategy.
///
/// Succeeds exactly when the total of all requirements fits under the
/// strategy's ceiling; the layout then holds one slot per requirement,
/// contiguous from zero (hence pairwise disjoint). When the total
/// exceeds the ceiling the build fails with `StorageOverflowError`,
/// before any block executes.
pub fn build_system_storage(requirements: &Vec<usize>, policy: StoragePolicy) -> (r: Result<
    SystemStorage,
    StorageOverflowError,
>)
    ensures
        r is Ok <==> total_of(requirements@) <= policy_capacity(policy),
        r is Ok ==> {
            &&& r->Ok_0.wf()
            &&& r->Ok_0.policy_spec() == policy
            &&& r->Ok_0.used_spec() == total_of(requirements@)
            &&& r->Ok_0.layout_spec().len() == requirements@.len()
            &&& forall|i: int|
                0 <= i < requirements@.len() ==> (#[trigger] r->Ok_0.layout_spec()[i]).size
                    == requirements@[i]
        },
        r is Err ==> r->Err_0.requested > r->Err_0.available,
{
    let mut builder = SystemStorageBuilder::new(policy);
    let n = requirements.len();
    let mut i: usize = 0;
    proof {
        assert(requirements@.take(0) =~= Seq::<usize>::empty());
    }
    while i < n
        invariant
            n == requirements@.len(),
            0 <= i <= n,
            builder.wf(),
            builder.policy_spec() == policy,
            builder.used_spec() == total_of(requirements@.take(i as int)),
            builder.layout_spec().len() == i,
            forall|j: int|
                0 <= j < i ==> (#[trigger] builder.layout_spec()[j]).size == requirements@[j],
        decreases n - i,
    {
        let size = requirements[i];
        proof {
            assert(requirements@.take(i + 1).drop_last() =~= requirements@.take(i as int));
            assert(total_of(requirements@.take(i + 1)) == total_of(requirements@.take(i as int))
                + requirements@[i as int]);
        }
        match builder.reserve(size) {
            Ok(_) => (),
            Err(e) => {
                proof {
                    lemma_total_of_take_le(requirements@, i + 1, n as int);
                    assert(requirements@.take(n as int) =~= requirements@);
                }
                return Err(e);
            },
        }
        i = i + 1;
    }
    proof {
        assert(requirements@.take(n as int) =~= requirements@);
    }
    Ok(builder.build())
}

} // verus!
