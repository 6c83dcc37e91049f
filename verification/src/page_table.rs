//! Page tables for emulators that run over a fastmem arena.

use vstd::prelude::*;

verus! {

/// How a request for a page table was met.
#[derive(Clone, Copy, Debug, PartialEq, Eq, Structural)]
pub enum FastmemPageTableRoute {
    /// The slot was empty: a table was allocated to fill it.
    InitializedShared,
    /// The slot's table was handed out again.
    ReusedShared,
    /// The slot belongs to another arena: a table was allocated for this request
    /// alone.
    PrivateForDifferentBase,
}

/// The page table that the emulators of a process share, with the arena base that it
/// belongs to.
pub struct FastmemPageTableSlot {
    base: Option<usize>,
    table: usize,
}

/// The base and the table of a filled slot.
pub struct SlotView {
    pub base: usize,
    pub table: usize,
}

impl View for FastmemPageTableSlot {
    type V = Option<SlotView>;

    /// The base and the table, where the slot is filled.
    closed spec fn view(&self) -> Option<SlotView> {
        match self.base {
            Some(base) => Some(SlotView { base, table: self.table }),
            None => None,
        }
    }
}

impl FastmemPageTableSlot {
    /// A filled slot holds a table that is not null; an empty one holds none.
    #[verifier::type_invariant]
    spec fn table_matches_base(self) -> bool {
        self.base is Some <==> self.table != 0
    }

    /// Hands out a page table for the arena at `base`.
    ///
    /// A filled slot with that base gives its table. A filled slot with another base
    /// gives a freshly allocated table and stays as it is. An empty slot gives a
    /// freshly allocated table and keeps it, unless the allocation failed. `allocate`
    /// returns the address of a new table, or null; it is not called where the slot's
    /// table is handed out again.
    pub fn get_or_allocate(&mut self, base: usize, allocate: impl FnOnce() -> usize) -> (r: (
        usize,
        FastmemPageTableRoute,
    ))
        requires
            !reuses(old(self)@, base) ==> call_requires(allocate, ()),
        ensures
            !reuses(old(self)@, base) ==> call_ensures(allocate, (), r.0),
            old(self)@ is None || old(self)@->0.base != base ==> call_ensures(allocate, (), r.0),
            old(self)@ is Some && old(self)@->0.base == base ==> r.0 == old(self)@->0.table,
            old(self)@ is Some ==> final(self)@ == old(self)@,
            old(self)@ is None && r.0 == 0 ==> final(self)@ is None,
            old(self)@ is None && r.0 != 0 ==> final(self)@ == Some(
                SlotView { base, table: r.0 },
            ),
            r.0 == table_given(old(self)@, base, r.0),
            r.1 == route_taken(old(self)@, base),
            r.1 == FastmemPageTableRoute::ReusedShared ==> r.0 != 0,
            final(self)@ == slot_after(old(self)@, base, r.0),
    {
        proof {
            use_type_invariant(&*self);
        }
        match self.base {
            Some(shared_base) => {
                if shared_base == base {
                    (self.table, FastmemPageTableRoute::ReusedShared)
                } else {
                    (allocate(), FastmemPageTableRoute::PrivateForDifferentBase)
                }
            },
            None => {
                let table: usize = allocate();
                if table != 0 {
                    *self = FastmemPageTableSlot { base: Some(base), table };
                }
                (table, FastmemPageTableRoute::InitializedShared)
            },
        }
    }
}

impl Default for FastmemPageTableSlot {
    /// An empty slot.
    fn default() -> (r: Self)
        ensures
            r@ is None,
    {
        FastmemPageTableSlot { base: None, table: 0 }
    }
}

/// Whether a request for `base` is met with the slot's own table.
pub open spec fn reuses(slot: Option<SlotView>, base: usize) -> bool {
    slot matches Some(v) && v.base == base
}

/// The table given for `base`, where an allocation, if one is made, gives
/// `allocated`.
pub open spec fn table_given(slot: Option<SlotView>, base: usize, allocated: usize) -> usize {
    if reuses(slot, base) {
        slot->0.table
    } else {
        allocated
    }
}

/// How a request for `base` is met.
pub open spec fn route_taken(slot: Option<SlotView>, base: usize) -> FastmemPageTableRoute {
    match slot {
        Some(v) => if v.base == base {
            FastmemPageTableRoute::ReusedShared
        } else {
            FastmemPageTableRoute::PrivateForDifferentBase
        },
        None => FastmemPageTableRoute::InitializedShared,
    }
}

/// The slot after a request for `base`, where an allocation, if one is made, gives
/// `allocated`.
pub open spec fn slot_after(slot: Option<SlotView>, base: usize, allocated: usize) -> Option<
    SlotView,
> {
    if slot is None && allocated != 0 {
        Some(SlotView { base, table: allocated })
    } else {
        slot
    }
}

/// The page table for an emulator over a fastmem arena.
#[derive(Clone, Copy, Debug, PartialEq, Eq, Structural)]
pub struct FastmemPageTable {
    /// The address of the table, or null.
    pub table: usize,
    /// How the slot met the request; `None` where tables are not shared.
    pub route: Option<FastmemPageTableRoute>,
}

impl FastmemPageTable {
    /// Whether a table was to come by way of the slot and its allocation failed.
    pub fn shared_allocation_failed(&self) -> (r: bool)
        ensures
            r == (self.route is Some && self.table == 0),
    {
        self.route.is_some() && self.table == 0
    }
}

/// Finds the page table for the arena at `fastmem_base`: a table of its own where
/// tables are not shared, with the slot untouched, and by way of the slot where they
/// are.
pub fn page_table_for_fastmem(
    shared: bool,
    slot: &mut FastmemPageTableSlot,
    fastmem_base: usize,
    allocate: impl FnOnce() -> usize,
) -> (r: FastmemPageTable)
    requires
        !(shared && reuses(old(slot)@, fastmem_base)) ==> call_requires(allocate, ()),
    ensures
        !(shared && reuses(old(slot)@, fastmem_base)) ==> call_ensures(
            allocate,
            (),
            r.table,
        ),
        !shared || old(slot)@ is None || old(slot)@->0.base != fastmem_base ==> call_ensures(
            allocate,
            (),
            r.table,
        ),
        shared && old(slot)@ is Some && old(slot)@->0.base == fastmem_base ==> r.table == old(
            slot,
        )@->0.table,
        old(slot)@ is Some ==> final(slot)@ == old(slot)@,
        !shared ==> r.route is None && *final(slot) == *old(slot),
        r.route == Some(FastmemPageTableRoute::ReusedShared) ==> r.table != 0,
        shared ==> {
            &&& r.table == table_given(old(slot)@, fastmem_base, r.table)
            &&& r.route == Some(route_taken(old(slot)@, fastmem_base))
            &&& final(slot)@ == slot_after(old(slot)@, fastmem_base, r.table)
        },
{
    if !shared {
        return FastmemPageTable { table: allocate(), route: None };
    }
    let (table, route) = slot.get_or_allocate(fastmem_base, allocate);
    FastmemPageTable { table, route: Some(route) }
}

/// The slot after requests for these bases, in this order, each with the address
/// that its allocation gives if one is made.
pub open spec fn slot_after_all(requests: Seq<(usize, usize)>) -> Option<SlotView>
    decreases requests.len(),
{
    if requests.len() == 0 {
        None
    } else {
        let (base, allocated) = requests.last();
        slot_after(slot_after_all(requests.drop_last()), base, allocated)
    }
}

/// A slot is reused for its own base and for no other: a request for its base gets
/// its table, a request for another base gets what was allocated for it, and neither
/// changes the slot.
pub proof fn law_slot_reuses_only_its_base(slot: SlotView, base: usize, allocated: usize)
    ensures
        route_taken(Some(slot), base) == FastmemPageTableRoute::ReusedShared <==> base
            == slot.base,
        base == slot.base ==> table_given(Some(slot), base, allocated) == slot.table,
        base != slot.base ==> {
            &&& route_taken(Some(slot), base) == FastmemPageTableRoute::PrivateForDifferentBase
            &&& table_given(Some(slot), base, allocated) == allocated
        },
        slot_after(Some(slot), base, allocated) == Some(slot),
{
}

/// While every allocation fails, the slot stays empty, and the next request tries
/// again.
pub proof fn law_failed_allocations_leave_slot_empty(requests: Seq<(usize, usize)>, base: usize)
    requires
        forall|i: int| 0 <= i < requests.len() ==> (#[trigger] requests[i]).1 == 0,
    ensures
        slot_after_all(requests) is None,
        route_taken(slot_after_all(requests), base) == FastmemPageTableRoute::InitializedShared,
    decreases requests.len(),
{
    if requests.len() > 0 {
        law_failed_allocations_leave_slot_empty(requests.drop_last(), base);
    }
}

/// The first allocation that succeeds fills the slot for good: whatever is requested
/// afterwards, the slot keeps that base and that table, and every later request for
/// that base gets that table.
pub proof fn law_first_success_fills_slot(requests: Seq<(usize, usize)>, k: int, allocated: usize)
    requires
        0 <= k < requests.len(),
        requests[k].1 != 0,
        forall|i: int| 0 <= i < k ==> (#[trigger] requests[i]).1 == 0,
    ensures
        slot_after_all(requests) == Some(SlotView { base: requests[k].0, table: requests[k].1 }),
        table_given(slot_after_all(requests), requests[k].0, allocated) == requests[k].1,
    decreases requests.len(),
{
    if k == requests.len() - 1 {
        law_failed_allocations_leave_slot_empty(requests.drop_last(), requests[k].0);
    } else {
        law_first_success_fills_slot(requests.drop_last(), k, allocated);
    }
}

/// The slot's table is handed out again exactly where the slot is filled and the bases
/// are the same one. In every other case the table is what was allocated for the
/// request, so that two arenas share a table only if the allocator gave it twice.
pub proof fn law_reuse_means_same_base(slot: Option<SlotView>, base: usize, allocated: usize)
    ensures
        reuses(slot, base) <==> slot is Some && slot->0.base == base,
        route_taken(slot, base) == FastmemPageTableRoute::ReusedShared <==> slot is Some
            && slot->0.base == base,
        route_taken(slot, base) == FastmemPageTableRoute::InitializedShared <==> slot is None,
        slot is None || slot->0.base != base ==> table_given(slot, base, allocated) == allocated,
        slot is Some && slot->0.base == base ==> table_given(slot, base, allocated)
            == slot->0.table,
{
}

/// A slot is only ever filled, never emptied or moved to another arena: it takes the
/// base and the table of the request that fills it, and only a table that is not null
/// fills it.
pub proof fn law_slot_is_filled_once(slot: Option<SlotView>, base: usize, allocated: usize)
    ensures
        slot is Some ==> slot_after(slot, base, allocated) == slot,
        slot is None ==> (slot_after(slot, base, allocated) is Some <==> allocated != 0),
        slot is None && allocated != 0 ==> slot_after(slot, base, allocated)->0.base == base,
        slot is None && allocated != 0 ==> slot_after(slot, base, allocated)->0.table
            == allocated,
{
}

/// Two requests for different arenas, one right after the other: where the allocations
/// give different tables, so do the requests; and two requests for one arena give the
/// same table once the first succeeded on an empty slot.
pub proof fn law_two_requests(first: usize, second: usize, a: usize, b: usize)
    requires
        a != 0,
        a != b,
    ensures
        first != second ==> table_given(None, first, a) != table_given(
            slot_after(None, first, a),
            second,
            b,
        ),
        first == second ==> table_given(None, first, a) == table_given(
            slot_after(None, first, a),
            second,
            b,
        ),
{
}

} // verus!
