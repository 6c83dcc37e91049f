use dynarmic_sys::monitor::{
    next_processor_id, settle_monitor, shared_exclusive_monitor, MonitorStep,
};
use dynarmic_sys::page_table::{
    page_table_for_fastmem, FastmemPageTable, FastmemPageTableRoute, FastmemPageTableSlot,
};

#[test]
fn shared_page_table_slot_reuses_only_the_same_base() {
    let mut slot = FastmemPageTableSlot::default();
    let (first, first_route) = slot.get_or_allocate(0x1000, || 0xaaaa);
    let (same, same_route) = slot.get_or_allocate(0x1000, || panic!("must reuse"));
    let (different, different_route) = slot.get_or_allocate(0x2000, || 0xbbbb);

    assert_eq!(first, 0xaaaa);
    assert_eq!(first_route, FastmemPageTableRoute::InitializedShared);
    assert_eq!(same, first);
    assert_eq!(same_route, FastmemPageTableRoute::ReusedShared);
    assert_eq!(different, 0xbbbb);
    assert_eq!(
        different_route,
        FastmemPageTableRoute::PrivateForDifferentBase
    );
}

#[test]
fn failed_allocation_leaves_the_slot_empty() {
    let mut slot = FastmemPageTableSlot::default();
    assert_eq!(
        slot.get_or_allocate(0x1000, || 0),
        (0, FastmemPageTableRoute::InitializedShared)
    );
    assert_eq!(
        slot.get_or_allocate(0x2000, || 0xcccc),
        (0xcccc, FastmemPageTableRoute::InitializedShared)
    );
    assert_eq!(
        slot.get_or_allocate(0x1000, || 0),
        (0, FastmemPageTableRoute::PrivateForDifferentBase)
    );
    assert_eq!(
        slot.get_or_allocate(0x2000, || panic!("must reuse")),
        (0xcccc, FastmemPageTableRoute::ReusedShared)
    );
}

#[test]
fn slot_serves_the_null_base_too() {
    let mut slot = FastmemPageTableSlot::default();
    assert_eq!(slot.get_or_allocate(0, || 0x10).0, 0x10);
    assert_eq!(
        slot.get_or_allocate(0, || panic!("must reuse")),
        (0x10, FastmemPageTableRoute::ReusedShared)
    );
}

#[test]
fn private_mode_leaves_the_slot_alone() {
    let mut slot = FastmemPageTableSlot::default();
    let private = page_table_for_fastmem(false, &mut slot, 0x1000, || 0x11);
    assert_eq!(private, FastmemPageTable { table: 0x11, route: None });
    assert!(!private.shared_allocation_failed());
    assert!(!page_table_for_fastmem(false, &mut slot, 0x1000, || 0).shared_allocation_failed());

    let shared = page_table_for_fastmem(true, &mut slot, 0x1000, || 0x22);
    assert_eq!(shared.table, 0x22);
    assert_eq!(shared.route, Some(FastmemPageTableRoute::InitializedShared));
    let again = page_table_for_fastmem(true, &mut slot, 0x1000, || panic!("must reuse"));
    assert_eq!(again.table, 0x22);
    assert_eq!(again.route, Some(FastmemPageTableRoute::ReusedShared));
    let failed = page_table_for_fastmem(true, &mut slot, 0x3000, || 0);
    assert!(failed.shared_allocation_failed());
    let own = page_table_for_fastmem(false, &mut slot, 0x1000, || 0x33);
    assert_eq!(own.table, 0x33);
}

#[test]
fn processor_ids_count_to_seven_and_stay() {
    let mut next = 0u32;
    let ids: Vec<u32> = (0..11).map(|_| next_processor_id(&mut next)).collect();
    assert_eq!(ids, vec![0, 1, 2, 3, 4, 5, 6, 7, 7, 7, 7]);
    assert_eq!(next, 11);
}

#[test]
fn processor_counter_starts_over() {
    let mut next = u32::MAX;
    assert_eq!(next_processor_id(&mut next), 7);
    assert_eq!(next, 0);
    assert_eq!(next_processor_id(&mut next), 0);
}

#[test]
fn racing_threads_settle_on_one_monitor() {
    assert_eq!(shared_exclusive_monitor(0x40), MonitorStep::Use { monitor: 0x40 });
    assert_eq!(shared_exclusive_monitor(0), MonitorStep::Create { processors: 8 });

    let cell = std::sync::atomic::AtomicUsize::new(0);
    let order = std::sync::atomic::Ordering::SeqCst;
    let first = settle_monitor(0x100, cell.compare_exchange(0, 0x100, order, order));
    let second = settle_monitor(0x200, cell.compare_exchange(0, 0x200, order, order));
    assert_eq!(first, 0x100);
    assert_eq!(second, 0x100);
    assert_eq!(
        shared_exclusive_monitor(cell.load(order)),
        MonitorStep::Use { monitor: 0x100 }
    );
}
