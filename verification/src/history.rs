//! What holds of an emulator after any row of changes.

use crate::construction::fresh_emulator;
use crate::emulator::{stop_address, Dynarmic, SvcEvent, UnmappedMemEvent, ENGINE_SWI};
use crate::engine::HookTarget;
use crate::hooks::{
    law_removing_hooks_is_sound, law_setting_svc_hook_is_sound,
    law_setting_unmapped_mem_hook_is_sound, HookWorld,
};
use vstd::prelude::*;

verus! {

/// An operation that changes an emulator.
pub enum Change {
    /// `emu_start` or `emu_start_bounded`.
    Start { until: u64 },
    /// `set_svc_callback`.
    SetSvc { user_data: usize },
    /// `set_unmapped_mem_callback`.
    SetUnmappedMem { user_data: usize },
    /// `destroy_callback`.
    RemoveHooks,
}

/// The emulator after a change.
pub open spec fn changed(emu: Dynarmic, change: Change) -> Dynarmic {
    match change {
        Change::Start { until } => emu.with_until(stop_address(until)),
        Change::SetSvc { user_data } => emu.with_svc_callback(Some(user_data)),
        Change::SetUnmappedMem { user_data } => emu.with_unmapped_mem_callback(Some(user_data)),
        Change::RemoveHooks => emu.with_svc_callback(None).with_unmapped_mem_callback(None),
    }
}

/// The emulator after a row of changes.
pub open spec fn changed_by_all(emu: Dynarmic, changes: Seq<Change>) -> Dynarmic
    decreases changes.len(),
{
    if changes.len() == 0 {
        emu
    } else {
        changed(changed_by_all(emu, changes.drop_last()), changes.last())
    }
}

/// The engine's hooks after a change of the emulator, with every step of it made.
pub open spec fn world_after(world: HookWorld, emu: Dynarmic, change: Change) -> HookWorld {
    match change {
        Change::Start { .. } => world,
        Change::SetSvc { user_data } => world.made(user_data).changed(
            emu.svc_change(HookTarget::User { user_data }),
        ),
        Change::SetUnmappedMem { user_data } => world.made(user_data).changed(
            emu.unmapped_mem_change(HookTarget::User { user_data }),
        ),
        Change::RemoveHooks => world.changed(emu.svc_change(HookTarget::Empty)).changed(
            emu.unmapped_mem_change(HookTarget::Empty),
        ),
    }
}

/// The engine's hooks after a row of changes.
pub open spec fn world_after_all(
    world: HookWorld,
    emu: Dynarmic,
    changes: Seq<Change>,
) -> HookWorld
    decreases changes.len(),
{
    if changes.len() == 0 {
        world
    } else {
        world_after(
            world_after_all(world, emu, changes.drop_last()),
            changed_by_all(emu, changes.drop_last()),
            changes.last(),
        )
    }
}

/// A new hook does not lie where a live one lies.
pub open spec fn makes_fresh_hook(world: HookWorld, change: Change) -> bool {
    match change {
        Change::SetSvc { user_data } => !world.live.contains(user_data),
        Change::SetUnmappedMem { user_data } => !world.live.contains(user_data),
        _ => true,
    }
}

/// No new hook in a row of changes lies where a live one lies.
pub open spec fn make_fresh_hooks(world: HookWorld, emu: Dynarmic, changes: Seq<Change>) -> bool {
    forall|i: int|
        0 <= i < changes.len() ==> makes_fresh_hook(
            world_after_all(world, emu, changes.take(i)),
            #[trigger] changes[i],
        )
}

/// A new emulator agrees with an engine that calls no hook yet.
pub proof fn law_new_emulator_has_no_hooks(
    memory: usize,
    monitor: usize,
    page_table: usize,
    handle: usize,
    live: Set<usize>,
)
    ensures
        (HookWorld { svc: HookTarget::Empty, unmapped_mem: HookTarget::Empty, live }).agrees(
            fresh_emulator(memory, monitor, page_table, handle),
        ),
{
}

/// Whatever is done with an emulator, it keeps driving the engine that it was made
/// with, and destroys that one.
pub proof fn law_emulator_keeps_its_engine(emu: Dynarmic, changes: Seq<Change>)
    requires
        emu.wf(),
    ensures
        changed_by_all(emu, changes).wf(),
        changed_by_all(emu, changes).cur_handle == emu.cur_handle,
    decreases changes.len(),
{
    if changes.len() > 0 {
        law_emulator_keeps_its_engine(emu, changes.drop_last());
    }
}

/// A hook is told of every Supervisor Call but the engine's own, with the stop address
/// of the last run, whatever was done with hooks before and after its start.
pub proof fn law_hook_sees_last_stop_address(
    emu: Dynarmic,
    changes: Seq<Change>,
    start: int,
    until: u64,
    swi: u32,
    pc: u64,
)
    requires
        0 <= start < changes.len(),
        changes[start] == (Change::Start { until }),
        forall|i: int| start < i < changes.len() ==> !(#[trigger] changes[i] is Start),
    ensures
        changed_by_all(emu, changes).svc_told(swi, pc) == (if swi == ENGINE_SWI {
            None
        } else {
            Some(SvcEvent { swi, until: stop_address(until), pc })
        }),
    decreases changes.len(),
{
    if start < changes.len() - 1 {
        assert(!(changes[changes.len() - 1] is Start));
        law_hook_sees_last_stop_address(emu, changes.drop_last(), start, until, swi, pc);
    }
}

/// After any row of changes the engine calls exactly the hooks that the emulator has,
/// and these are alive.
pub proof fn law_engine_calls_the_hooks_that_are_set(
    world: HookWorld,
    emu: Dynarmic,
    changes: Seq<Change>,
)
    requires
        world.agrees(emu),
        make_fresh_hooks(world, emu, changes),
    ensures
        world_after_all(world, emu, changes).agrees(changed_by_all(emu, changes)),
    decreases changes.len(),
{
    if changes.len() > 0 {
        let before = changes.drop_last();
        let last = changes.last();
        assert forall|i: int| 0 <= i < before.len() implies makes_fresh_hook(
            world_after_all(world, emu, before.take(i)),
            #[trigger] before[i],
        ) by {
            assert(before.take(i) =~= changes.take(i));
            assert(before[i] == changes[i]);
        }
        law_engine_calls_the_hooks_that_are_set(world, emu, before);
        let w = world_after_all(world, emu, before);
        let e = changed_by_all(emu, before);
        assert(changes.take(changes.len() - 1) =~= before);
        assert(makes_fresh_hook(w, changes[changes.len() - 1]));
        match last {
            Change::Start { .. } => {},
            Change::SetSvc { user_data } => law_setting_svc_hook_is_sound(w, e, user_data),
            Change::SetUnmappedMem { user_data } => law_setting_unmapped_mem_hook_is_sound(
                w,
                e,
                user_data,
            ),
            Change::RemoveHooks => law_removing_hooks_is_sound(w, e),
        }
    }
}

/// A hook for Supervisor Calls that was set and neither replaced nor removed since is
/// alive, the engine calls it, and it is told of every call but the engine's own.
pub proof fn law_last_svc_hook_is_called(
    world: HookWorld,
    emu: Dynarmic,
    changes: Seq<Change>,
    set: int,
    user_data: usize,
    swi: u32,
    pc: u64,
)
    requires
        world.agrees(emu),
        make_fresh_hooks(world, emu, changes),
        0 <= set < changes.len(),
        changes[set] == (Change::SetSvc { user_data }),
        forall|i: int|
            set < i < changes.len() ==> !(#[trigger] changes[i] is SetSvc) && !(
            changes[i] is RemoveHooks),
    ensures
        world_after_all(world, emu, changes).svc == (HookTarget::User { user_data }),
        world_after_all(world, emu, changes).live.contains(user_data),
        swi != ENGINE_SWI ==> changed_by_all(emu, changes).svc_told(swi, pc) is Some,
{
    law_engine_calls_the_hooks_that_are_set(world, emu, changes);
    lemma_svc_hook_kept(emu, changes, set, user_data);
}

/// A hook for unmapped memory accesses that was set and neither replaced nor removed
/// since is alive, the engine calls it, and it is told of the emulator's own engine and
/// of the access as the engine reported it.
pub proof fn law_last_unmapped_mem_hook_is_called(
    world: HookWorld,
    emu: Dynarmic,
    changes: Seq<Change>,
    set: int,
    user_data: usize,
    addr: u64,
    size: usize,
    value: u64,
)
    requires
        emu.wf(),
        world.agrees(emu),
        make_fresh_hooks(world, emu, changes),
        0 <= set < changes.len(),
        changes[set] == (Change::SetUnmappedMem { user_data }),
        forall|i: int|
            set < i < changes.len() ==> !(#[trigger] changes[i] is SetUnmappedMem) && !(
            changes[i] is RemoveHooks),
    ensures
        world_after_all(world, emu, changes).unmapped_mem == (HookTarget::User { user_data }),
        world_after_all(world, emu, changes).live.contains(user_data),
        changed_by_all(emu, changes).unmapped_mem_told(addr, size, value) == (UnmappedMemEvent {
            handle: emu.cur_handle,
            addr,
            size,
            value,
        }),
{
    law_engine_calls_the_hooks_that_are_set(world, emu, changes);
    law_emulator_keeps_its_engine(emu, changes);
    lemma_unmapped_mem_hook_kept(emu, changes, set, user_data);
}

proof fn lemma_svc_hook_kept(emu: Dynarmic, changes: Seq<Change>, set: int, user_data: usize)
    requires
        0 <= set < changes.len(),
        changes[set] == (Change::SetSvc { user_data }),
        forall|i: int|
            set < i < changes.len() ==> !(#[trigger] changes[i] is SetSvc) && !(
            changes[i] is RemoveHooks),
    ensures
        changed_by_all(emu, changes).metadata.svc_callback == Some(user_data),
    decreases changes.len(),
{
    if set < changes.len() - 1 {
        assert(!(changes[changes.len() - 1] is SetSvc));
        lemma_svc_hook_kept(emu, changes.drop_last(), set, user_data);
    }
}

proof fn lemma_unmapped_mem_hook_kept(
    emu: Dynarmic,
    changes: Seq<Change>,
    set: int,
    user_data: usize,
)
    requires
        0 <= set < changes.len(),
        changes[set] == (Change::SetUnmappedMem { user_data }),
        forall|i: int|
            set < i < changes.len() ==> !(#[trigger] changes[i] is SetUnmappedMem) && !(
            changes[i] is RemoveHooks),
    ensures
        changed_by_all(emu, changes).metadata.unmapped_mem_callback == Some(user_data),
    decreases changes.len(),
{
    if set < changes.len() - 1 {
        assert(!(changes[changes.len() - 1] is SetUnmappedMem));
        lemma_unmapped_mem_hook_kept(emu, changes.drop_last(), set, user_data);
    }
}

} // verus!
