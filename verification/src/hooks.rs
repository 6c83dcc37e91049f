//! Changing the hooks of an emulator while the engine may call them.
//!
//! The engine keeps the bare address of a hook. A change therefore has an order: first
//! the engine is given its new target, then the hook that it had before is released.

use crate::emulator::Dynarmic;
use crate::engine::{Command, HookTarget};
use vstd::prelude::*;

verus! {

/// A change of hook: make the request, then release the hook at `release`, if there
/// is one.
#[derive(Clone, Copy, Debug, PartialEq, Eq, Structural)]
pub struct HookChange {
    pub command: Command,
    pub release: Option<usize>,
}

/// What the engine calls, and the addresses of the hooks that are alive.
#[verifier::ext_equal]
pub struct HookWorld {
    pub svc: HookTarget,
    pub unmapped_mem: HookTarget,
    pub live: Set<usize>,
}

/// The target that stands for a hook that may not be set.
pub open spec fn target_of(hook: Option<usize>) -> HookTarget {
    match hook {
        Some(user_data) => HookTarget::User { user_data },
        None => HookTarget::Empty,
    }
}

impl HookWorld {
    /// Whatever the engine calls is alive.
    pub open spec fn sound(self) -> bool {
        &&& self.svc matches HookTarget::User { user_data } ==> self.live.contains(user_data)
        &&& self.unmapped_mem matches HookTarget::User { user_data } ==> self.live.contains(
            user_data,
        )
    }

    /// The world agrees with an emulator: the engine calls the hooks that the emulator
    /// has, these are alive, and they are not one and the same.
    pub open spec fn agrees(self, emu: Dynarmic) -> bool {
        &&& self.svc == target_of(emu.metadata.svc_callback)
        &&& self.unmapped_mem == target_of(emu.metadata.unmapped_mem_callback)
        &&& self.sound()
        &&& emu.metadata.svc_callback is Some ==> emu.metadata.svc_callback
            != emu.metadata.unmapped_mem_callback
    }

    /// The world after a hook was made at this address.
    pub open spec fn made(self, user_data: usize) -> HookWorld {
        HookWorld { live: self.live.insert(user_data), ..self }
    }

    /// The world after a request to the engine. An engine that is destroyed calls
    /// nothing.
    pub open spec fn requested(self, command: Command) -> HookWorld {
        match command {
            Command::SetSvcCallback { target, .. } => HookWorld { svc: target, ..self },
            Command::SetUnmappedMemCallback { target, .. } => HookWorld {
                unmapped_mem: target,
                ..self
            },
            Command::Destroy { .. } => HookWorld {
                svc: HookTarget::Empty,
                unmapped_mem: HookTarget::Empty,
                ..self
            },
            _ => self,
        }
    }

    /// The world after a hook was released.
    pub open spec fn released(self, hook: Option<usize>) -> HookWorld {
        match hook {
            Some(user_data) => HookWorld { live: self.live.remove(user_data), ..self },
            None => self,
        }
    }

    /// The world after a whole change.
    pub open spec fn changed(self, change: HookChange) -> HookWorld {
        self.requested(change.command).released(change.release)
    }
}

/// Setting a hook for Supervisor Calls never leaves the engine with a hook that is
/// gone, neither between the two steps nor after them; afterwards the engine calls the
/// new hook, and for unmapped memory accesses what it called before.
pub proof fn law_setting_svc_hook_is_sound(world: HookWorld, emu: Dynarmic, user_data: usize)
    requires
        world.agrees(emu),
        !world.live.contains(user_data),
    ensures
        ({
            let change = emu.svc_change(HookTarget::User { user_data });
            let after = emu.with_svc_callback(Some(user_data));
            &&& world.made(user_data).changed(change).unmapped_mem == world.unmapped_mem
            &&& world.made(user_data).sound()
            &&& world.made(user_data).requested(change.command).sound()
            &&& world.made(user_data).changed(change).agrees(after)
        }),
{
}

/// Setting a hook for unmapped memory accesses never leaves the engine with a hook
/// that is gone, neither between the two steps nor after them; afterwards the engine
/// calls the new hook, and for Supervisor Calls what it called before.
pub proof fn law_setting_unmapped_mem_hook_is_sound(
    world: HookWorld,
    emu: Dynarmic,
    user_data: usize,
)
    requires
        world.agrees(emu),
        !world.live.contains(user_data),
    ensures
        ({
            let change = emu.unmapped_mem_change(HookTarget::User { user_data });
            let after = emu.with_unmapped_mem_callback(Some(user_data));
            &&& world.made(user_data).changed(change).svc == world.svc
            &&& world.made(user_data).sound()
            &&& world.made(user_data).requested(change.command).sound()
            &&& world.made(user_data).changed(change).agrees(after)
        }),
{
}

/// Removing both hooks never leaves the engine with a hook that is gone, at none of
/// the four steps; afterwards the engine calls no hook, and both are released.
pub proof fn law_removing_hooks_is_sound(world: HookWorld, emu: Dynarmic)
    requires
        world.agrees(emu),
    ensures
        ({
            let svc = emu.svc_change(HookTarget::Empty);
            let unmapped_mem = emu.unmapped_mem_change(HookTarget::Empty);
            let after = emu.with_svc_callback(None).with_unmapped_mem_callback(None);
            let end = world.changed(svc).changed(unmapped_mem);
            &&& world.requested(svc.command).sound()
            &&& world.changed(svc).sound()
            &&& world.changed(svc).requested(unmapped_mem.command).sound()
            &&& end.agrees(after)
            &&& end.svc == HookTarget::Empty
            &&& end.unmapped_mem == HookTarget::Empty
            &&& emu.metadata.svc_callback matches Some(h) ==> !end.live.contains(h)
            &&& emu.metadata.unmapped_mem_callback matches Some(h) ==> !end.live.contains(h)
        }),
{
}

/// Destroying the engine before the hooks are released is sound at every step.
pub proof fn law_teardown_is_sound(world: HookWorld, emu: Dynarmic)
    requires
        world.agrees(emu),
    ensures
        ({
            let gone = world.requested(Command::Destroy { handle: emu.metadata.handle });
            let first = gone.released(emu.metadata.svc_callback);
            &&& gone.sound()
            &&& first.sound()
            &&& first.released(emu.metadata.unmapped_mem_callback).sound()
        }),
{
}

} // verus!
