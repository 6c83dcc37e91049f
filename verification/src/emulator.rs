//! An emulator: the engine it drives, and what each operation asks of that engine.
//!
//! A method that changes nothing but the guest returns the request to make; an
//! [`Attempt`] also says how to read the status that comes back.

use crate::c_string::{CStringReader, ReaderView};
use crate::context::{DynarmicContext32Inner, DynarmicContextInner};
use crate::engine::{
    cast_signed, signed_bits, AddressCall, Attempt, Command, HookTarget, Operation, Read32Call,
    Read64Call, ReadCall, StatusCall, WriteCall,
};
use crate::hooks::HookChange;
use vstd::prelude::*;

verus! {

/// The ticks that a run gets where the caller sets no budget.
pub const DEFAULT_TICKS: u64 = 0x100_0000_0000;

/// The index of the Link Register among the general registers of ARM64.
pub const LR_INDEX: u64 = 30;

/// The number of a Supervisor Call that is the engine's own and reaches no hook.
pub const ENGINE_SWI: u32 = 114514;

/// What an emulator owns besides the engine's current handle.
pub struct Metadata {
    /// The address of the hook for Supervisor Calls, if one is set.
    pub svc_callback: Option<usize>,
    /// The address of the hook for unmapped memory accesses, if one is set.
    pub unmapped_mem_callback: Option<usize>,
    /// The stop address of the last run, kept for the hook for Supervisor Calls.
    pub until: u64,
    pub memory: usize,
    pub monitor: usize,
    pub page_table: usize,
    /// The engine that is destroyed with the emulator.
    pub handle: usize,
}

impl Metadata {
    /// The request that destroys the engine. It comes before the hooks are released.
    pub fn destroy(&self) -> (r: Command)
        ensures
            r == (Command::Destroy { handle: self.handle }),
    {
        Command::Destroy { handle: self.handle }
    }
}

/// An emulator for ARM32 or ARM64 code.
pub struct Dynarmic {
    pub cur_handle: usize,
    pub metadata: Metadata,
}

/// The stop address as the hook is told it: four bytes behind the one given, or the
/// last address where that does not exist.
pub open spec fn stop_address(until: u64) -> u64 {
    if until > u64::MAX - 4 {
        u64::MAX
    } else {
        (until + 4) as u64
    }
}

/// The budget that the engine gets: the one asked for, but at least one tick.
pub open spec fn budget(ticks: u64) -> u64 {
    if ticks == 0 {
        1
    } else {
        ticks
    }
}

/// What to do with a Supervisor Call.
#[derive(Clone, Copy, Debug, PartialEq, Eq, Structural)]
pub enum SvcStep {
    /// Nothing.
    Ignore,
    /// Read the Program Counter, then tell the hook.
    ReadPc { call: Read64Call },
}

/// What the hook for Supervisor Calls is told.
#[derive(Clone, Copy, Debug, PartialEq, Eq, Structural)]
pub struct SvcEvent {
    pub swi: u32,
    pub until: u64,
    pub pc: u64,
}

/// What the hook for unmapped memory accesses is told: the engine that met the access,
/// and the access.
#[derive(Clone, Copy, Debug, PartialEq, Eq, Structural)]
pub struct UnmappedMemEvent {
    pub handle: usize,
    pub addr: u64,
    pub size: usize,
    pub value: u64,
}

impl Dynarmic {
    /// The emulator drives the engine that it will destroy.
    pub open spec fn wf(self) -> bool {
        self.cur_handle == self.metadata.handle
    }

    /// The emulator with another stop address.
    pub open spec fn with_until(self, until: u64) -> Dynarmic {
        Dynarmic { metadata: Metadata { until, ..self.metadata }, ..self }
    }

    /// The emulator with another hook for Supervisor Calls.
    pub open spec fn with_svc_callback(self, hook: Option<usize>) -> Dynarmic {
        Dynarmic { metadata: Metadata { svc_callback: hook, ..self.metadata }, ..self }
    }

    /// The emulator with another hook for unmapped memory accesses.
    pub open spec fn with_unmapped_mem_callback(self, hook: Option<usize>) -> Dynarmic {
        Dynarmic { metadata: Metadata { unmapped_mem_callback: hook, ..self.metadata }, ..self }
    }

    /// The request to run from `pc`.
    pub open spec fn start_request(self, pc: u64, ticks: u64) -> Attempt<StatusCall> {
        Attempt {
            call: StatusCall::EmuStartBounded {
                handle: self.cur_handle,
                pc,
                ticks: budget(ticks),
            },
            operation: Operation::StartEmulator,
        }
    }

    /// The request to read a general register of ARM64.
    pub open spec fn reg_read_request(self, index: u64) -> Read64Call {
        Read64Call::Reg { handle: self.cur_handle, index }
    }

    /// The request to write a general register of ARM64.
    pub open spec fn reg_write_request(self, index: u64, value: u64) -> StatusCall {
        StatusCall::RegWrite { handle: self.cur_handle, index, value }
    }

    /// The change that sets or clears the hook for Supervisor Calls.
    pub open spec fn svc_change(self, target: HookTarget) -> HookChange {
        HookChange {
            command: Command::SetSvcCallback { handle: self.cur_handle, target },
            release: self.metadata.svc_callback,
        }
    }

    /// The change that sets or clears the hook for unmapped memory accesses.
    pub open spec fn unmapped_mem_change(self, target: HookTarget) -> HookChange {
        HookChange {
            command: Command::SetUnmappedMemCallback { handle: self.cur_handle, target },
            release: self.metadata.unmapped_mem_callback,
        }
    }

    /// What the hook is told of a Supervisor Call, if it is told anything.
    pub open spec fn svc_told(self, swi: u32, pc: u64) -> Option<SvcEvent> {
        if swi == ENGINE_SWI {
            None
        } else {
            Some(SvcEvent { swi, until: self.metadata.until, pc })
        }
    }

    /// What the hook is told of an unmapped memory access.
    pub open spec fn unmapped_mem_told(self, addr: u64, size: usize, value: u64) -> UnmappedMemEvent {
        UnmappedMemEvent { handle: self.cur_handle, addr, size, value }
    }

    /// Starts emulation at `pc` with the default budget. `until` is where the run is to
    /// end. The engine takes no stop address: `until` is kept for the hook for Supervisor
    /// Calls alone, which can end the run there.
    pub fn emu_start(&mut self, pc: u64, until: u64) -> (r: Attempt<StatusCall>)
        ensures
            r == old(self).start_request(pc, DEFAULT_TICKS),
            *final(self) == old(self).with_until(stop_address(until)),
            r.call matches StatusCall::EmuStartBounded { handle, pc: at, ticks: t } && {
                &&& handle == old(self).cur_handle
                &&& at == pc
                &&& t == 0x100_0000_0000
            },
            r.operation == Operation::StartEmulator,
            until + 4 <= u64::MAX ==> final(self).metadata.until == until + 4,
            until + 4 > u64::MAX ==> final(self).metadata.until == u64::MAX,
            final(self).cur_handle == old(self).cur_handle,
            final(self).metadata.svc_callback == old(self).metadata.svc_callback,
            final(self).metadata.unmapped_mem_callback == old(self).metadata.unmapped_mem_callback,
            final(self).metadata.memory == old(self).metadata.memory,
            final(self).metadata.monitor == old(self).metadata.monitor,
            final(self).metadata.page_table == old(self).metadata.page_table,
            final(self).metadata.handle == old(self).metadata.handle,
    {
        self.emu_start_bounded(pc, until, DEFAULT_TICKS)
    }

    /// Starts emulation at `pc` with a budget of `ticks` ticks. `until` is where the run
    /// is to end, and `u64::MAX` stands for nowhere. The engine takes no stop address:
    /// `until` is kept for the hook for Supervisor Calls alone, which can end the run
    /// there.
    pub fn emu_start_bounded(&mut self, pc: u64, until: u64, ticks: u64) -> (r: Attempt<
        StatusCall,
    >)
        ensures
            r == old(self).start_request(pc, ticks),
            *final(self) == old(self).with_until(stop_address(until)),
            r.call matches StatusCall::EmuStartBounded { handle, pc: at, ticks: t } && {
                &&& handle == old(self).cur_handle
                &&& at == pc
                &&& ticks >= 1 ==> t == ticks
                &&& ticks == 0 ==> t == 1
            },
            r.operation == Operation::StartEmulator,
            until + 4 <= u64::MAX ==> final(self).metadata.until == until + 4,
            until + 4 > u64::MAX ==> final(self).metadata.until == u64::MAX,
            final(self).cur_handle == old(self).cur_handle,
            final(self).metadata.svc_callback == old(self).metadata.svc_callback,
            final(self).metadata.unmapped_mem_callback == old(self).metadata.unmapped_mem_callback,
            final(self).metadata.memory == old(self).metadata.memory,
            final(self).metadata.monitor == old(self).metadata.monitor,
            final(self).metadata.page_table == old(self).metadata.page_table,
            final(self).metadata.handle == old(self).metadata.handle,
    {
        self.metadata.until = until.saturating_add(4);
        let ticks: u64 = if ticks < 1 {
            1
        } else {
            ticks
        };
        Attempt {
            call: StatusCall::EmuStartBounded { handle: self.cur_handle, pc, ticks },
            operation: Operation::StartEmulator,
        }
    }

    /// Stops the emulation.
    pub fn emu_stop(&self) -> (r: Attempt<StatusCall>)
        ensures
            r.call == (StatusCall::EmuStop { handle: self.cur_handle }),
            r.operation == Operation::StopEmulator,
    {
        Attempt {
            call: StatusCall::EmuStop { handle: self.cur_handle },
            operation: Operation::StopEmulator,
        }
    }

    /// Drops the compiled code for a range of guest addresses.
    pub fn invalidate_cache_range(&self, address: u64, size: u64) -> (r: Command)
        ensures
            r == (Command::InvalidateCacheRange { handle: self.cur_handle, address, size }),
    {
        Command::InvalidateCacheRange { handle: self.cur_handle, address, size }
    }

    /// Drops all compiled code.
    pub fn clear_cache(&self) -> (r: Command)
        ensures
            r == (Command::ClearCache { handle: self.cur_handle }),
    {
        Command::ClearCache { handle: self.cur_handle }
    }

    /// The ticks of the last run that were not spent.
    pub fn emu_ticks_remaining(&self) -> (r: Read64Call)
        ensures
            r == (Read64Call::EmuTicksRemaining { handle: self.cur_handle }),
    {
        Read64Call::EmuTicksRemaining { handle: self.cur_handle }
    }

    /// The current size of the JIT code cache.
    pub fn get_cache_size(&self) -> (r: Read64Call)
        ensures
            r == (Read64Call::CacheSize { handle: self.cur_handle }),
    {
        Read64Call::CacheSize { handle: self.cur_handle }
    }

    /// The capacity of the JIT code cache.
    pub fn get_cache_capacity(&self) -> (r: Read64Call)
        ensures
            r == (Read64Call::CacheCapacity { handle: self.cur_handle }),
    {
        Read64Call::CacheCapacity { handle: self.cur_handle }
    }

    /// How often the JIT code cache was evacuated.
    pub fn get_cache_evacuation_count(&self) -> (r: Read64Call)
        ensures
            r == (Read64Call::CacheEvacuationCount { handle: self.cur_handle }),
    {
        Read64Call::CacheEvacuationCount { handle: self.cur_handle }
    }

    /// Reads the NZCV (flags) register.
    pub fn reg_read_nzcv(&self) -> (r: Read64Call)
        ensures
            r == (Read64Call::RegNzcv { handle: self.cur_handle }),
    {
        Read64Call::RegNzcv { handle: self.cur_handle }
    }

    /// Reads the Stack Pointer.
    pub fn reg_read_sp(&self) -> (r: Read64Call)
        ensures
            r == (Read64Call::RegSp { handle: self.cur_handle }),
    {
        Read64Call::RegSp { handle: self.cur_handle }
    }

    /// Reads the Thread ID Register (EL0).
    pub fn reg_read_tpidr_el0(&self) -> (r: Read64Call)
        ensures
            r == (Read64Call::RegTpidrEl0 { handle: self.cur_handle }),
    {
        Read64Call::RegTpidrEl0 { handle: self.cur_handle }
    }

    /// Reads the Program Counter.
    pub fn reg_read_pc(&self) -> (r: Read64Call)
        ensures
            r == (Read64Call::RegPc { handle: self.cur_handle }),
    {
        Read64Call::RegPc { handle: self.cur_handle }
    }

    /// Reads the Thread ID Read-Only Register (EL0), which is not `TPIDR_EL0`.
    pub fn reg_read_tpidrr0_el0(&self) -> (r: Read64Call)
        ensures
            r == (Read64Call::RegTpidrr0El0 { handle: self.cur_handle }),
    {
        Read64Call::RegTpidrr0El0 { handle: self.cur_handle }
    }

    /// Reads a general register (ARM64).
    pub fn reg_read(&self, index: usize) -> (r: Read64Call)
        ensures
            r == self.reg_read_request(index as u64),
            r matches Read64Call::Reg { handle, index: i } && handle == self.cur_handle && i
                == index,
    {
        Read64Call::Reg { handle: self.cur_handle, index: index as u64 }
    }

    /// Reads the Link Register (X30 in ARM64).
    pub fn reg_read_lr(&self) -> (r: Read64Call)
        ensures
            r == self.reg_read_request(LR_INDEX),
            r matches Read64Call::Reg { handle, index } && handle == self.cur_handle && index
                == 30,
    {
        Read64Call::Reg { handle: self.cur_handle, index: LR_INDEX }
    }

    /// Writes a general register by index (ARM64).
    pub fn reg_write_raw(&self, index: usize, value: u64) -> (r: Attempt<StatusCall>)
        ensures
            r.call == self.reg_write_request(index as u64, value),
            r.call matches StatusCall::RegWrite { handle, index: i, value: v } && {
                &&& handle == self.cur_handle
                &&& i == index
                &&& v == value
            },
            r.operation == Operation::WriteRegister,
    {
        Attempt {
            call: StatusCall::RegWrite { handle: self.cur_handle, index: index as u64, value },
            operation: Operation::WriteRegister,
        }
    }

    /// Writes the Link Register (X30 in ARM64).
    pub fn reg_write_lr(&self, value: u64) -> (r: Attempt<StatusCall>)
        ensures
            r.call == self.reg_write_request(LR_INDEX, value),
            r.call matches StatusCall::RegWrite { handle, index, value: v } && {
                &&& handle == self.cur_handle
                &&& index == 30
                &&& v == value
            },
            r.operation == Operation::WriteLr,
    {
        Attempt {
            call: StatusCall::RegWrite { handle: self.cur_handle, index: LR_INDEX, value },
            operation: Operation::WriteLr,
        }
    }

    /// Writes the Program Counter.
    pub fn reg_write_pc(&self, value: u64) -> (r: Attempt<StatusCall>)
        ensures
            r.call == (StatusCall::RegWritePc { handle: self.cur_handle, value }),
            r.operation == Operation::WritePc,
    {
        Attempt {
            call: StatusCall::RegWritePc { handle: self.cur_handle, value },
            operation: Operation::WritePc,
        }
    }

    /// Writes the Stack Pointer.
    pub fn reg_write_sp(&self, value: u64) -> (r: Attempt<StatusCall>)
        ensures
            r.call == (StatusCall::RegWriteSp { handle: self.cur_handle, value }),
            r.operation == Operation::WriteSp,
    {
        Attempt {
            call: StatusCall::RegWriteSp { handle: self.cur_handle, value },
            operation: Operation::WriteSp,
        }
    }

    /// Writes the Thread ID Register (EL0).
    pub fn reg_write_tpidr_el0(&self, value: u64) -> (r: Attempt<StatusCall>)
        ensures
            r.call == (StatusCall::RegWriteTpidrEl0 { handle: self.cur_handle, value }),
            r.operation == Operation::WriteTpidrEl0,
    {
        Attempt {
            call: StatusCall::RegWriteTpidrEl0 { handle: self.cur_handle, value },
            operation: Operation::WriteTpidrEl0,
        }
    }

    /// Writes the NZCV (flags) register.
    pub fn reg_write_nzcv(&self, value: u64) -> (r: Attempt<StatusCall>)
        ensures
            r.call == (StatusCall::RegWriteNzcv { handle: self.cur_handle, value }),
            r.operation == Operation::WriteNzcv,
    {
        Attempt {
            call: StatusCall::RegWriteNzcv { handle: self.cur_handle, value },
            operation: Operation::WriteNzcv,
        }
    }

    /// Writes the CP15 c13 0 3 (ARM32 Thread ID).
    pub fn reg_write_c13_c0_3(&self, value: u32) -> (r: Attempt<StatusCall>)
        ensures
            r.call == (StatusCall::RegWriteC13C03 { handle: self.cur_handle, value }),
            r.operation == Operation::WriteC13C03,
    {
        Attempt {
            call: StatusCall::RegWriteC13C03 { handle: self.cur_handle, value },
            operation: Operation::WriteC13C03,
        }
    }

    /// Writes the CPSR register (ARM32).
    pub fn reg_write_cpsr(&self, value: u32) -> (r: Attempt<StatusCall>)
        ensures
            r.call == (StatusCall::RegWriteCpsr { handle: self.cur_handle, value }),
            r.operation == Operation::WriteCpsr,
    {
        Attempt {
            call: StatusCall::RegWriteCpsr { handle: self.cur_handle, value },
            operation: Operation::WriteCpsr,
        }
    }

    /// Writes the Thread ID Read-Only Register (EL0), which is not `TPIDR_EL0`. The
    /// write does not fail.
    pub fn reg_write_tpidrr0_el0(&self, value: u64) -> (r: Command)
        ensures
            r == (Command::RegWriteTpidrr0El0 { handle: self.cur_handle, value }),
    {
        Command::RegWriteTpidrr0El0 { handle: self.cur_handle, value }
    }

    /// Writes a general register (ARM32).
    pub fn reg_write_r(&self, index: u32, value: u32) -> (r: Attempt<StatusCall>)
        ensures
            r.call == (StatusCall::RegWriteR { handle: self.cur_handle, index, value }),
            r.operation == Operation::WriteR,
    {
        Attempt {
            call: StatusCall::RegWriteR { handle: self.cur_handle, index, value },
            operation: Operation::WriteR,
        }
    }

    /// Reads a general register (ARM32).
    pub fn reg_read_r(&self, index: u32) -> (r: Read32Call)
        ensures
            r == (Read32Call::RegR { handle: self.cur_handle, index }),
    {
        Read32Call::RegR { handle: self.cur_handle, index }
    }

    /// Reads CP15 c13 0 3 (ARM32 Thread ID).
    pub fn reg_read_c13_c0_3(&self) -> (r: Read32Call)
        ensures
            r == (Read32Call::RegC13C03 { handle: self.cur_handle }),
    {
        Read32Call::RegC13C03 { handle: self.cur_handle }
    }

    /// Reads the CPSR register (ARM32).
    pub fn reg_read_cpsr(&self) -> (r: Read32Call)
        ensures
            r == (Read32Call::RegCpsr { handle: self.cur_handle }),
    {
        Read32Call::RegCpsr { handle: self.cur_handle }
    }

    /// Asks for a new ARM64 context; the answer is its address.
    pub fn context_alloc(&self) -> (r: AddressCall)
        ensures
            r == AddressCall::ContextAlloc,
    {
        AddressCall::ContextAlloc
    }

    /// Asks for a new ARM32 context; the answer is its address.
    pub fn context32_alloc(&self) -> (r: AddressCall)
        ensures
            r == AddressCall::Context32Alloc,
    {
        AddressCall::Context32Alloc
    }

    /// Saves the ARM64 CPU state into a context.
    pub fn context_save(&self, context: &DynarmicContextInner) -> (r: Attempt<StatusCall>)
        ensures
            r.call == (StatusCall::ContextSave {
                handle: self.cur_handle,
                context: context.inner_context,
            }),
            r.operation == Operation::SaveContext,
    {
        Attempt {
            call: StatusCall::ContextSave {
                handle: self.cur_handle,
                context: context.inner_context,
            },
            operation: Operation::SaveContext,
        }
    }

    /// Restores the ARM64 CPU state from a context.
    pub fn context_restore(&self, context: &DynarmicContextInner) -> (r: Attempt<StatusCall>)
        ensures
            r.call == (StatusCall::ContextRestore {
                handle: self.cur_handle,
                context: context.inner_context,
            }),
            r.operation == Operation::RestoreContext,
    {
        Attempt {
            call: StatusCall::ContextRestore {
                handle: self.cur_handle,
                context: context.inner_context,
            },
            operation: Operation::RestoreContext,
        }
    }

    /// Saves the ARM32 CPU state into a context.
    pub fn context32_save(&self, context: &DynarmicContext32Inner) -> (r: Attempt<StatusCall>)
        ensures
            r.call == (StatusCall::Context32Save {
                handle: self.cur_handle,
                context: context.inner_context,
            }),
            r.operation == Operation::SaveA32Context,
    {
        Attempt {
            call: StatusCall::Context32Save {
                handle: self.cur_handle,
                context: context.inner_context,
            },
            operation: Operation::SaveA32Context,
        }
    }

    /// Restores the ARM32 CPU state from a context.
    pub fn context32_restore(&self, context: &DynarmicContext32Inner) -> (r: Attempt<StatusCall>)
        ensures
            r.call == (StatusCall::Context32Restore {
                handle: self.cur_handle,
                context: context.inner_context,
            }),
            r.operation == Operation::RestoreA32Context,
    {
        Attempt {
            call: StatusCall::Context32Restore {
                handle: self.cur_handle,
                context: context.inner_context,
            },
            operation: Operation::RestoreA32Context,
        }
    }

    /// Maps a region of guest memory.
    ///
    /// * `addr`: the guest virtual address.
    /// * `size`: the size of the region in bytes; the engine wants whole pages.
    /// * `prot`: protection flags (1: read, 2: write, 4: execute).
    pub fn mem_map(&self, addr: u64, size: usize, prot: u32) -> (r: Attempt<StatusCall>)
        ensures
            r.call matches StatusCall::Mmap { handle, addr: a, size: s, prot: p } && {
                &&& handle == self.cur_handle
                &&& a == addr
                &&& s == size
                &&& p == signed_bits(prot)
            },
            r.operation == Operation::MapMemory,
    {
        Attempt {
            call: StatusCall::Mmap {
                handle: self.cur_handle,
                addr,
                size: size as u64,
                prot: cast_signed(prot),
            },
            operation: Operation::MapMemory,
        }
    }

    /// Maps a region of guest memory onto host memory at the address `ptr`.
    pub fn mem_map_ptr(&self, addr: u64, size: usize, prot: u32, ptr: usize) -> (r: Attempt<
        StatusCall,
    >)
        ensures
            r.call matches StatusCall::MemMapPtr { handle, addr: a, size: s, prot: p, ptr: h }
                && {
                &&& handle == self.cur_handle
                &&& a == addr
                &&& s == size
                &&& p == signed_bits(prot)
                &&& h == ptr
            },
            r.operation == Operation::MapMemoryPtr,
    {
        Attempt {
            call: StatusCall::MemMapPtr {
                handle: self.cur_handle,
                addr,
                size: size as u64,
                prot: cast_signed(prot),
                ptr,
            },
            operation: Operation::MapMemoryPtr,
        }
    }

    /// Unmaps a region of guest memory.
    pub fn mem_unmap(&self, addr: u64, size: usize) -> (r: Attempt<StatusCall>)
        ensures
            r.call == (StatusCall::Munmap { handle: self.cur_handle, addr, size: size as u64 }),
            r.operation == Operation::UnmapMemory,
    {
        Attempt {
            call: StatusCall::Munmap { handle: self.cur_handle, addr, size: size as u64 },
            operation: Operation::UnmapMemory,
        }
    }

    /// Sets the protection flags of a region of guest memory.
    pub fn mem_protect(&self, addr: u64, size: usize, prot: u32) -> (r: Attempt<StatusCall>)
        ensures
            r.call matches StatusCall::MemProtect { handle, addr: a, size: s, prot: p } && {
                &&& handle == self.cur_handle
                &&& a == addr
                &&& s == size
                &&& p == signed_bits(prot)
            },
            r.operation == Operation::ProtectMemory,
    {
        Attempt {
            call: StatusCall::MemProtect {
                handle: self.cur_handle,
                addr,
                size: size as u64,
                prot: cast_signed(prot),
            },
            operation: Operation::ProtectMemory,
        }
    }

    /// Reads guest memory into a buffer of `size` bytes.
    pub fn mem_read(&self, addr: u64, size: usize) -> (r: Attempt<ReadCall>)
        ensures
            r.call == (ReadCall { handle: self.cur_handle, addr, size }),
            r.operation == Operation::ReadMemory,
    {
        Attempt {
            call: ReadCall { handle: self.cur_handle, addr, size },
            operation: Operation::ReadMemory,
        }
    }

    /// Reads guest memory into a new buffer of `size` bytes, which is zero before it
    /// is filled.
    pub fn mem_read_as_vec(&self, addr: u64, size: usize) -> (r: (Vec<u8>, Attempt<ReadCall>))
        ensures
            r.0@ == Seq::new(size as nat, |i: int| 0u8),
            r.1.call == (ReadCall { handle: self.cur_handle, addr, size }),
            r.1.operation == Operation::ReadMemory,
    {
        let buf: Vec<u8> = vec![0u8; size];
        assert(buf@ =~= Seq::new(size as nat, |i: int| 0u8));
        (buf, self.mem_read(addr, size))
    }

    /// Writes the bytes of a buffer, in order, into guest memory.
    pub fn mem_write<'b>(&self, addr: u64, value: &'b [u8]) -> (r: Attempt<WriteCall<'b>>)
        ensures
            r.call.handle == self.cur_handle,
            r.call.addr == addr,
            r.call.bytes@ == value@,
            r.operation == Operation::WriteMemory,
    {
        Attempt {
            call: WriteCall { handle: self.cur_handle, addr, bytes: value },
            operation: Operation::WriteMemory,
        }
    }

    /// Starts reading a string that ends in a zero byte.
    pub fn mem_read_c_string(&self, addr: u64) -> (r: CStringReader)
        ensures
            r@ == (ReaderView { handle: self.cur_handle, start: addr, bytes: Seq::empty() }),
    {
        CStringReader::at(self.cur_handle, addr)
    }

    /// Sets the hook for Supervisor Calls to the one at `user_data`.
    pub fn set_svc_callback(&mut self, user_data: usize) -> (r: HookChange)
        ensures
            r == old(self).svc_change(HookTarget::User { user_data }),
            *final(self) == old(self).with_svc_callback(Some(user_data)),
            r.command == (Command::SetSvcCallback {
                handle: old(self).cur_handle,
                target: HookTarget::User { user_data },
            }),
            r.release == old(self).metadata.svc_callback,
            final(self).metadata.svc_callback == Some(user_data),
            final(self).cur_handle == old(self).cur_handle,
            final(self).metadata.unmapped_mem_callback == old(self).metadata.unmapped_mem_callback,
            final(self).metadata.until == old(self).metadata.until,
            final(self).metadata.memory == old(self).metadata.memory,
            final(self).metadata.monitor == old(self).metadata.monitor,
            final(self).metadata.page_table == old(self).metadata.page_table,
            final(self).metadata.handle == old(self).metadata.handle,
    {
        let release = self.metadata.svc_callback;
        self.metadata.svc_callback = Some(user_data);
        HookChange {
            command: Command::SetSvcCallback {
                handle: self.cur_handle,
                target: HookTarget::User { user_data },
            },
            release,
        }
    }

    /// Sets the hook for unmapped memory accesses to the one at `user_data`.
    pub fn set_unmapped_mem_callback(&mut self, user_data: usize) -> (r: HookChange)
        ensures
            r == old(self).unmapped_mem_change(HookTarget::User { user_data }),
            *final(self) == old(self).with_unmapped_mem_callback(Some(user_data)),
            r.command == (Command::SetUnmappedMemCallback {
                handle: old(self).cur_handle,
                target: HookTarget::User { user_data },
            }),
            r.release == old(self).metadata.unmapped_mem_callback,
            final(self).metadata.unmapped_mem_callback == Some(user_data),
            final(self).cur_handle == old(self).cur_handle,
            final(self).metadata.svc_callback == old(self).metadata.svc_callback,
            final(self).metadata.until == old(self).metadata.until,
            final(self).metadata.memory == old(self).metadata.memory,
            final(self).metadata.monitor == old(self).metadata.monitor,
            final(self).metadata.page_table == old(self).metadata.page_table,
            final(self).metadata.handle == old(self).metadata.handle,
    {
        let release = self.metadata.unmapped_mem_callback;
        self.metadata.unmapped_mem_callback = Some(user_data);
        HookChange {
            command: Command::SetUnmappedMemCallback {
                handle: self.cur_handle,
                target: HookTarget::User { user_data },
            },
            release,
        }
    }

    /// Removes both hooks. The changes are made in this order: the one for Supervisor
    /// Calls, then the one for unmapped memory accesses.
    pub fn destroy_callback(&mut self) -> (r: (HookChange, HookChange))
        ensures
            r.0 == old(self).svc_change(HookTarget::Empty),
            r.1 == old(self).unmapped_mem_change(HookTarget::Empty),
            *final(self) == old(self).with_svc_callback(None).with_unmapped_mem_callback(None),
            r.0.command == (Command::SetSvcCallback {
                handle: old(self).cur_handle,
                target: HookTarget::Empty,
            }),
            r.0.release == old(self).metadata.svc_callback,
            r.1.command == (Command::SetUnmappedMemCallback {
                handle: old(self).cur_handle,
                target: HookTarget::Empty,
            }),
            r.1.release == old(self).metadata.unmapped_mem_callback,
            final(self).metadata.svc_callback is None,
            final(self).metadata.unmapped_mem_callback is None,
            final(self).cur_handle == old(self).cur_handle,
            final(self).metadata.until == old(self).metadata.until,
            final(self).metadata.memory == old(self).metadata.memory,
            final(self).metadata.monitor == old(self).metadata.monitor,
            final(self).metadata.page_table == old(self).metadata.page_table,
            final(self).metadata.handle == old(self).metadata.handle,
    {
        let svc = HookChange {
            command: Command::SetSvcCallback {
                handle: self.cur_handle,
                target: HookTarget::Empty,
            },
            release: self.metadata.svc_callback,
        };
        let unmapped_mem = HookChange {
            command: Command::SetUnmappedMemCallback {
                handle: self.cur_handle,
                target: HookTarget::Empty,
            },
            release: self.metadata.unmapped_mem_callback,
        };
        self.metadata.svc_callback = None;
        self.metadata.unmapped_mem_callback = None;
        (svc, unmapped_mem)
    }

    /// Takes a Supervisor Call: the engine's own is ignored, and for any other the
    /// Program Counter is asked for.
    pub fn on_svc(&self, swi: u32) -> (r: SvcStep)
        ensures
            r == (if swi == ENGINE_SWI {
                SvcStep::Ignore
            } else {
                SvcStep::ReadPc { call: Read64Call::RegPc { handle: self.cur_handle } }
            }),
            r is Ignore <==> swi == 114514,
    {
        if swi == ENGINE_SWI {
            SvcStep::Ignore
        } else {
            SvcStep::ReadPc { call: self.reg_read_pc() }
        }
    }

    /// What the hook is told of a Supervisor Call that is not ignored, met at `pc`.
    pub fn svc_event(&self, swi: u32, pc: u64) -> (r: SvcEvent)
        requires
            swi != ENGINE_SWI,
        ensures
            Some(r) == self.svc_told(swi, pc),
            r.swi == swi,
            r.until == self.metadata.until,
            r.pc == pc,
    {
        SvcEvent { swi, until: self.metadata.until, pc }
    }

    /// What the hook is told of an unmapped memory access, as the engine reports it.
    pub fn unmapped_mem_event(&self, addr: u64, size: usize, value: u64) -> (r: UnmappedMemEvent)
        ensures
            r == self.unmapped_mem_told(addr, size, value),
            r.handle == self.cur_handle,
            r.addr == addr,
            r.size == size,
            r.value == value,
    {
        UnmappedMemEvent { handle: self.cur_handle, addr, size, value }
    }
}

/// Tells the hook of an unmapped memory access, once, and answers the engine what the
/// hook answers: whether the access was handled.
pub fn unmapped_mem_access(
    event: UnmappedMemEvent,
    hook: impl FnOnce(UnmappedMemEvent) -> bool,
) -> (r: bool)
    requires
        call_requires(hook, (event,)),
    ensures
        call_ensures(hook, (event,), r),
{
    unmapped_mem_answer(Some(hook(event)))
}

/// Whether an unmapped memory access counts as handled: as its hook answers, and not
/// where there is no hook.
pub fn unmapped_mem_answer(hook_answer: Option<bool>) -> (r: bool)
    ensures
        r == (hook_answer == Some(true)),
{
    match hook_answer {
        Some(handled) => handled,
        None => false,
    }
}

/// The stop address saturates: it is the address asked for plus four wherever that
/// fits, and never wraps, so that the last address stays a sentinel.
pub proof fn law_stop_address_saturates(until: u64)
    ensures
        until + 4 <= u64::MAX ==> stop_address(until) == until + 4,
        until + 4 > u64::MAX ==> stop_address(until) == u64::MAX,
        stop_address(until) >= until,
        stop_address(u64::MAX) == u64::MAX,
{
}

/// A run never gets an empty budget, and every other budget is passed on as it is.
pub proof fn law_budget_is_never_zero(ticks: u64)
    ensures
        budget(ticks) >= 1,
        ticks >= 1 ==> budget(ticks) == ticks,
{
}

/// The Link Register is the general register X30.
pub proof fn law_link_register_is_x30(emu: Dynarmic, value: u64)
    ensures
        emu.reg_read_request(LR_INDEX) == emu.reg_read_request(30),
        emu.reg_write_request(LR_INDEX, value) == emu.reg_write_request(30, value),
        emu.reg_read_request(LR_INDEX) matches Read64Call::Reg { index, .. } && index == 30,
        emu.reg_write_request(LR_INDEX, value) matches StatusCall::RegWrite { index, .. } && index
            == 30,
{
}

/// `TPIDRRO_EL0` is read as a register of its own, not as `TPIDR_EL0`.
pub proof fn law_tpidrro_is_not_tpidr(emu: Dynarmic)
    ensures
        (Read64Call::RegTpidrr0El0 { handle: emu.cur_handle }) != (Read64Call::RegTpidrEl0 {
            handle: emu.cur_handle,
        }),
{
}

/// A run starts where it is told to: the request names the emulator's engine, exactly the
/// `pc` given, and the ticks given, or one where none are given. So runs from different
/// addresses are different requests.
pub proof fn law_run_starts_at_pc(emu: Dynarmic, pc: u64, ticks: u64, other_pc: u64)
    ensures
        emu.start_request(pc, ticks).operation == Operation::StartEmulator,
        emu.start_request(pc, ticks).call matches StatusCall::EmuStartBounded {
            handle,
            pc: at,
            ticks: t,
        } && {
            &&& handle == emu.cur_handle
            &&& at == pc
            &&& ticks >= 1 ==> t == ticks
            &&& ticks == 0 ==> t == 1
        },
        emu.start_request(pc, ticks) == emu.start_request(other_pc, ticks) <==> pc == other_pc,
{
}

/// A register is read and written under its own index: the request names the emulator's
/// engine, the index and the value given. So accesses to different registers, and writes
/// of different values, are different requests.
pub proof fn law_registers_are_kept_apart(emu: Dynarmic, i: u64, j: u64, v: u64, w: u64)
    ensures
        emu.reg_read_request(i) matches Read64Call::Reg { handle, index } && {
            &&& handle == emu.cur_handle
            &&& index == i
        },
        emu.reg_write_request(i, v) matches StatusCall::RegWrite { handle, index, value } && {
            &&& handle == emu.cur_handle
            &&& index == i
            &&& value == v
        },
        emu.reg_read_request(i) == emu.reg_read_request(j) <==> i == j,
        emu.reg_write_request(i, v) == emu.reg_write_request(j, w) <==> i == j && v == w,
{
}

/// A change of hook is asked of the emulator's engine for its own kind of event, with the
/// target given, and releases the hook that was set for that event, and no other.
pub proof fn law_hook_change_is_of_its_kind(emu: Dynarmic, to: HookTarget)
    ensures
        emu.svc_change(to).command matches Command::SetSvcCallback { handle, target } && {
            &&& handle == emu.cur_handle
            &&& target == to
        },
        emu.svc_change(to).release == emu.metadata.svc_callback,
        emu.unmapped_mem_change(to).command matches Command::SetUnmappedMemCallback {
            handle,
            target,
        } && {
            &&& handle == emu.cur_handle
            &&& target == to
        },
        emu.unmapped_mem_change(to).release == emu.metadata.unmapped_mem_callback,
{
}

/// A start changes the stop address and nothing else.
pub proof fn law_start_changes_the_stop_address_alone(emu: Dynarmic, until: u64)
    ensures
        ({
            let after = emu.with_until(until);
            &&& after.metadata.until == until
            &&& after.cur_handle == emu.cur_handle
            &&& after.metadata.svc_callback == emu.metadata.svc_callback
            &&& after.metadata.unmapped_mem_callback == emu.metadata.unmapped_mem_callback
            &&& after.metadata.memory == emu.metadata.memory
            &&& after.metadata.monitor == emu.metadata.monitor
            &&& after.metadata.page_table == emu.metadata.page_table
            &&& after.metadata.handle == emu.metadata.handle
        }),
{
}

/// Setting or removing the hook for one kind of event changes that hook and nothing else.
pub proof fn law_hooks_are_kept_apart(emu: Dynarmic, hook: Option<usize>)
    ensures
        ({
            let svc = emu.with_svc_callback(hook);
            let mem = emu.with_unmapped_mem_callback(hook);
            &&& svc.metadata.svc_callback == hook
            &&& svc.metadata.unmapped_mem_callback == emu.metadata.unmapped_mem_callback
            &&& svc.cur_handle == emu.cur_handle
            &&& svc.metadata.until == emu.metadata.until
            &&& svc.metadata.memory == emu.metadata.memory
            &&& svc.metadata.monitor == emu.metadata.monitor
            &&& svc.metadata.page_table == emu.metadata.page_table
            &&& svc.metadata.handle == emu.metadata.handle
            &&& mem.metadata.unmapped_mem_callback == hook
            &&& mem.metadata.svc_callback == emu.metadata.svc_callback
            &&& mem.cur_handle == emu.cur_handle
            &&& mem.metadata.until == emu.metadata.until
            &&& mem.metadata.memory == emu.metadata.memory
            &&& mem.metadata.monitor == emu.metadata.monitor
            &&& mem.metadata.page_table == emu.metadata.page_table
            &&& mem.metadata.handle == emu.metadata.handle
        }),
{
}

/// A hook is told what happened and nothing else: of a Supervisor Call its number, the
/// stop address kept and the `pc`, unless it is the engine's own, number 114514; of an
/// unmapped access its address, size and value.
pub proof fn law_hooks_are_told_what_happened(
    emu: Dynarmic,
    swi: u32,
    pc: u64,
    addr: u64,
    size: usize,
    value: u64,
)
    ensures
        emu.svc_told(swi, pc) is None <==> swi == 114514,
        emu.svc_told(swi, pc) matches Some(e) ==> {
            &&& e.swi == swi
            &&& e.until == emu.metadata.until
            &&& e.pc == pc
        },
        emu.unmapped_mem_told(addr, size, value).handle == emu.cur_handle,
        emu.unmapped_mem_told(addr, size, value).addr == addr,
        emu.unmapped_mem_told(addr, size, value).size == size,
        emu.unmapped_mem_told(addr, size, value).value == value,
{
}

} // verus!
