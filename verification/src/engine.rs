//! What the binding asks of the engine, and what the engine's answers mean.
//!
//! An address is a `usize`; null is 0. The types here are grouped by the answer that
//! the engine gives: an address, a status, a number of 64 or of 32 bits, or nothing.

use crate::text::{append_signed_decimal, signed_decimal};
use vstd::prelude::*;
use vstd::string::*;

verus! {

/// A request that is answered with an address.
#[derive(Clone, Copy, Debug, PartialEq, Eq, Structural)]
pub enum AddressCall {
    InitMemory,
    InitMonitor { processors: u32 },
    InitPageTable,
    New {
        processor_id: u32,
        memory: usize,
        monitor: usize,
        page_table: usize,
        jit_size: u64,
        unsafe_optimizations: bool,
    },
    NewFm {
        processor_id: u32,
        memory: usize,
        monitor: usize,
        page_table: usize,
        jit_size: u64,
        unsafe_optimizations: bool,
        fastmem_base: usize,
    },
    NewA32 {
        processor_id: u32,
        memory: usize,
        monitor: usize,
        page_table: usize,
        jit_size: u64,
        unsafe_optimizations: bool,
        fastmem_base: usize,
    },
    ContextAlloc,
    Context32Alloc,
}

/// A request that is answered with a status: 0 for success, else an error code.
#[allow(inconsistent_fields)]
#[derive(Clone, Copy, Debug, PartialEq, Eq, Structural)]
pub enum StatusCall {
    EmuStartBounded { handle: usize, pc: u64, ticks: u64 },
    EmuStop { handle: usize },
    ContextSave { handle: usize, context: usize },
    ContextRestore { handle: usize, context: usize },
    Context32Save { handle: usize, context: usize },
    Context32Restore { handle: usize, context: usize },
    Mmap { handle: usize, addr: u64, size: u64, prot: i32 },
    MemMapPtr { handle: usize, addr: u64, size: u64, prot: i32, ptr: usize },
    Munmap { handle: usize, addr: u64, size: u64 },
    MemProtect { handle: usize, addr: u64, size: u64, prot: i32 },
    RegWrite { handle: usize, index: u64, value: u64 },
    RegWritePc { handle: usize, value: u64 },
    RegWriteSp { handle: usize, value: u64 },
    RegWriteTpidrEl0 { handle: usize, value: u64 },
    RegWriteNzcv { handle: usize, value: u64 },
    RegWriteC13C03 { handle: usize, value: u32 },
    RegWriteR { handle: usize, index: u32, value: u32 },
    RegWriteCpsr { handle: usize, value: u32 },
}

/// A request to read `size` bytes of guest memory at `addr` into a buffer of that
/// length. It is answered with a status.
#[derive(Clone, Copy, Debug, PartialEq, Eq, Structural)]
pub struct ReadCall {
    pub handle: usize,
    pub addr: u64,
    pub size: usize,
}

/// A request to write these bytes, in order, into guest memory at `addr`. It is
/// answered with a status.
#[derive(Clone, Copy, Debug)]
pub struct WriteCall<'b> {
    pub handle: usize,
    pub addr: u64,
    pub bytes: &'b [u8],
}

/// A request that is answered with a number of 64 bits.
#[derive(Clone, Copy, Debug, PartialEq, Eq, Structural)]
pub enum Read64Call {
    EmuTicksRemaining { handle: usize },
    CacheSize { handle: usize },
    CacheCapacity { handle: usize },
    CacheEvacuationCount { handle: usize },
    Reg { handle: usize, index: u64 },
    RegNzcv { handle: usize },
    RegSp { handle: usize },
    RegTpidrEl0 { handle: usize },
    RegTpidrr0El0 { handle: usize },
    RegPc { handle: usize },
}

/// A request that is answered with a number of 32 bits.
#[derive(Clone, Copy, Debug, PartialEq, Eq, Structural)]
pub enum Read32Call {
    RegC13C03 { handle: usize },
    RegR { handle: usize, index: u32 },
    RegCpsr { handle: usize },
}

/// What the engine calls when it meets an event.
#[derive(Clone, Copy, Debug, PartialEq, Eq, Structural)]
pub enum HookTarget {
    /// A function that does nothing; for an unmapped access it answers "not handled".
    Empty,
    /// The hook at this address.
    User { user_data: usize },
}

/// A request whose answer, if any, is not looked at.
#[derive(Clone, Copy, Debug, PartialEq, Eq, Structural)]
pub enum Command {
    Destroy { handle: usize },
    ContextFree { context: usize },
    Context32Free { context: usize },
    InvalidateCacheRange { handle: usize, address: u64, size: u64 },
    ClearCache { handle: usize },
    RegWriteTpidrr0El0 { handle: usize, value: u64 },
    SetSvcCallback { handle: usize, target: HookTarget },
    SetUnmappedMemCallback { handle: usize, target: HookTarget },
}

/// What was attempted when the engine reports an error.
#[derive(Clone, Copy, Debug, PartialEq, Eq, Structural)]
pub enum Operation {
    StartEmulator,
    StopEmulator,
    SaveContext,
    RestoreContext,
    SaveA32Context,
    RestoreA32Context,
    MapMemory,
    MapMemoryPtr,
    UnmapMemory,
    ProtectMemory,
    ReadMemory,
    WriteMemory,
    WritePc,
    WriteSp,
    WriteLr,
    WriteTpidrEl0,
    WriteNzcv,
    WriteRegister,
    WriteC13C03,
    WriteR,
    WriteCpsr,
}

impl Operation {
    /// The words that report a failure of the operation.
    pub open spec fn failure_text(self) -> Seq<char> {
        match self {
            Operation::StartEmulator => "Failed to start emulator"@,
            Operation::StopEmulator => "Failed to stop emulator"@,
            Operation::SaveContext => "Failed to save context"@,
            Operation::RestoreContext => "Failed to restore context"@,
            Operation::SaveA32Context => "Failed to save A32 context"@,
            Operation::RestoreA32Context => "Failed to restore A32 context"@,
            Operation::MapMemory => "Failed to map memory"@,
            Operation::MapMemoryPtr => "Failed to map memory ptr"@,
            Operation::UnmapMemory => "Failed to unmap memory"@,
            Operation::ProtectMemory => "Failed to protect memory"@,
            Operation::ReadMemory => "Failed to read memory"@,
            Operation::WriteMemory => "Failed to write memory"@,
            Operation::WritePc => "Failed to write PC"@,
            Operation::WriteSp => "Failed to write SP"@,
            Operation::WriteLr => "Failed to write LR"@,
            Operation::WriteTpidrEl0 => "Failed to write TPIDR_EL0"@,
            Operation::WriteNzcv => "Failed to write NZCV"@,
            Operation::WriteRegister => "Failed to write register"@,
            Operation::WriteC13C03 => "Failed to write CP15 c13 0 3"@,
            Operation::WriteR => "Failed to write R register"@,
            Operation::WriteCpsr => "Failed to write CPSR"@,
        }
    }

    /// The words that report a failure of the operation.
    fn failure(self) -> (r: &'static str)
        ensures
            r@ == self.failure_text(),
    {
        match self {
            Operation::StartEmulator => "Failed to start emulator",
            Operation::StopEmulator => "Failed to stop emulator",
            Operation::SaveContext => "Failed to save context",
            Operation::RestoreContext => "Failed to restore context",
            Operation::SaveA32Context => "Failed to save A32 context",
            Operation::RestoreA32Context => "Failed to restore A32 context",
            Operation::MapMemory => "Failed to map memory",
            Operation::MapMemoryPtr => "Failed to map memory ptr",
            Operation::UnmapMemory => "Failed to unmap memory",
            Operation::ProtectMemory => "Failed to protect memory",
            Operation::ReadMemory => "Failed to read memory",
            Operation::WriteMemory => "Failed to write memory",
            Operation::WritePc => "Failed to write PC",
            Operation::WriteSp => "Failed to write SP",
            Operation::WriteLr => "Failed to write LR",
            Operation::WriteTpidrEl0 => "Failed to write TPIDR_EL0",
            Operation::WriteNzcv => "Failed to write NZCV",
            Operation::WriteRegister => "Failed to write register",
            Operation::WriteC13C03 => "Failed to write CP15 c13 0 3",
            Operation::WriteR => "Failed to write R register",
            Operation::WriteCpsr => "Failed to write CPSR",
        }
    }
}

/// An error that the engine reported, with its code.
#[derive(Clone, Copy, Debug, PartialEq, Eq, Structural)]
pub struct EngineError {
    pub operation: Operation,
    pub code: i32,
}

impl EngineError {
    /// The error as a line of text: what failed, and the code in decimal.
    pub fn message(&self) -> (r: String)
        ensures
            r@ == self.operation.failure_text() + ": code="@ + signed_decimal(self.code as int),
    {
        let mut text = String::from_str(self.operation.failure());
        text.append(": code=");
        append_signed_decimal(&mut text, self.code);
        text
    }

    /// Whether a mapping failed with the code that hints at a region that is mapped
    /// already.
    pub fn hints_at_replacing(&self) -> (r: bool)
        ensures
            r == (self.code == 4 && (self.operation == Operation::MapMemory || self.operation
                == Operation::MapMemoryPtr)),
    {
        self.code == 4 && (self.operation == Operation::MapMemory || self.operation
            == Operation::MapMemoryPtr)
    }
}

/// What a status code says of an operation: 0 is success, every other code an error
/// that keeps it.
pub open spec fn status(operation: Operation, code: i32) -> Result<(), EngineError> {
    if code == 0 {
        Ok(())
    } else {
        Err(EngineError { operation, code })
    }
}

/// A request to make, and the operation that its status decides.
#[derive(Clone, Copy, Debug, PartialEq, Eq, Structural)]
pub struct Attempt<C> {
    pub call: C,
    pub operation: Operation,
}

impl<C> Attempt<C> {
    /// Ends the operation with the status that the engine answered.
    pub fn complete(&self, code: i32) -> (r: Result<(), EngineError>)
        ensures
            r == status(self.operation, code),
            r is Ok <==> code == 0,
            r matches Err(e) ==> e.code == code && e.operation == self.operation,
    {
        if code != 0 {
            return Err(EngineError { operation: self.operation, code });
        }
        Ok(())
    }

    /// Ends an operation that filled a buffer: the buffer on success, the error
    /// otherwise.
    pub fn complete_with(&self, code: i32, buf: Vec<u8>) -> (r: Result<Vec<u8>, EngineError>)
        ensures
            r == (match status(self.operation, code) {
                Ok(_) => Ok(buf),
                Err(e) => Err(e),
            }),
            code == 0 ==> r == Ok::<Vec<u8>, EngineError>(buf),
            code != 0 ==> (r matches Err(e) && e.code == code && e.operation == self.operation),
    {
        match self.complete(code) {
            Ok(_) => Ok(buf),
            Err(e) => Err(e),
        }
    }
}

/// The signed number that has the same 32 bits.
pub open spec fn signed_bits(n: u32) -> int {
    if n < 0x8000_0000 {
        n as int
    } else {
        n - 0x1_0000_0000
    }
}

/// Turns protection flags into the signed number that the engine takes.
pub(crate) fn cast_signed(n: u32) -> (r: i32)
    ensures
        r == signed_bits(n),
{
    if n < 0x8000_0000 {
        n as i32
    } else {
        (n as i64 - 0x1_0000_0000i64) as i32
    }
}

/// Protection flags reach the engine unchanged: different flags give different signed
/// numbers, and the plain combinations of read, write and execute are numbers
/// themselves.
pub proof fn law_protection_flags_are_kept(a: u32, b: u32)
    ensures
        signed_bits(a) == signed_bits(b) ==> a == b,
        a <= 7 ==> signed_bits(a) == a,
        i32::MIN <= signed_bits(a) <= i32::MAX,
{
}

/// The signed number that stands for protection flags differs from them by a multiple
/// of 2^32, as a number of the same 32 bits does.
pub proof fn law_signed_bits_are_the_same_bits(n: u32)
    ensures
        (n - signed_bits(n)) % 0x1_0000_0000 == 0,
        -0x8000_0000 <= signed_bits(n) < 0x8000_0000,
        signed_bits(n) < 0 <==> n >= 0x8000_0000,
{
}

/// Zero alone is success, and an error keeps its code and its operation: two failures
/// are told alike exactly where both agree.
pub proof fn law_status_keeps_the_code(p: Operation, a: i32, q: Operation, b: i32)
    ensures
        status(p, a) is Ok <==> a == 0,
        status(p, a) matches Err(e) ==> e.code == a && e.operation == p,
        a != 0 && b != 0 ==> (status(p, a) == status(q, b) <==> p == q && a == b),
{
}

} // verus!
