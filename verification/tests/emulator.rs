use dynarmic_sys::c_string::{c_string_text, CStringReader, CStringStep, GuestText};
use dynarmic_sys::construction::{Construction, Progress, Request};
use dynarmic_sys::context::{DynarmicContext32Inner, DynarmicContextInner};
use dynarmic_sys::emulator::{
    unmapped_mem_access, unmapped_mem_answer, Dynarmic, SvcEvent, SvcStep, UnmappedMemEvent,
};
use dynarmic_sys::engine::{
    AddressCall, Attempt, Command, EngineError, HookTarget, Operation, Read32Call, Read64Call,
    ReadCall, StatusCall,
};
use dynarmic_sys::hooks::HookChange;

const HANDLE: usize = 0x7000;

fn next(progress: Progress) -> Construction {
    match progress {
        Progress::Next(c) => c,
        Progress::Ready(_) => panic!("ready too early"),
        Progress::OutOfMemory => panic!("out of memory"),
    }
}

fn ready(progress: Progress) -> Dynarmic {
    match progress {
        Progress::Ready(emu) => emu,
        _ => panic!("not ready"),
    }
}

fn emulator() -> Dynarmic {
    let c = next(Dynarmic::new(None).supply(0x1000));
    let c = next(c.supply(0x2000));
    let c = next(c.supply_processor_id(0));
    let c = next(c.supply(0x3000));
    ready(c.supply(HANDLE))
}

fn engine(call: AddressCall) -> Request {
    Request::Engine { call }
}

#[test]
fn a64_emulator_is_made_in_order() {
    let c = Dynarmic::new(Some("16"));
    assert_eq!(c.jit_size_mb(), 16);
    assert_eq!(c.request(), engine(AddressCall::InitMemory));
    let c = next(c.supply(0x1000));
    assert_eq!(c.request(), Request::SharedMonitor);
    let c = next(c.supply(0x2000));
    assert_eq!(c.request(), Request::ProcessorId);
    let c = next(c.supply_processor_id(3));
    assert_eq!(c.request(), engine(AddressCall::InitPageTable));
    let c = next(c.supply(0x3000));
    assert_eq!(
        c.request(),
        engine(AddressCall::New {
            processor_id: 3,
            memory: 0x1000,
            monitor: 0x2000,
            page_table: 0x3000,
            jit_size: 16 * 1024 * 1024,
            unsafe_optimizations: true,
        })
    );
    let emu = ready(c.supply(HANDLE));
    assert_eq!(emu.cur_handle, HANDLE);
    assert_eq!(emu.metadata.handle, HANDLE);
    assert_eq!(emu.metadata.memory, 0x1000);
    assert_eq!(emu.metadata.monitor, 0x2000);
    assert_eq!(emu.metadata.page_table, 0x3000);
    assert_eq!(emu.metadata.until, 0);
    assert_eq!(emu.metadata.svc_callback, None);
    assert_eq!(emu.metadata.unmapped_mem_callback, None);
    assert_eq!(emu.metadata.destroy(), Command::Destroy { handle: HANDLE });
}

#[test]
fn fastmem_emulator_asks_for_the_page_table_of_its_arena() {
    let c = next(Dynarmic::new_fastmem(0xbeef_0000, Some("4")).supply(0x1000));
    assert_eq!(c.request(), Request::SharedMonitor);
    let c = next(c.supply(0x2000));
    assert_eq!(c.request(), Request::ProcessorId);
    let c = next(c.supply_processor_id(7));
    assert_eq!(c.request(), Request::FastmemPageTable { base: 0xbeef_0000 });
    let c = next(c.supply(0));
    assert_eq!(
        c.request(),
        engine(AddressCall::NewFm {
            processor_id: 7,
            memory: 0x1000,
            monitor: 0x2000,
            page_table: 0,
            jit_size: 8 * 1024 * 1024,
            unsafe_optimizations: true,
            fastmem_base: 0xbeef_0000,
        })
    );
    assert_eq!(ready(c.supply(HANDLE)).metadata.page_table, 0);
}

#[test]
fn a32_emulator_has_a_monitor_of_its_own() {
    let c = next(Dynarmic::new_a32(Some("4096")).supply(0x1000));
    assert_eq!(c.request(), engine(AddressCall::InitMonitor { processors: 1 }));
    let c = next(c.supply(0x2000));
    assert_eq!(c.request(), engine(AddressCall::InitPageTable));
    let c = next(c.supply(0x3000));
    assert_eq!(
        c.request(),
        engine(AddressCall::NewA32 {
            processor_id: 0,
            memory: 0x1000,
            monitor: 0x2000,
            page_table: 0x3000,
            jit_size: 512 * 1024 * 1024,
            unsafe_optimizations: true,
            fastmem_base: 0,
        })
    );
    assert_eq!(ready(c.supply(HANDLE)).cur_handle, HANDLE);
}

#[test]
fn missing_memory_ends_construction() {
    assert!(matches!(Dynarmic::new(None).supply(0), Progress::OutOfMemory));
    assert!(matches!(Dynarmic::new_fastmem(1, None).supply(0), Progress::OutOfMemory));
    assert!(matches!(Dynarmic::new_a32(None).supply(0), Progress::OutOfMemory));
}

#[test]
fn start_keeps_the_stop_address_and_a_budget() {
    let mut emu = emulator();
    let attempt = emu.emu_start_bounded(0x100, 0x200, 0);
    assert_eq!(
        attempt.call,
        StatusCall::EmuStartBounded { handle: HANDLE, pc: 0x100, ticks: 1 }
    );
    assert_eq!(emu.metadata.until, 0x204);

    let attempt = emu.emu_start_bounded(0x100, u64::MAX, 64);
    assert_eq!(
        attempt.call,
        StatusCall::EmuStartBounded { handle: HANDLE, pc: 0x100, ticks: 64 }
    );
    assert_eq!(emu.metadata.until, u64::MAX);

    emu.emu_start_bounded(0x100, u64::MAX - 4, 64);
    assert_eq!(emu.metadata.until, u64::MAX);
    emu.emu_start_bounded(0x100, u64::MAX - 5, 64);
    assert_eq!(emu.metadata.until, u64::MAX - 1);

    let attempt = emu.emu_start(0x300, 0x400);
    assert_eq!(
        attempt.call,
        StatusCall::EmuStartBounded { handle: HANDLE, pc: 0x300, ticks: 0x10000000000 }
    );
    assert_eq!(emu.metadata.until, 0x404);
    assert_eq!(attempt.complete(0), Ok(()));
    assert_eq!(
        attempt.complete(3).unwrap_err().message(),
        "Failed to start emulator: code=3"
    );
}

#[test]
fn every_operation_reports_its_failure() {
    let emu = emulator();
    let c64 = DynarmicContextInner { inner_context: 0x50 };
    let c32 = DynarmicContext32Inner { inner_context: 0x60 };
    let mut started = emulator();
    let cases: Vec<(Attempt<StatusCall>, &str)> = vec![
        (started.emu_start(0, 0), "Failed to start emulator: code=-1"),
        (emu.emu_stop(), "Failed to stop emulator: code=-1"),
        (emu.context_save(&c64), "Failed to save context: code=-1"),
        (emu.context_restore(&c64), "Failed to restore context: code=-1"),
        (emu.context32_save(&c32), "Failed to save A32 context: code=-1"),
        (emu.context32_restore(&c32), "Failed to restore A32 context: code=-1"),
        (emu.mem_map(0, 0, 0), "Failed to map memory: code=-1"),
        (emu.mem_map_ptr(0, 0, 0, 0), "Failed to map memory ptr: code=-1"),
        (emu.mem_unmap(0, 0), "Failed to unmap memory: code=-1"),
        (emu.mem_protect(0, 0, 0), "Failed to protect memory: code=-1"),
        (emu.reg_write_pc(0), "Failed to write PC: code=-1"),
        (emu.reg_write_sp(0), "Failed to write SP: code=-1"),
        (emu.reg_write_lr(0), "Failed to write LR: code=-1"),
        (emu.reg_write_tpidr_el0(0), "Failed to write TPIDR_EL0: code=-1"),
        (emu.reg_write_nzcv(0), "Failed to write NZCV: code=-1"),
        (emu.reg_write_raw(0, 0), "Failed to write register: code=-1"),
        (emu.reg_write_c13_c0_3(0), "Failed to write CP15 c13 0 3: code=-1"),
        (emu.reg_write_r(0, 0), "Failed to write R register: code=-1"),
        (emu.reg_write_cpsr(0), "Failed to write CPSR: code=-1"),
    ];
    for (attempt, text) in cases {
        assert_eq!(attempt.complete(0), Ok(()));
        let error = attempt.complete(-1).unwrap_err();
        assert_eq!(error, EngineError { operation: attempt.operation, code: -1 });
        assert_eq!(error.message(), text);
    }
    assert_eq!(
        emu.mem_read(0, 0).complete(-1).unwrap_err().message(),
        "Failed to read memory: code=-1"
    );
    assert_eq!(
        emu.mem_write(0, &[]).complete(-1).unwrap_err().message(),
        "Failed to write memory: code=-1"
    );
}

#[test]
fn error_codes_are_written_in_decimal() {
    for code in [1, 4, 9, 10, 42, 100, -1, -10, i32::MAX, i32::MIN] {
        let error = EngineError { operation: Operation::UnmapMemory, code };
        assert_eq!(error.message(), format!("Failed to unmap memory: code={}", code));
    }
}

#[test]
fn code_four_hints_at_replacing_a_mapping() {
    let emu = emulator();
    assert!(emu.mem_map(0, 0, 0).complete(4).unwrap_err().hints_at_replacing());
    assert!(emu.mem_map_ptr(0, 0, 0, 0).complete(4).unwrap_err().hints_at_replacing());
    assert!(!emu.mem_map(0, 0, 0).complete(3).unwrap_err().hints_at_replacing());
    assert!(!emu.mem_unmap(0, 0).complete(4).unwrap_err().hints_at_replacing());
}

#[test]
fn mappings_pass_their_arguments_on() {
    let emu = emulator();
    assert_eq!(
        emu.mem_map(0x0100_0000, 0x1000, 7).call,
        StatusCall::Mmap { handle: HANDLE, addr: 0x0100_0000, size: 0x1000, prot: 7 }
    );
    assert_eq!(
        emu.mem_map(1, 2, u32::MAX).call,
        StatusCall::Mmap { handle: HANDLE, addr: 1, size: 2, prot: -1 }
    );
    assert_eq!(
        emu.mem_map_ptr(0x10, 0x20, 0x8000_0000, 0x30).call,
        StatusCall::MemMapPtr { handle: HANDLE, addr: 0x10, size: 0x20, prot: i32::MIN, ptr: 0x30 }
    );
    assert_eq!(
        emu.mem_protect(0x10, 0x20, 0x7fff_ffff).call,
        StatusCall::MemProtect { handle: HANDLE, addr: 0x10, size: 0x20, prot: i32::MAX }
    );
    assert_eq!(
        emu.mem_unmap(0x10, 0x20).call,
        StatusCall::Munmap { handle: HANDLE, addr: 0x10, size: 0x20 }
    );
}

#[test]
fn registers_are_addressed_one_by_one() {
    let emu = emulator();
    assert_eq!(emu.reg_read(5), Read64Call::Reg { handle: HANDLE, index: 5 });
    assert_eq!(emu.reg_read_lr(), emu.reg_read(30));
    assert_eq!(emu.reg_write_lr(9).call, emu.reg_write_raw(30, 9).call);
    assert_eq!(
        emu.reg_write_raw(0, 1).call,
        StatusCall::RegWrite { handle: HANDLE, index: 0, value: 1 }
    );
    assert_eq!(emu.reg_read_nzcv(), Read64Call::RegNzcv { handle: HANDLE });
    assert_eq!(emu.reg_read_sp(), Read64Call::RegSp { handle: HANDLE });
    assert_eq!(emu.reg_read_pc(), Read64Call::RegPc { handle: HANDLE });
    assert_eq!(emu.reg_read_tpidr_el0(), Read64Call::RegTpidrEl0 { handle: HANDLE });
    assert_eq!(emu.reg_read_tpidrr0_el0(), Read64Call::RegTpidrr0El0 { handle: HANDLE });
    assert_ne!(emu.reg_read_tpidr_el0(), emu.reg_read_tpidrr0_el0());
    assert_eq!(
        emu.reg_write_tpidrr0_el0(8),
        Command::RegWriteTpidrr0El0 { handle: HANDLE, value: 8 }
    );
    assert_eq!(
        emu.reg_write_tpidr_el0(8).call,
        StatusCall::RegWriteTpidrEl0 { handle: HANDLE, value: 8 }
    );
    assert_eq!(emu.reg_write_pc(1).call, StatusCall::RegWritePc { handle: HANDLE, value: 1 });
    assert_eq!(emu.reg_write_sp(2).call, StatusCall::RegWriteSp { handle: HANDLE, value: 2 });
    assert_eq!(emu.reg_write_nzcv(3).call, StatusCall::RegWriteNzcv { handle: HANDLE, value: 3 });
    assert_eq!(
        emu.reg_write_r(1, 2).call,
        StatusCall::RegWriteR { handle: HANDLE, index: 1, value: 2 }
    );
    assert_eq!(emu.reg_write_cpsr(2).call, StatusCall::RegWriteCpsr { handle: HANDLE, value: 2 });
    assert_eq!(
        emu.reg_write_c13_c0_3(2).call,
        StatusCall::RegWriteC13C03 { handle: HANDLE, value: 2 }
    );
    assert_eq!(emu.reg_read_r(4), Read32Call::RegR { handle: HANDLE, index: 4 });
    assert_eq!(emu.reg_read_cpsr(), Read32Call::RegCpsr { handle: HANDLE });
    assert_eq!(emu.reg_read_c13_c0_3(), Read32Call::RegC13C03 { handle: HANDLE });
}

#[test]
fn caches_and_ticks_are_asked_for() {
    let emu = emulator();
    assert_eq!(emu.emu_ticks_remaining(), Read64Call::EmuTicksRemaining { handle: HANDLE });
    assert_eq!(emu.get_cache_size(), Read64Call::CacheSize { handle: HANDLE });
    assert_eq!(emu.get_cache_capacity(), Read64Call::CacheCapacity { handle: HANDLE });
    assert_eq!(
        emu.get_cache_evacuation_count(),
        Read64Call::CacheEvacuationCount { handle: HANDLE }
    );
    assert_eq!(emu.clear_cache(), Command::ClearCache { handle: HANDLE });
    assert_eq!(
        emu.invalidate_cache_range(4, 8),
        Command::InvalidateCacheRange { handle: HANDLE, address: 4, size: 8 }
    );
}

#[test]
fn contexts_keep_to_their_kind() {
    let emu = emulator();
    let c64 = DynarmicContextInner { inner_context: 0x50 };
    let c32 = DynarmicContext32Inner { inner_context: 0x60 };
    assert_eq!(emu.context_alloc(), AddressCall::ContextAlloc);
    assert_eq!(emu.context32_alloc(), AddressCall::Context32Alloc);
    assert_eq!(
        emu.context_save(&c64).call,
        StatusCall::ContextSave { handle: HANDLE, context: 0x50 }
    );
    assert_eq!(
        emu.context_restore(&c64).call,
        StatusCall::ContextRestore { handle: HANDLE, context: 0x50 }
    );
    assert_eq!(
        emu.context32_save(&c32).call,
        StatusCall::Context32Save { handle: HANDLE, context: 0x60 }
    );
    assert_eq!(
        emu.context32_restore(&c32).call,
        StatusCall::Context32Restore { handle: HANDLE, context: 0x60 }
    );
    assert_eq!(c64.destroy(), Command::ContextFree { context: 0x50 });
    assert_eq!(c32.destroy(), Command::Context32Free { context: 0x60 });
}

#[test]
fn memory_is_transferred_through_buffers() {
    let emu = emulator();
    assert_eq!(emu.mem_read(1, 2).call, ReadCall { handle: HANDLE, addr: 1, size: 2 });
    let write = emu.mem_write(3, &[9, 8, 7, 6]);
    assert_eq!(write.operation, Operation::WriteMemory);
    assert_eq!(write.call.handle, HANDLE);
    assert_eq!(write.call.addr, 3);
    assert_eq!(write.call.bytes, &[9, 8, 7, 6]);
    assert_eq!(write.complete(0), Ok(()));
    let (mut buf, attempt) = emu.mem_read_as_vec(5, 3);
    assert_eq!(buf, vec![0, 0, 0]);
    assert_eq!(attempt.call, ReadCall { handle: HANDLE, addr: 5, size: 3 });
    buf[1] = 9;
    assert_eq!(attempt.complete_with(0, buf.clone()), Ok(vec![0, 9, 0]));
    assert_eq!(
        attempt.complete_with(2, buf),
        Err(EngineError { operation: Operation::ReadMemory, code: 2 })
    );
}

fn read_string(mut reader: CStringReader, memory: &[u8], base: u64) -> CStringStep {
    loop {
        let attempt = reader.request();
        assert_eq!(attempt.operation, Operation::ReadMemory);
        assert_eq!(attempt.call.handle, HANDLE);
        assert_eq!(attempt.call.size, 1);
        let offset = (attempt.call.addr - base) as usize;
        let (code, byte) = match memory.get(offset) {
            Some(byte) => (0, *byte),
            None => (6, 0),
        };
        match reader.advance(code, byte) {
            CStringStep::Continue(next) => reader = next,
            end => return end,
        }
    }
}

#[test]
fn strings_are_read_up_to_the_zero() {
    let emu = emulator();
    let memory = b"abc\0def\0";
    match read_string(emu.mem_read_c_string(0x1000), memory, 0x1000) {
        CStringStep::Done(bytes) => {
            assert_eq!(bytes, b"abc".to_vec());
            assert_eq!(utf8(&bytes), Some(String::from("abc")));
        }
        _ => panic!("no end"),
    }
    match read_string(emu.mem_read_c_string(0x1003), memory, 0x1000) {
        CStringStep::Done(bytes) => assert!(bytes.is_empty()),
        _ => panic!("no end"),
    }
    match read_string(emu.mem_read_c_string(0x1004), memory, 0x1000) {
        CStringStep::Done(bytes) => assert_eq!(bytes, b"def".to_vec()),
        _ => panic!("no end"),
    }
}

#[test]
fn unreadable_strings_fail() {
    let emu = emulator();
    match read_string(emu.mem_read_c_string(0x1000), b"ab", 0x1000) {
        CStringStep::Failed(error) => {
            assert_eq!(error.message(), "Failed to read memory: code=6");
        }
        _ => panic!("no failure"),
    }
}

#[test]
fn strings_end_at_the_last_address() {
    let emu = emulator();
    let base = u64::MAX - 1;
    assert!(matches!(
        read_string(emu.mem_read_c_string(base), b"ab", base),
        CStringStep::PastLastAddress
    ));
    assert!(matches!(
        read_string(emu.mem_read_c_string(base), b"a\0", base),
        CStringStep::Done(_)
    ));
}

fn utf8(bytes: &[u8]) -> Option<String> {
    match c_string_text(bytes.to_vec()) {
        GuestText::Utf8(text) => Some(text),
        GuestText::Raw(kept) => {
            assert_eq!(kept, bytes.to_vec());
            None
        }
    }
}

#[test]
fn guest_text_keeps_its_bytes() {
    let text = "gr\u{fc}n \u{1f600}";
    assert_eq!(utf8(text.as_bytes()), Some(String::from(text)));
    assert_eq!(utf8(b""), Some(String::new()));
    assert_eq!(utf8(b"\xff"), None);
    assert_eq!(utf8(b"ok\xc0\x80"), None);
    assert_eq!(utf8(b"\xed\xa0\x80"), None);
}

#[test]
fn hooks_are_replaced_before_they_are_released() {
    let mut emu = emulator();
    assert_eq!(
        emu.set_svc_callback(0xa0),
        HookChange {
            command: Command::SetSvcCallback {
                handle: HANDLE,
                target: HookTarget::User { user_data: 0xa0 },
            },
            release: None,
        }
    );
    assert_eq!(emu.set_svc_callback(0xb0).release, Some(0xa0));
    assert_eq!(
        emu.set_unmapped_mem_callback(0xc0),
        HookChange {
            command: Command::SetUnmappedMemCallback {
                handle: HANDLE,
                target: HookTarget::User { user_data: 0xc0 },
            },
            release: None,
        }
    );
    assert_eq!(emu.set_unmapped_mem_callback(0xd0).release, Some(0xc0));
    let (svc, unmapped) = emu.destroy_callback();
    assert_eq!(
        svc,
        HookChange {
            command: Command::SetSvcCallback { handle: HANDLE, target: HookTarget::Empty },
            release: Some(0xb0),
        }
    );
    assert_eq!(
        unmapped,
        HookChange {
            command: Command::SetUnmappedMemCallback { handle: HANDLE, target: HookTarget::Empty },
            release: Some(0xd0),
        }
    );
    let (svc, unmapped) = emu.destroy_callback();
    assert_eq!(svc.release, None);
    assert_eq!(unmapped.release, None);
}

#[test]
fn hook_is_told_of_supervisor_calls() {
    let mut emu = emulator();
    emu.emu_start(0x100, 0x200);
    emu.set_svc_callback(0xa0);
    emu.set_unmapped_mem_callback(0xc0);
    emu.destroy_callback();
    emu.set_svc_callback(0xb0);
    assert_eq!(emu.on_svc(114514), SvcStep::Ignore);
    assert_eq!(
        emu.on_svc(1),
        SvcStep::ReadPc { call: Read64Call::RegPc { handle: HANDLE } }
    );
    assert_eq!(emu.svc_event(1, 0x104), SvcEvent { swi: 1, until: 0x204, pc: 0x104 });
    assert_eq!(emu.cur_handle, HANDLE);
    assert_eq!(emu.metadata.destroy(), Command::Destroy { handle: HANDLE });
}

#[test]
fn unmapped_access_is_handled_as_the_hook_answers() {
    assert!(unmapped_mem_answer(Some(true)));
    assert!(!unmapped_mem_answer(Some(false)));
    assert!(!unmapped_mem_answer(None));

    let mut emu = emulator();
    emu.set_svc_callback(0xa0);
    emu.set_unmapped_mem_callback(0xc0);
    assert_eq!(emu.metadata.svc_callback, Some(0xa0));
    let event = emu.unmapped_mem_event(0x10, 4, 0x99);
    assert_eq!(event, UnmappedMemEvent { handle: HANDLE, addr: 0x10, size: 4, value: 0x99 });
    for answer in [true, false] {
        let mut told = Vec::new();
        let handled = unmapped_mem_access(event, |e| {
            told.push(e);
            answer
        });
        assert_eq!(handled, answer);
        assert_eq!(told, vec![event]);
    }
}
