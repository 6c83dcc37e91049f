//! Making an emulator: a fixed row of requests, each with the answers to those before
//! it.

use crate::emulator::{Dynarmic, Metadata};
use crate::engine::AddressCall;
use crate::jit::{
    granted_jit_size, granted_mb, jit_size_bytes, requested_jit_size, requested_mb,
    MAX_JIT_SIZE_MB,
};
use crate::switches::text_of;
use vstd::prelude::*;

verus! {

/// The kind of emulator that is made.
#[derive(Clone, Copy, Debug, PartialEq, Eq, Structural)]
pub enum Kind {
    /// ARM64.
    A64,
    /// ARM64 with guest memory at `base + address` in the host.
    A64Fastmem { base: usize },
    /// ARM32.
    A32,
}

/// The answers so far.
#[derive(Clone, Copy, Debug, PartialEq, Eq, Structural)]
pub enum Stage {
    Memory,
    Monitor { memory: usize },
    Processor { memory: usize, monitor: usize },
    PageTable { memory: usize, monitor: usize, processor_id: u32 },
    Engine { memory: usize, monitor: usize, processor_id: u32, page_table: usize },
}

/// What is asked for next.
#[derive(Clone, Copy, Debug, PartialEq, Eq, Structural)]
pub enum Request {
    /// The answer of the engine to this request.
    Engine { call: AddressCall },
    /// The exclusive monitor that all A64 emulators share.
    SharedMonitor,
    /// The next processor id; it is answered with `supply_processor_id`.
    ProcessorId,
    /// The page table for this fastmem arena.
    FastmemPageTable { base: usize },
}

/// An emulator in the making.
pub struct Construction {
    kind: Kind,
    jit_size_mb: u64,
    stage: Stage,
}

/// What an emulator in the making stands for.
pub struct ConstructionView {
    pub kind: Kind,
    /// The size granted for the JIT code cache, in megabytes.
    pub jit_size_mb: u64,
    pub stage: Stage,
}

/// What comes after an answer.
pub enum Progress {
    /// There is more to ask for.
    Next(Construction),
    /// The emulator.
    Ready(Dynarmic),
    /// The engine has no guest memory to give.
    OutOfMemory,
}

/// What comes after an answer, over the views.
pub enum ProgressView {
    Next(ConstructionView),
    Ready(Dynarmic),
    OutOfMemory,
}

impl View for Progress {
    type V = ProgressView;

    open spec fn view(&self) -> ProgressView {
        match *self {
            Progress::Next(c) => ProgressView::Next(c@),
            Progress::Ready(emu) => ProgressView::Ready(emu),
            Progress::OutOfMemory => ProgressView::OutOfMemory,
        }
    }
}

/// An emulator with no hooks and no run behind it.
pub open spec fn fresh_emulator(
    memory: usize,
    monitor: usize,
    page_table: usize,
    handle: usize,
) -> Dynarmic {
    Dynarmic {
        cur_handle: handle,
        metadata: Metadata {
            svc_callback: None,
            unmapped_mem_callback: None,
            until: 0,
            memory,
            monitor,
            page_table,
            handle,
        },
    }
}

/// The request that makes the engine.
pub open spec fn create_call(
    kind: Kind,
    jit_size_mb: u64,
    memory: usize,
    monitor: usize,
    processor_id: u32,
    page_table: usize,
) -> AddressCall {
    let jit_size = (jit_size_mb * 0x10_0000) as u64;
    let unsafe_optimizations = true;
    match kind {
        Kind::A64 => AddressCall::New {
            processor_id,
            memory,
            monitor,
            page_table,
            jit_size,
            unsafe_optimizations,
        },
        Kind::A64Fastmem { base } => AddressCall::NewFm {
            processor_id,
            memory,
            monitor,
            page_table,
            jit_size,
            unsafe_optimizations,
            fastmem_base: base,
        },
        Kind::A32 => AddressCall::NewA32 {
            processor_id,
            memory,
            monitor,
            page_table,
            jit_size,
            unsafe_optimizations,
            fastmem_base: 0,
        },
    }
}

impl ConstructionView {
    /// The beginning: nothing is answered yet.
    pub open spec fn begun(kind: Kind, jit_value: Option<Seq<char>>) -> ConstructionView {
        ConstructionView {
            kind,
            jit_size_mb: granted_mb(requested_mb(jit_value)),
            stage: Stage::Memory,
        }
    }

    /// The same emulator in the making, at another stage.
    pub open spec fn at(self, stage: Stage) -> ConstructionView {
        ConstructionView { stage, ..self }
    }

    /// What is asked for next.
    pub open spec fn request(self) -> Request {
        match self.stage {
            Stage::Memory => Request::Engine { call: AddressCall::InitMemory },
            Stage::Monitor { .. } => match self.kind {
                Kind::A32 => Request::Engine { call: AddressCall::InitMonitor { processors: 1 } },
                _ => Request::SharedMonitor,
            },
            Stage::Processor { .. } => Request::ProcessorId,
            Stage::PageTable { .. } => match self.kind {
                Kind::A64Fastmem { base } => Request::FastmemPageTable { base },
                _ => Request::Engine { call: AddressCall::InitPageTable },
            },
            Stage::Engine { memory, monitor, processor_id, page_table } => Request::Engine {
                call: create_call(
                    self.kind,
                    self.jit_size_mb,
                    memory,
                    monitor,
                    processor_id,
                    page_table,
                ),
            },
        }
    }

    /// What comes after an address is answered.
    pub open spec fn supplied(self, address: usize) -> ProgressView {
        match self.stage {
            Stage::Memory => if address == 0 {
                ProgressView::OutOfMemory
            } else {
                ProgressView::Next(self.at(Stage::Monitor { memory: address }))
            },
            Stage::Monitor { memory } => match self.kind {
                Kind::A32 => ProgressView::Next(
                    self.at(Stage::PageTable { memory, monitor: address, processor_id: 0 }),
                ),
                _ => ProgressView::Next(self.at(Stage::Processor { memory, monitor: address })),
            },
            Stage::Processor { .. } => ProgressView::Next(self),
            Stage::PageTable { memory, monitor, processor_id } => ProgressView::Next(
                self.at(Stage::Engine { memory, monitor, processor_id, page_table: address }),
            ),
            Stage::Engine { memory, monitor, processor_id, page_table } => ProgressView::Ready(
                fresh_emulator(memory, monitor, page_table, address),
            ),
        }
    }

    /// What comes after a processor id is answered.
    pub open spec fn supplied_processor_id(self, processor_id: u32) -> ProgressView {
        match self.stage {
            Stage::Processor { memory, monitor } => ProgressView::Next(
                self.at(Stage::PageTable { memory, monitor, processor_id }),
            ),
            _ => ProgressView::Next(self),
        }
    }
}

impl View for Construction {
    type V = ConstructionView;

    closed spec fn view(&self) -> ConstructionView {
        ConstructionView {
            kind: self.kind,
            jit_size_mb: self.jit_size_mb,
            stage: self.stage,
        }
    }
}

impl Construction {
    /// The size of the JIT code cache is one that can be granted.
    #[verifier::type_invariant]
    spec fn jit_size_in_range(self) -> bool {
        self.jit_size_mb <= MAX_JIT_SIZE_MB
    }

    /// Begins the making of an emulator.
    fn begin(kind: Kind, jit_value: Option<&str>) -> (r: Construction)
        ensures
            r@ == ConstructionView::begun(kind, text_of(jit_value)),
    {
        Construction {
            kind,
            jit_size_mb: granted_jit_size(requested_jit_size(jit_value)),
            stage: Stage::Memory,
        }
    }

    /// The size granted for the JIT code cache, in megabytes.
    pub fn jit_size_mb(&self) -> (mb: u64)
        ensures
            mb == self@.jit_size_mb,
    {
        self.jit_size_mb
    }

    /// What is asked for next.
    pub fn request(&self) -> (r: Request)
        ensures
            r == self@.request(),
    {
        proof {
            use_type_invariant(self);
        }
        match self.stage {
            Stage::Memory => Request::Engine { call: AddressCall::InitMemory },
            Stage::Monitor { .. } => match self.kind {
                Kind::A32 => Request::Engine { call: AddressCall::InitMonitor { processors: 1 } },
                _ => Request::SharedMonitor,
            },
            Stage::Processor { .. } => Request::ProcessorId,
            Stage::PageTable { .. } => match self.kind {
                Kind::A64Fastmem { base } => Request::FastmemPageTable { base },
                _ => Request::Engine { call: AddressCall::InitPageTable },
            },
            Stage::Engine { memory, monitor, processor_id, page_table } => {
                let jit_size: u64 = jit_size_bytes(self.jit_size_mb);
                let unsafe_optimizations = true;
                let call = match self.kind {
                    Kind::A64 => AddressCall::New {
                        processor_id,
                        memory,
                        monitor,
                        page_table,
                        jit_size,
                        unsafe_optimizations,
                    },
                    Kind::A64Fastmem { base } => AddressCall::NewFm {
                        processor_id,
                        memory,
                        monitor,
                        page_table,
                        jit_size,
                        unsafe_optimizations,
                        fastmem_base: base,
                    },
                    Kind::A32 => AddressCall::NewA32 {
                        processor_id,
                        memory,
                        monitor,
                        page_table,
                        jit_size,
                        unsafe_optimizations,
                        fastmem_base: 0,
                    },
                };
                Request::Engine { call }
            },
        }
    }

    /// The same emulator in the making, at another stage.
    fn at(&self, stage: Stage) -> (r: Construction)
        ensures
            r@ == self@.at(stage),
    {
        proof {
            use_type_invariant(self);
        }
        Construction { kind: self.kind, jit_size_mb: self.jit_size_mb, stage }
    }

    /// Goes on with the address that was asked for.
    pub fn supply(self, address: usize) -> (r: Progress)
        requires
            self@.request() != Request::ProcessorId,
        ensures
            r@ == self@.supplied(address),
            r matches Progress::Ready(emu) ==> emu.wf(),
            r is OutOfMemory <==> self@.stage is Memory && address == 0,
            r is Ready <==> self@.stage is Engine,
            r matches Progress::Next(next) ==> {
                &&& next@.kind == self@.kind
                &&& next@.jit_size_mb == self@.jit_size_mb
            },
            r matches Progress::Ready(emu) ==> {
                &&& emu.cur_handle == address
                &&& emu.metadata.handle == address
                &&& emu.metadata.memory == self@.stage->Engine_memory
                &&& emu.metadata.monitor == self@.stage->Engine_monitor
                &&& emu.metadata.page_table == self@.stage->Engine_page_table
                &&& emu.metadata.until == 0
                &&& emu.metadata.svc_callback is None
                &&& emu.metadata.unmapped_mem_callback is None
            },
    {
        match self.stage {
            Stage::Memory => if address == 0 {
                Progress::OutOfMemory
            } else {
                Progress::Next(self.at(Stage::Monitor { memory: address }))
            },
            Stage::Monitor { memory } => match self.kind {
                Kind::A32 => Progress::Next(
                    self.at(Stage::PageTable { memory, monitor: address, processor_id: 0 }),
                ),
                _ => Progress::Next(self.at(Stage::Processor { memory, monitor: address })),
            },
            Stage::Processor { .. } => Progress::Next(self),
            Stage::PageTable { memory, monitor, processor_id } => Progress::Next(
                self.at(Stage::Engine { memory, monitor, processor_id, page_table: address }),
            ),
            Stage::Engine { memory, monitor, page_table, .. } => Progress::Ready(
                Dynarmic {
                    cur_handle: address,
                    metadata: Metadata {
                        svc_callback: None,
                        unmapped_mem_callback: None,
                        until: 0,
                        memory,
                        monitor,
                        page_table,
                        handle: address,
                    },
                },
            ),
        }
    }

    /// Goes on with the processor id that was asked for.
    pub fn supply_processor_id(self, processor_id: u32) -> (r: Progress)
        requires
            self@.request() == Request::ProcessorId,
        ensures
            r@ == self@.supplied_processor_id(processor_id),
            r matches Progress::Next(next) && {
                &&& next@.kind == self@.kind
                &&& next@.jit_size_mb == self@.jit_size_mb
                &&& next@.stage matches Stage::PageTable { memory, monitor, processor_id: id } && {
                    &&& memory == self@.stage->Processor_memory
                    &&& monitor == self@.stage->Processor_monitor
                    &&& id == processor_id
                }
            },
    {
        match self.stage {
            Stage::Processor { memory, monitor } => Progress::Next(
                self.at(Stage::PageTable { memory, monitor, processor_id }),
            ),
            _ => Progress::Next(self),
        }
    }
}

impl Dynarmic {
    /// Begins an emulator for ARM64. `jit_value` is the text of `DYNARMIC_JIT_SIZE`, if
    /// it is set: the size of the JIT code cache in megabytes, 64 by default, from 8
    /// to 512.
    pub fn new(jit_value: Option<&str>) -> (r: Construction)
        ensures
            r@ == ConstructionView::begun(Kind::A64, text_of(jit_value)),
            r@.kind == Kind::A64,
            r@.stage == Stage::Memory,
            r@.jit_size_mb == granted_mb(requested_mb(text_of(jit_value))),
    {
        Construction::begin(Kind::A64, jit_value)
    }

    /// Begins an emulator for ARM64 over a fastmem arena at `fastmem_base`, which holds
    /// the whole guest address space. `jit_value` is as for `new`.
    pub fn new_fastmem(fastmem_base: usize, jit_value: Option<&str>) -> (r: Construction)
        ensures
            r@ == ConstructionView::begun(
                Kind::A64Fastmem { base: fastmem_base },
                text_of(jit_value),
            ),
            r@.kind == (Kind::A64Fastmem { base: fastmem_base }),
            r@.stage == Stage::Memory,
            r@.jit_size_mb == granted_mb(requested_mb(text_of(jit_value))),
    {
        Construction::begin(Kind::A64Fastmem { base: fastmem_base }, jit_value)
    }

    /// Begins an emulator for ARM32. `jit_value` is as for `new`.
    pub fn new_a32(jit_value: Option<&str>) -> (r: Construction)
        ensures
            r@ == ConstructionView::begun(Kind::A32, text_of(jit_value)),
            r@.kind == Kind::A32,
            r@.stage == Stage::Memory,
            r@.jit_size_mb == granted_mb(requested_mb(text_of(jit_value))),
    {
        Construction::begin(Kind::A32, jit_value)
    }
}

/// Without guest memory nothing else is asked for.
pub proof fn law_no_memory_ends_construction(kind: Kind, jit_value: Option<Seq<char>>)
    ensures
        ConstructionView::begun(kind, jit_value).request() == (Request::Engine {
            call: AddressCall::InitMemory,
        }),
        ConstructionView::begun(kind, jit_value).supplied(0) is OutOfMemory,
{
}

/// The making of an A64 emulator, with or without an arena: memory, the shared monitor,
/// a processor id, a page table and the engine, in this order. The engine is made from
/// exactly these answers, with a JIT code cache of 8 to 512 megabytes in bytes, and the
/// emulator holds them.
pub proof fn law_a64_construction(
    kind: Kind,
    jit_value: Option<Seq<char>>,
    memory: usize,
    monitor: usize,
    processor_id: u32,
    page_table: usize,
    handle: usize,
)
    requires
        kind != Kind::A32,
        memory != 0,
    ensures
        ({
            let c0 = ConstructionView::begun(kind, jit_value);
            let c1 = c0.supplied(memory)->Next_0;
            let c2 = c1.supplied(monitor)->Next_0;
            let c3 = c2.supplied_processor_id(processor_id)->Next_0;
            let c4 = c3.supplied(page_table)->Next_0;
            let mb = granted_mb(requested_mb(jit_value));
            &&& c0.supplied(memory) is Next
            &&& c1.request() == Request::SharedMonitor
            &&& c1.supplied(monitor) is Next
            &&& c2.request() == Request::ProcessorId
            &&& c2.supplied_processor_id(processor_id) is Next
            &&& c3.request() == (match kind {
                Kind::A64Fastmem { base } => Request::FastmemPageTable { base },
                _ => Request::Engine { call: AddressCall::InitPageTable },
            })
            &&& c3.supplied(page_table) is Next
            &&& c4.request() == (Request::Engine {
                call: create_call(kind, mb, memory, monitor, processor_id, page_table),
            })
            &&& 0x80_0000 <= mb * 0x10_0000 <= 0x2000_0000
            &&& c4.supplied(handle) == ProgressView::Ready(
                fresh_emulator(memory, monitor, page_table, handle),
            )
            &&& fresh_emulator(memory, monitor, page_table, handle).wf()
        }),
{
}

/// The making of an A32 emulator: memory, a monitor of its own for one processor, a page
/// table and the engine, in this order, as processor 0 and without an arena.
pub proof fn law_a32_construction(
    jit_value: Option<Seq<char>>,
    memory: usize,
    monitor: usize,
    page_table: usize,
    handle: usize,
)
    requires
        memory != 0,
    ensures
        ({
            let c0 = ConstructionView::begun(Kind::A32, jit_value);
            let c1 = c0.supplied(memory)->Next_0;
            let c2 = c1.supplied(monitor)->Next_0;
            let c3 = c2.supplied(page_table)->Next_0;
            let mb = granted_mb(requested_mb(jit_value));
            &&& c0.supplied(memory) is Next
            &&& c1.request() == (Request::Engine {
                call: AddressCall::InitMonitor { processors: 1 },
            })
            &&& c1.supplied(monitor) is Next
            &&& c2.request() == (Request::Engine { call: AddressCall::InitPageTable })
            &&& c2.supplied(page_table) is Next
            &&& c3.request() == (Request::Engine {
                call: create_call(Kind::A32, mb, memory, monitor, 0, page_table),
            })
            &&& 0x80_0000 <= mb * 0x10_0000 <= 0x2000_0000
            &&& c3.supplied(handle) == ProgressView::Ready(
                fresh_emulator(memory, monitor, page_table, handle),
            )
        }),
{
}

/// The last request for an emulator over an arena makes the engine from what was answered:
/// the memory, the monitor, the processor id and the page table each in its own place, the
/// granted megabytes in bytes, unsafe optimizations on, and the arena at its base.
pub proof fn law_fastmem_engine_is_made_from_the_answers(
    base: usize,
    jit_value: Option<Seq<char>>,
    m: usize,
    x: usize,
    p: u32,
    t: usize,
)
    requires
        m != 0,
    ensures
        ({
            let c0 = ConstructionView::begun(Kind::A64Fastmem { base }, jit_value);
            let c1 = c0.supplied(m)->Next_0;
            let c2 = c1.supplied(x)->Next_0;
            let c3 = c2.supplied_processor_id(p)->Next_0;
            let c4 = c3.supplied(t)->Next_0;
            c4.request() matches Request::Engine {
                call: AddressCall::NewFm {
                    processor_id,
                    memory,
                    monitor,
                    page_table,
                    jit_size,
                    unsafe_optimizations,
                    fastmem_base,
                },
            } && {
                &&& processor_id == p
                &&& memory == m
                &&& monitor == x
                &&& page_table == t
                &&& jit_size == granted_mb(requested_mb(jit_value)) * 0x10_0000
                &&& unsafe_optimizations
                &&& fastmem_base == base
            }
        }),
{
}

/// The last request for an A64 emulator without an arena makes the engine from what was
/// answered, each answer in its own place.
pub proof fn law_a64_engine_is_made_from_the_answers(
    jit_value: Option<Seq<char>>,
    m: usize,
    x: usize,
    p: u32,
    t: usize,
)
    requires
        m != 0,
    ensures
        ({
            let c0 = ConstructionView::begun(Kind::A64, jit_value);
            let c1 = c0.supplied(m)->Next_0;
            let c2 = c1.supplied(x)->Next_0;
            let c3 = c2.supplied_processor_id(p)->Next_0;
            let c4 = c3.supplied(t)->Next_0;
            c4.request() matches Request::Engine {
                call: AddressCall::New {
                    processor_id,
                    memory,
                    monitor,
                    page_table,
                    jit_size,
                    unsafe_optimizations,
                },
            } && {
                &&& processor_id == p
                &&& memory == m
                &&& monitor == x
                &&& page_table == t
                &&& jit_size == granted_mb(requested_mb(jit_value)) * 0x10_0000
                &&& unsafe_optimizations
            }
        }),
{
}

/// The last request for an A32 emulator makes the engine from what was answered, each
/// answer in its own place, as processor 0 and without an arena.
pub proof fn law_a32_engine_is_made_from_the_answers(
    jit_value: Option<Seq<char>>,
    m: usize,
    x: usize,
    t: usize,
)
    requires
        m != 0,
    ensures
        ({
            let c0 = ConstructionView::begun(Kind::A32, jit_value);
            let c1 = c0.supplied(m)->Next_0;
            let c2 = c1.supplied(x)->Next_0;
            let c3 = c2.supplied(t)->Next_0;
            c3.request() matches Request::Engine {
                call: AddressCall::NewA32 {
                    processor_id,
                    memory,
                    monitor,
                    page_table,
                    jit_size,
                    unsafe_optimizations,
                    fastmem_base,
                },
            } && {
                &&& processor_id == 0
                &&& memory == m
                &&& monitor == x
                &&& page_table == t
                &&& jit_size == granted_mb(requested_mb(jit_value)) * 0x10_0000
                &&& unsafe_optimizations
                &&& fastmem_base == 0
            }
        }),
{
}

/// A new emulator holds what it was made from, drives the engine it was given, and has no
/// hook and no run behind it.
pub proof fn law_new_emulator_holds_the_answers(m: usize, x: usize, t: usize, h: usize)
    ensures
        ({
            let emu = fresh_emulator(m, x, t, h);
            &&& emu.cur_handle == h
            &&& emu.metadata.handle == h
            &&& emu.metadata.memory == m
            &&& emu.metadata.monitor == x
            &&& emu.metadata.page_table == t
            &&& emu.metadata.until == 0
            &&& emu.metadata.svc_callback is None
            &&& emu.metadata.unmapped_mem_callback is None
        }),
{
}

/// The kind and the size of the JIT code cache are settled at the beginning, and no answer
/// changes them.
pub proof fn law_answers_keep_kind_and_size(c: ConstructionView, address: usize, id: u32)
    ensures
        c.supplied(address) matches ProgressView::Next(next) ==> next.kind == c.kind
            && next.jit_size_mb == c.jit_size_mb,
        c.supplied_processor_id(id) matches ProgressView::Next(next) ==> next.kind == c.kind
            && next.jit_size_mb == c.jit_size_mb,
        c.supplied(address) is OutOfMemory <==> c.stage is Memory && address == 0,
        c.supplied(address) is Ready <==> c.stage is Engine,
{
}

} // verus!
