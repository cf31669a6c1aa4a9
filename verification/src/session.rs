//! The model of one attached-tool session.
//!
//! Everything a tool of this family lets a client observe through requests —
//! the emulation nesting depth, the error counter and its disable depth, the
//! per-byte addressability and validity bits of the traced address space,
//! block-description handles, heap-leak totals, registered stacks and memory
//! pools, the tool log, and the race-detection annotations delivered so far —
//! is held in a [`Session`] value.  The request functions in
//! [`crate::requests`] act on a session and promise, in their contracts,
//! exactly what the tool's documentation promises of the corresponding
//! request: the value returned and the state after the call, both under the
//! tool and when running natively (where every request is a no-op with a
//! default result).
//!
//! The session also records, as explicit `observe_*` events, those acts of
//! the traced program that the tool itself watches: memory accesses, heap
//! blocks becoming lost or staying reachable, and profiling cost.  The
//! properties of the request layer are stated and proved against these
//! events.

use vstd::prelude::*;

verus! {

/// The tool's shadow state for one byte of the traced address space.
#[derive(Clone, Copy, Debug, PartialEq, Eq, Structural, Hash)]
pub struct ShadowByte {
    /// Whether the byte may be accessed at all (the A bit).
    pub addressable: bool,
    /// One validity bit per data bit; a set bit marks the data bit undefined.
    pub vbits: u8,
    /// Whether addressing errors at this byte are reported.
    pub report: bool,
}

/// A heap block the client has described to the tool as an allocation.
#[derive(Clone, Copy, Debug, PartialEq, Eq, Structural, Hash)]
pub struct ClientBlock {
    /// First byte of the usable payload.
    pub addr: usize,
    /// Payload size in bytes.
    pub size: usize,
}

/// A custom-allocator region registered with the tool.
#[derive(Clone, Copy, Debug, PartialEq, Eq, Structural, Hash)]
pub struct Pool {
    /// The anchor address identifying the pool.
    pub addr: usize,
    /// Red-zone size surrounding each sub-allocation.
    pub redzone: usize,
    /// Whether sub-allocations start out zeroed, hence defined.
    pub zeroed: bool,
    /// Pool behaviour flags.
    pub flags: u8,
}

/// A sub-allocation inside a registered pool.
#[derive(Clone, Copy, Debug, PartialEq, Eq, Structural, Hash)]
pub struct PoolChunk {
    /// Anchor address of the owning pool.
    pub pool: usize,
    /// First byte of the chunk.
    pub addr: usize,
    /// Chunk size in bytes.
    pub size: usize,
}

/// A memory range registered with the tool as a stack.
#[derive(Clone, Copy, Debug, PartialEq, Eq, Structural, Hash)]
pub struct StackRange {
    /// Lowest addressable byte of the stack.
    pub low: usize,
    /// Highest addressable byte of the stack.
    pub high: usize,
    /// Whether the registration is still in force.
    pub active: bool,
}

/// Byte totals from the most recent leak search, one counter per verdict.
#[derive(Clone, Copy, Debug, Default, PartialEq, Eq, Structural, Hash)]
pub struct LeaksCount {
    /// Definitely or indirectly lost.
    pub leaked: usize,
    /// Possibly lost: only interior pointers were found.
    pub dubious: usize,
    /// Still reachable through live pointers.
    pub reachable: usize,
    /// Matched by a suppression rule.
    pub suppressed: usize,
}

/// One race-detection annotation delivered to the tool, with its arguments
/// as marshaled.
#[derive(Clone, Copy, Debug, PartialEq, Eq, Structural, Hash)]
pub enum AnnotationEvent {
    /// A happens-before edge source at the given synchronisation address.
    HappensBefore(usize),
    /// A happens-before edge sink at the given synchronisation address.
    HappensAfter(usize),
    /// Forget all happens-before edges through the given address.
    HappensBeforeForgetAll(usize),
    /// Forget everything known about the given byte range.
    CleanMemory(usize, usize),
    /// A reader-writer lock was created at the address.
    RwLockCreate(usize),
    /// The reader-writer lock at the address is about to be destroyed.
    RwLockDestroy(usize),
    /// The lock was acquired; true for a writer lock.
    RwLockAcquired(usize, bool),
    /// The lock is about to be released; true for a writer lock.
    RwLockReleased(usize, bool),
    /// Races on the given range are benign and not to be reported.
    BenignRaceSized(usize, usize),
    /// Stop ignoring races on the given range.
    StopIgnoringVar(usize, usize),
    /// Trace all accesses to the given range.
    TraceVar(usize, usize),
    /// Stop tracing accesses to the given range.
    StopTracingVar(usize, usize),
    /// Ignore (true) or again heed (false) loads by this thread.
    IgnoreReads(bool),
    /// Ignore (true) or again heed (false) stores by this thread.
    IgnoreWrites(bool),
    /// The given range was freshly allocated.
    NewMemory(usize, usize),
    /// Request an access-count histogram for the block at the address.
    HistogramMemory(usize),
}

/// The shadow space `m` with every traced byte of `[addr, addr + len)`
/// re-marked: addressability and validity bits set as given, the report flag
/// kept.  Bytes outside the traced space stay as they are.
pub open spec fn mem_marked(
    m: Seq<ShadowByte>,
    addr: int,
    len: int,
    addressable: bool,
    vbits: u8,
) -> Seq<ShadowByte> {
    Seq::new(
        m.len(),
        |j: int|
            if addr <= j < addr + len {
                ShadowByte { addressable, vbits, report: m[j].report }
            } else {
                m[j]
            },
    )
}

/// The shadow space `m` with every already addressable byte of
/// `[addr, addr + len)` made defined; all other bytes stay as they are.
pub open spec fn mem_defined_where_addressable(m: Seq<ShadowByte>, addr: int, len: int) -> Seq<
    ShadowByte,
> {
    Seq::new(
        m.len(),
        |j: int|
            if addr <= j < addr + len && m[j].addressable {
                ShadowByte { vbits: 0, ..m[j] }
            } else {
                m[j]
            },
    )
}

/// The shadow space `m` with the report flag of every traced byte of
/// `[addr, addr + len)` set as given; everything else stays.
pub open spec fn mem_report_marked(m: Seq<ShadowByte>, addr: int, len: int, report: bool) -> Seq<
    ShadowByte,
> {
    Seq::new(
        m.len(),
        |j: int|
            if addr <= j < addr + len {
                ShadowByte { report, ..m[j] }
            } else {
                m[j]
            },
    )
}

/// The shadow space `m` with the validity bits of the traced bytes of
/// `[addr, addr + bits.len())` overwritten by `bits`, byte for byte.
pub open spec fn mem_vbits_written(m: Seq<ShadowByte>, addr: int, bits: Seq<u8>) -> Seq<
    ShadowByte,
> {
    Seq::new(
        m.len(),
        |j: int|
            if addr <= j < addr + bits.len() {
                ShadowByte { vbits: bits[j - addr], ..m[j] }
            } else {
                m[j]
            },
    )
}

/// Whether the byte at `j` lies in the traced space and is addressable.
pub open spec fn byte_addressable(m: Seq<ShadowByte>, j: int) -> bool {
    0 <= j < m.len() && m[j].addressable
}

/// Whether the byte at `j` is addressable and fully defined.
pub open spec fn byte_defined(m: Seq<ShadowByte>, j: int) -> bool {
    byte_addressable(m, j) && m[j].vbits == 0
}

/// Whether every byte of `[addr, addr + len)` lies in the traced space and
/// is addressable.
pub open spec fn range_addressable(m: Seq<ShadowByte>, addr: int, len: int) -> bool {
    forall|j: int| addr <= j < addr + len ==> #[trigger] byte_addressable(m, j)
}

/// Whether every byte of `[addr, addr + len)` is addressable and fully
/// defined.
pub open spec fn range_defined(m: Seq<ShadowByte>, addr: int, len: int) -> bool {
    forall|j: int| addr <= j < addr + len ==> #[trigger] byte_defined(m, j)
}

/// The validity bits of the `len` bytes starting at `addr`, in order.
pub open spec fn range_vbits(m: Seq<ShadowByte>, addr: int, len: nat) -> Seq<u8> {
    Seq::new(len, |i: int| m[addr + i].vbits)
}

/// The session after the tool has run one leak search: the current byte
/// and block totals per verdict are recorded as the search's findings.
pub open spec fn after_leak_search(v: SessionView) -> SessionView {
    SessionView {
        found: LeaksCount {
            leaked: v.lost_bytes,
            dubious: v.dubious_bytes,
            reachable: v.reachable_bytes,
            suppressed: v.suppressed_bytes,
        },
        found_blocks: LeaksCount {
            leaked: v.lost_blocks,
            dubious: v.dubious_blocks,
            reachable: v.reachable_blocks,
            suppressed: v.suppressed_blocks,
        },
        ..v
    }
}

/// The session after one more heap block of `bytes` bytes became
/// definitely lost.
pub open spec fn after_lost_block(v: SessionView, bytes: usize) -> SessionView {
    SessionView {
        lost_bytes: (v.lost_bytes + bytes) as usize,
        lost_blocks: (v.lost_blocks + 1) as usize,
        ..v
    }
}

/// The observable state of one attached-tool session, as ghost data.
pub ghost struct SessionView {
    /// Tool version, encoded `major * 100 + minor`.
    pub version: u32,
    /// Emulation nesting depth; zero means running natively.
    pub layers: usize,
    /// The tool's identifier for the current thread.
    pub thread_id: usize,
    /// The race detector's own identifier for the current thread.
    pub drd_thread_id: usize,
    /// Errors found and reported so far.
    pub errors: usize,
    /// Error-reporting disable depth for this thread.
    pub disabled: usize,
    /// Open scoped-guard count, newest guard innermost.
    pub scopes: usize,
    /// Shadow state of the traced address space, one entry per byte.
    pub mem: Seq<ShadowByte>,
    /// Block-description slots; a used slot holds its description.
    pub blocks: Seq<Option<String>>,
    /// Stack registrations, indexed by the identifier handed out.
    pub stacks: Seq<StackRange>,
    /// Registered memory pools.
    pub pools: Seq<Pool>,
    /// Live sub-allocations of the registered pools.
    pub chunks: Seq<PoolChunk>,
    /// Heap blocks described to the tool as allocations.
    pub client_blocks: Seq<ClientBlock>,
    /// Bytes currently definitely lost.
    pub lost_bytes: usize,
    /// Blocks currently definitely lost.
    pub lost_blocks: usize,
    /// Bytes currently possibly lost.
    pub dubious_bytes: usize,
    /// Blocks currently possibly lost.
    pub dubious_blocks: usize,
    /// Bytes currently still reachable.
    pub reachable_bytes: usize,
    /// Blocks currently still reachable.
    pub reachable_blocks: usize,
    /// Bytes currently suppressed.
    pub suppressed_bytes: usize,
    /// Blocks currently suppressed.
    pub suppressed_blocks: usize,
    /// Byte totals recorded by the most recent leak search.
    pub found: LeaksCount,
    /// Block totals recorded by the most recent leak search.
    pub found_blocks: LeaksCount,
    /// Monitor commands the attached tool recognises.
    pub commands: Seq<String>,
    /// Messages printed to the tool log.
    pub log: Seq<String>,
    /// How many log messages carried a stack trace.
    pub backtraces: usize,
    /// Dynamic command-line option changes delivered to the tool.
    pub clo: Seq<String>,
    /// Race-detection annotations delivered, in order.
    pub annotations: Seq<AnnotationEvent>,
    /// The thread name announced to the race detector, if any.
    pub thread_name: Option<String>,
    /// Whether the call-graph profiler is collecting events.
    pub cl_collecting: bool,
    /// Whether the call-graph profiler instruments at all.
    pub cl_instrumenting: bool,
    /// Cost collected by the call-graph profiler since the last zeroing.
    pub cl_cost: usize,
    /// Profile dumps taken, each with its optional reason.
    pub cl_dumps: Seq<Option<String>>,
    /// Whether the cache simulator instruments at all.
    pub cg_instrumenting: bool,
    /// Ad-hoc heap-profiler events seen.
    pub dhat_events: usize,
    /// Total weight of the ad-hoc events seen.
    pub dhat_units: usize,
}

impl SessionView {
    /// Whether the session runs under the tool at all.
    pub open spec fn under_tool(self) -> bool {
        self.layers > 0
    }

    /// Whether the byte at `addr` may be accessed.  Bytes outside the traced
    /// space are never addressable.
    pub open spec fn addressable(self, addr: int) -> bool {
        byte_addressable(self.mem, addr)
    }

    /// Whether an addressing error at `addr` would be reported: reporting is
    /// not disabled for the thread, nor for the byte's range.
    pub open spec fn reports_addr_errors(self, addr: int) -> bool {
        self.disabled == 0 && (0 <= addr < self.mem.len() ==> self.mem[addr].report)
    }

    /// Whether errors without an address are currently reported.
    pub open spec fn counts_errors(self) -> bool {
        self.disabled == 0
    }

    /// The shadow state every byte starts out with: addressable, defined,
    /// and with addressing errors reported.
    pub open spec fn initial_byte() -> ShadowByte {
        ShadowByte { addressable: true, vbits: 0, report: true }
    }

    /// The state of a fresh session: nothing observed, nothing registered.
    pub open spec fn initial(version: u32, layers: usize, mem_size: nat) -> SessionView {
        SessionView {
            version,
            layers,
            thread_id: 0,
            drd_thread_id: 0,
            errors: 0,
            disabled: 0,
            scopes: 0,
            mem: Seq::new(mem_size, |i: int| SessionView::initial_byte()),
            blocks: Seq::empty(),
            stacks: Seq::empty(),
            pools: Seq::empty(),
            chunks: Seq::empty(),
            client_blocks: Seq::empty(),
            lost_bytes: 0,
            lost_blocks: 0,
            dubious_bytes: 0,
            dubious_blocks: 0,
            reachable_bytes: 0,
            reachable_blocks: 0,
            suppressed_bytes: 0,
            suppressed_blocks: 0,
            found: LeaksCount { leaked: 0, dubious: 0, reachable: 0, suppressed: 0 },
            found_blocks: LeaksCount { leaked: 0, dubious: 0, reachable: 0, suppressed: 0 },
            commands: Seq::empty(),
            log: Seq::empty(),
            backtraces: 0,
            clo: Seq::empty(),
            annotations: Seq::empty(),
            thread_name: None,
            cl_collecting: true,
            cl_instrumenting: true,
            cl_cost: 0,
            cl_dumps: Seq::empty(),
            cg_instrumenting: true,
            dhat_events: 0,
            dhat_units: 0,
        }
    }
}

/// One attached-tool session.  See the module documentation.
#[derive(Debug)]
pub struct Session {
    pub version: u32,
    pub layers: usize,
    pub thread_id: usize,
    pub drd_thread_id: usize,
    pub errors: usize,
    pub disabled: usize,
    pub scopes: usize,
    pub mem: Vec<ShadowByte>,
    pub blocks: Vec<Option<String>>,
    pub stacks: Vec<StackRange>,
    pub pools: Vec<Pool>,
    pub chunks: Vec<PoolChunk>,
    pub client_blocks: Vec<ClientBlock>,
    pub lost_bytes: usize,
    pub lost_blocks: usize,
    pub dubious_bytes: usize,
    pub dubious_blocks: usize,
    pub reachable_bytes: usize,
    pub reachable_blocks: usize,
    pub suppressed_bytes: usize,
    pub suppressed_blocks: usize,
    pub found: LeaksCount,
    pub found_blocks: LeaksCount,
    pub commands: Vec<String>,
    pub log: Vec<String>,
    pub backtraces: usize,
    pub clo: Vec<String>,
    pub annotations: Vec<AnnotationEvent>,
    pub thread_name: Option<String>,
    pub cl_collecting: bool,
    pub cl_instrumenting: bool,
    pub cl_cost: usize,
    pub cl_dumps: Vec<Option<String>>,
    pub cg_instrumenting: bool,
    pub dhat_events: usize,
    pub dhat_units: usize,
}

impl View for Session {
    type V = SessionView;

    open spec fn view(&self) -> SessionView {
        SessionView {
            version: self.version,
            layers: self.layers,
            thread_id: self.thread_id,
            drd_thread_id: self.drd_thread_id,
            errors: self.errors,
            disabled: self.disabled,
            scopes: self.scopes,
            mem: self.mem@,
            blocks: self.blocks@,
            stacks: self.stacks@,
            pools: self.pools@,
            chunks: self.chunks@,
            client_blocks: self.client_blocks@,
            lost_bytes: self.lost_bytes,
            lost_blocks: self.lost_blocks,
            dubious_bytes: self.dubious_bytes,
            dubious_blocks: self.dubious_blocks,
            reachable_bytes: self.reachable_bytes,
            reachable_blocks: self.reachable_blocks,
            suppressed_bytes: self.suppressed_bytes,
            suppressed_blocks: self.suppressed_blocks,
            found: self.found,
            found_blocks: self.found_blocks,
            commands: self.commands@,
            log: self.log@,
            backtraces: self.backtraces,
            clo: self.clo@,
            annotations: self.annotations@,
            thread_name: self.thread_name,
            cl_collecting: self.cl_collecting,
            cl_instrumenting: self.cl_instrumenting,
            cl_cost: self.cl_cost,
            cl_dumps: self.cl_dumps@,
            cg_instrumenting: self.cg_instrumenting,
            dhat_events: self.dhat_events,
            dhat_units: self.dhat_units,
        }
    }
}

impl Session {
    /// Opens a session on a tool reporting version `major.minor`, at
    /// emulation depth `layers` (zero for a native run), tracing an address
    /// space of `mem_size` bytes that starts addressable and defined.
    pub fn new(major: u32, minor: u32, layers: usize, mem_size: usize) -> (s: Session)
        requires
            major * 100 + minor <= u32::MAX,
        ensures
            s@ == SessionView::initial((major * 100 + minor) as u32, layers, mem_size as nat),
    {
        let mut mem: Vec<ShadowByte> = Vec::new();
        let mut i: usize = 0;
        while i < mem_size
            invariant
                i <= mem_size,
                mem@.len() == i,
                forall|j: int| 0 <= j < i ==> mem@[j] == SessionView::initial_byte(),
            decreases mem_size - i,
        {
            mem.push(ShadowByte { addressable: true, vbits: 0, report: true });
            i += 1;
        }
        proof {
            assert(mem@ =~= Seq::new(mem_size as nat, |j: int| SessionView::initial_byte()));
        }
        let s = Session {
            version: major * 100 + minor,
            layers,
            thread_id: 0,
            drd_thread_id: 0,
            errors: 0,
            disabled: 0,
            scopes: 0,
            mem,
            blocks: Vec::new(),
            stacks: Vec::new(),
            pools: Vec::new(),
            chunks: Vec::new(),
            client_blocks: Vec::new(),
            lost_bytes: 0,
            lost_blocks: 0,
            dubious_bytes: 0,
            dubious_blocks: 0,
            reachable_bytes: 0,
            reachable_blocks: 0,
            suppressed_bytes: 0,
            suppressed_blocks: 0,
            found: LeaksCount { leaked: 0, dubious: 0, reachable: 0, suppressed: 0 },
            found_blocks: LeaksCount { leaked: 0, dubious: 0, reachable: 0, suppressed: 0 },
            commands: Vec::new(),
            log: Vec::new(),
            backtraces: 0,
            clo: Vec::new(),
            annotations: Vec::new(),
            thread_name: None,
            cl_collecting: true,
            cl_instrumenting: true,
            cl_cost: 0,
            cl_dumps: Vec::new(),
            cg_instrumenting: true,
            dhat_events: 0,
            dhat_units: 0,
        };
        proof {
            assert(s@ =~= SessionView::initial((major * 100 + minor) as u32, layers, mem_size as nat));
        }
        s
    }

    /// Sets the tool's identifier for the current thread.
    pub fn set_thread_id(&mut self, tid: usize)
        ensures
            final(self)@ == (SessionView { thread_id: tid, ..old(self)@ }),
    {
        self.thread_id = tid;
    }

    /// Sets the race detector's own identifier for the current thread.
    pub fn set_drd_thread_id(&mut self, tid: usize)
        ensures
            final(self)@ == (SessionView { drd_thread_id: tid, ..old(self)@ }),
    {
        self.drd_thread_id = tid;
    }

    /// Teaches the attached tool one more monitor command.
    pub fn add_monitor_command(&mut self, cmd: String)
        ensures
            final(self)@ == (SessionView { commands: old(self)@.commands.push(cmd), ..old(self)@ }),
    {
        self.commands.push(cmd);
    }

    /// The tool version of this session, encoded `major * 100 + minor`.
    pub fn version(&self) -> (v: u32)
        ensures
            v == self@.version,
    {
        self.version
    }

    /// The number of bytes of traced address space this session models.
    pub fn mem_size(&self) -> (n: usize)
        ensures
            n == self@.mem.len(),
    {
        self.mem.len()
    }

    /// Prints a message to the tool log; a no-op when running natively.
    pub fn print(&mut self, msg: String)
        ensures
            final(self)@ == (if old(self)@.under_tool() {
                SessionView { log: old(self)@.log.push(msg), ..old(self)@ }
            } else {
                old(self)@
            }),
    {
        if self.layers > 0 {
            self.log.push(msg);
        }
    }

    /// Prints a message to the tool log with the current stack trace
    /// attached; a no-op when running natively.  The trace itself is the
    /// tool's to render and is not part of the model.
    pub fn print_backtrace(&mut self, msg: String)
        requires
            old(self)@.backtraces < usize::MAX,
        ensures
            final(self)@ == (if old(self)@.under_tool() {
                SessionView {
                    log: old(self)@.log.push(msg),
                    backtraces: (old(self)@.backtraces + 1) as usize,
                    ..old(self)@
                }
            } else {
                old(self)@
            }),
    {
        if self.layers > 0 {
            self.log.push(msg);
            self.backtraces = self.backtraces + 1;
        }
    }

    /// How many messages stand in the tool log.
    pub fn log_len(&self) -> (n: usize)
        ensures
            n == self@.log.len(),
    {
        self.log.len()
    }

    /// The `i`-th message of the tool log.
    pub fn log_line(&self, i: usize) -> (line: &String)
        requires
            i < self@.log.len(),
        ensures
            line == self@.log[i as int],
    {
        &self.log[i]
    }

    /// How many of the logged messages carried a stack trace.
    pub fn backtrace_count(&self) -> (n: usize)
        ensures
            n == self@.backtraces,
    {
        self.backtraces
    }

    /// How many dynamic option changes have been delivered.
    pub fn clo_len(&self) -> (n: usize)
        ensures
            n == self@.clo.len(),
    {
        self.clo.len()
    }

    /// The `i`-th dynamic option change delivered.
    pub fn clo_line(&self, i: usize) -> (line: &String)
        requires
            i < self@.clo.len(),
        ensures
            line == self@.clo[i as int],
    {
        &self.clo[i]
    }

    /// The error-reporting disablement depth of the current thread.
    pub fn disabled_depth(&self) -> (d: usize)
        ensures
            d == self@.disabled,
    {
        self.disabled
    }

    /// How many scoped guards are currently open.
    pub fn open_scopes(&self) -> (n: usize)
        ensures
            n == self@.scopes,
    {
        self.scopes
    }

    /// The cost the call-graph profiler has collected since it was last
    /// zeroed.
    pub fn collected_cost(&self) -> (c: usize)
        ensures
            c == self@.cl_cost,
    {
        self.cl_cost
    }

    /// Whether the call-graph profiler is collecting events.
    pub fn is_collecting(&self) -> (b: bool)
        ensures
            b == self@.cl_collecting,
    {
        self.cl_collecting
    }

    /// Whether the call-graph profiler instruments at all.
    pub fn is_instrumenting(&self) -> (b: bool)
        ensures
            b == self@.cl_instrumenting,
    {
        self.cl_instrumenting
    }

    /// Whether the cache simulator instruments at all.
    pub fn is_cache_instrumenting(&self) -> (b: bool)
        ensures
            b == self@.cg_instrumenting,
    {
        self.cg_instrumenting
    }

    /// How many profile dumps have been taken.
    pub fn dump_count(&self) -> (n: usize)
        ensures
            n == self@.cl_dumps.len(),
    {
        self.cl_dumps.len()
    }

    /// The reason given with the `i`-th profile dump, if any.
    pub fn dump_reason(&self, i: usize) -> (reason: &Option<String>)
        requires
            i < self@.cl_dumps.len(),
        ensures
            reason == self@.cl_dumps[i as int],
    {
        &self.cl_dumps[i]
    }

    /// How many ad-hoc heap-profiler events have been seen.
    pub fn ad_hoc_events(&self) -> (n: usize)
        ensures
            n == self@.dhat_events,
    {
        self.dhat_events
    }

    /// The total weight of the ad-hoc events seen.
    pub fn ad_hoc_units(&self) -> (n: usize)
        ensures
            n == self@.dhat_units,
    {
        self.dhat_units
    }

    /// How many race-detection annotations have been delivered.
    pub fn annotations_len(&self) -> (n: usize)
        ensures
            n == self@.annotations.len(),
    {
        self.annotations.len()
    }

    /// The `i`-th race-detection annotation delivered.
    pub fn annotation(&self, i: usize) -> (a: AnnotationEvent)
        requires
            i < self@.annotations.len(),
        ensures
            a == self@.annotations[i as int],
    {
        self.annotations[i]
    }

    /// The tool watches the traced program store one byte at `addr`.  An
    /// inaccessible target is an addressing error, reported unless reporting
    /// is disabled for the thread or for the byte; the store itself still
    /// takes place, and a successful store makes its target defined.
    pub fn observe_store(&mut self, addr: usize)
        requires
            old(self)@.errors < usize::MAX,
        ensures
            final(self)@ == (SessionView {
                errors: if old(self)@.under_tool() && !old(self)@.addressable(addr as int)
                        && old(self)@.reports_addr_errors(addr as int) {
                    (old(self)@.errors + 1) as usize
                } else {
                    old(self)@.errors
                },
                mem: if old(self)@.under_tool() && old(self)@.addressable(addr as int) {
                    old(self)@.mem.update(addr as int, (ShadowByte {
                        vbits: 0,
                        ..old(self)@.mem[addr as int]
                    }))
                } else {
                    old(self)@.mem
                },
                ..old(self)@
            }),
    {
        if self.layers > 0 {
            if addr < self.mem.len() && self.mem[addr].addressable {
                let b = self.mem[addr];
                self.mem[addr] = ShadowByte { vbits: 0, ..b };
            } else if self.disabled == 0 && (addr >= self.mem.len() || self.mem[addr].report) {
                self.errors = self.errors + 1;
            }
        }
    }

    /// The tool watches the traced program load one byte from `addr`.  An
    /// inaccessible source is an addressing error, reported unless reporting
    /// is disabled for the thread or for the byte.
    pub fn observe_read(&mut self, addr: usize)
        requires
            old(self)@.errors < usize::MAX,
        ensures
            final(self)@ == (SessionView {
                errors: if old(self)@.under_tool() && !old(self)@.addressable(addr as int)
                        && old(self)@.reports_addr_errors(addr as int) {
                    (old(self)@.errors + 1) as usize
                } else {
                    old(self)@.errors
                },
                ..old(self)@
            }),
    {
        if self.layers > 0 {
            if !(addr < self.mem.len() && self.mem[addr].addressable) {
                if self.disabled == 0 && (addr >= self.mem.len() || self.mem[addr].report) {
                    self.errors = self.errors + 1;
                }
            }
        }
    }

    /// The tool's leak scan would find one more heap block of `bytes` bytes
    /// with no pointer to it: the block is definitely lost.
    pub fn observe_lost(&mut self, bytes: usize)
        requires
            old(self)@.lost_bytes + bytes <= usize::MAX,
            old(self)@.lost_blocks < usize::MAX,
        ensures
            final(self)@ == after_lost_block(old(self)@, bytes),
    {
        self.lost_bytes = self.lost_bytes + bytes;
        self.lost_blocks = self.lost_blocks + 1;
    }

    /// The tool's leak scan would find one more block of `bytes` bytes
    /// reached only through interior pointers: possibly lost.
    pub fn observe_dubious(&mut self, bytes: usize)
        requires
            old(self)@.dubious_bytes + bytes <= usize::MAX,
            old(self)@.dubious_blocks < usize::MAX,
        ensures
            final(self)@ == (SessionView {
                dubious_bytes: (old(self)@.dubious_bytes + bytes) as usize,
                dubious_blocks: (old(self)@.dubious_blocks + 1) as usize,
                ..old(self)@
            }),
    {
        self.dubious_bytes = self.dubious_bytes + bytes;
        self.dubious_blocks = self.dubious_blocks + 1;
    }

    /// The tool's leak scan would find one more block of `bytes` bytes still
    /// reachable through a live pointer.
    pub fn observe_reachable(&mut self, bytes: usize)
        requires
            old(self)@.reachable_bytes + bytes <= usize::MAX,
            old(self)@.reachable_blocks < usize::MAX,
        ensures
            final(self)@ == (SessionView {
                reachable_bytes: (old(self)@.reachable_bytes + bytes) as usize,
                reachable_blocks: (old(self)@.reachable_blocks + 1) as usize,
                ..old(self)@
            }),
    {
        self.reachable_bytes = self.reachable_bytes + bytes;
        self.reachable_blocks = self.reachable_blocks + 1;
    }

    /// The tool's leak scan would suppress one more block of `bytes` bytes
    /// by a suppression rule.
    pub fn observe_suppressed(&mut self, bytes: usize)
        requires
            old(self)@.suppressed_bytes + bytes <= usize::MAX,
            old(self)@.suppressed_blocks < usize::MAX,
        ensures
            final(self)@ == (SessionView {
                suppressed_bytes: (old(self)@.suppressed_bytes + bytes) as usize,
                suppressed_blocks: (old(self)@.suppressed_blocks + 1) as usize,
                ..old(self)@
            }),
    {
        self.suppressed_bytes = self.suppressed_bytes + bytes;
        self.suppressed_blocks = self.suppressed_blocks + 1;
    }

    /// Re-marks the traced bytes of `[addr, addr + len)` with the given
    /// addressability and validity bits, keeping each byte's report flag.
    pub(crate) fn mark_range(&mut self, addr: usize, len: usize, addressable: bool, vbits: u8)
        ensures
            final(self)@ == (SessionView {
                mem: mem_marked(old(self)@.mem, addr as int, len as int, addressable, vbits),
                ..old(self)@
            }),
    {
        let n = self.mem.len();
        let mut i: usize = addr;
        while i < n && i - addr < len
            invariant
                addr <= i <= addr + len,
                n == self@.mem.len(),
                n == old(self)@.mem.len(),
                i <= n || i == addr,
                self@ == (SessionView { mem: self@.mem, ..old(self)@ }),
                forall|j: int|
                    0 <= j < n ==> self@.mem[j] == (if addr <= j < i {
                        ShadowByte { addressable, vbits, report: old(self)@.mem[j].report }
                    } else {
                        old(self)@.mem[j]
                    }),
            decreases n - i,
        {
            let b = self.mem[i];
            self.mem[i] = ShadowByte { addressable, vbits, report: b.report };
            i = i + 1;
        }
        proof {
            assert(self@.mem =~= mem_marked(
                old(self)@.mem,
                addr as int,
                len as int,
                addressable,
                vbits,
            ));
            assert(final(self)@ =~= (SessionView {
                mem: mem_marked(old(self)@.mem, addr as int, len as int, addressable, vbits),
                ..old(self)@
            }));
        }
    }

    /// Makes every already addressable traced byte of `[addr, addr + len)`
    /// defined.
    pub(crate) fn define_range_where_addressable(&mut self, addr: usize, len: usize)
        ensures
            final(self)@ == (SessionView {
                mem: mem_defined_where_addressable(old(self)@.mem, addr as int, len as int),
                ..old(self)@
            }),
    {
        let n = self.mem.len();
        let mut i: usize = addr;
        while i < n && i - addr < len
            invariant
                addr <= i <= addr + len,
                n == self@.mem.len(),
                n == old(self)@.mem.len(),
                self@ == (SessionView { mem: self@.mem, ..old(self)@ }),
                forall|j: int|
                    0 <= j < n ==> self@.mem[j] == (if addr <= j < i && old(self)@.mem[j].addressable {
                        ShadowByte { vbits: 0, ..old(self)@.mem[j] }
                    } else {
                        old(self)@.mem[j]
                    }),
            decreases n - i,
        {
            let b = self.mem[i];
            if b.addressable {
                self.mem[i] = ShadowByte { vbits: 0, ..b };
            }
            i = i + 1;
        }
        proof {
            assert(self@.mem =~= mem_defined_where_addressable(
                old(self)@.mem,
                addr as int,
                len as int,
            ));
            assert(final(self)@ =~= (SessionView {
                mem: mem_defined_where_addressable(old(self)@.mem, addr as int, len as int),
                ..old(self)@
            }));
        }
    }

    /// Sets the report flag of every traced byte of `[addr, addr + len)`.
    pub(crate) fn mark_report_range(&mut self, addr: usize, len: usize, report: bool)
        ensures
            final(self)@ == (SessionView {
                mem: mem_report_marked(old(self)@.mem, addr as int, len as int, report),
                ..old(self)@
            }),
    {
        let n = self.mem.len();
        let mut i: usize = addr;
        while i < n && i - addr < len
            invariant
                addr <= i <= addr + len,
                n == self@.mem.len(),
                n == old(self)@.mem.len(),
                self@ == (SessionView { mem: self@.mem, ..old(self)@ }),
                forall|j: int|
                    0 <= j < n ==> self@.mem[j] == (if addr <= j < i {
                        ShadowByte { report, ..old(self)@.mem[j] }
                    } else {
                        old(self)@.mem[j]
                    }),
            decreases n - i,
        {
            let b = self.mem[i];
            self.mem[i] = ShadowByte { report, ..b };
            i = i + 1;
        }
        proof {
            assert(self@.mem =~= mem_report_marked(
                old(self)@.mem,
                addr as int,
                len as int,
                report,
            ));
            assert(final(self)@ =~= (SessionView {
                mem: mem_report_marked(old(self)@.mem, addr as int, len as int, report),
                ..old(self)@
            }));
        }
    }

    /// Overwrites the validity bits of the traced bytes of
    /// `[addr, addr + bits.len())` with `bits`, byte for byte.
    pub(crate) fn write_vbits_range(&mut self, addr: usize, bits: &Vec<u8>)
        ensures
            final(self)@ == (SessionView {
                mem: mem_vbits_written(old(self)@.mem, addr as int, bits@),
                ..old(self)@
            }),
    {
        let n = self.mem.len();
        let len = bits.len();
        let mut i: usize = addr;
        while i < n && i - addr < len
            invariant
                addr <= i <= addr + len,
                len == bits@.len(),
                n == self@.mem.len(),
                n == old(self)@.mem.len(),
                self@ == (SessionView { mem: self@.mem, ..old(self)@ }),
                forall|j: int|
                    0 <= j < n ==> self@.mem[j] == (if addr <= j < i {
                        ShadowByte { vbits: bits@[j - addr], ..old(self)@.mem[j] }
                    } else {
                        old(self)@.mem[j]
                    }),
            decreases n - i,
        {
            let b = self.mem[i];
            self.mem[i] = ShadowByte { vbits: bits[i - addr], ..b };
            i = i + 1;
        }
        proof {
            assert(self@.mem =~= mem_vbits_written(old(self)@.mem, addr as int, bits@));
            assert(final(self)@ =~= (SessionView {
                mem: mem_vbits_written(old(self)@.mem, addr as int, bits@),
                ..old(self)@
            }));
        }
    }

    /// Reads the validity bits of the `len` bytes starting at `addr`.
    pub(crate) fn read_vbits_range(&self, addr: usize, len: usize) -> (bits: Vec<u8>)
        requires
            addr + len <= self@.mem.len(),
        ensures
            bits@ == range_vbits(self@.mem, addr as int, len as nat),
    {
        let n = self.mem.len();
        let mut bits: Vec<u8> = Vec::new();
        let mut i: usize = 0;
        while i < len
            invariant
                i <= len,
                n == self@.mem.len(),
                addr + len <= n,
                bits@.len() == i,
                forall|k: int| 0 <= k < i ==> bits@[k] == self@.mem[addr + k].vbits,
            decreases len - i,
        {
            bits.push(self.mem[addr + i].vbits);
            i = i + 1;
        }
        proof {
            assert(bits@ =~= range_vbits(self@.mem, addr as int, len as nat));
        }
        bits
    }

    /// The offset of the first byte of `[addr, addr + len)` that is not
    /// addressable, if any.
    pub(crate) fn find_unaddressable(&self, addr: usize, len: usize) -> (r: Option<usize>)
        ensures
            match r {
                None => range_addressable(self@.mem, addr as int, len as int) && (len == 0 || addr
                    + len <= self@.mem.len()),
                Some(off) => {
                    &&& off < len
                    &&& !byte_addressable(self@.mem, addr as int + off)
                    &&& range_addressable(self@.mem, addr as int, off as int)
                },
            },
    {
        let n = self.mem.len();
        let mut k: usize = 0;
        while k < len
            invariant
                k <= len,
                n == self@.mem.len(),
                range_addressable(self@.mem, addr as int, k as int),
                k == 0 || addr + k <= n,
            decreases len - k,
        {
            if addr >= n || k >= n - addr || !self.mem[addr + k].addressable {
                return Some(k);
            }
            proof {
                assert(byte_addressable(self@.mem, addr as int + k as int));
            }
            k = k + 1;
        }
        None
    }

    /// The offset of the first byte of `[addr, addr + len)` that is not both
    /// addressable and defined, if any.
    pub(crate) fn find_undefined(&self, addr: usize, len: usize) -> (r: Option<usize>)
        ensures
            match r {
                None => range_defined(self@.mem, addr as int, len as int),
                Some(off) => {
                    &&& off < len
                    &&& !byte_defined(self@.mem, addr as int + off)
                    &&& range_defined(self@.mem, addr as int, off as int)
                },
            },
    {
        let n = self.mem.len();
        let mut k: usize = 0;
        while k < len
            invariant
                k <= len,
                n == self@.mem.len(),
                range_defined(self@.mem, addr as int, k as int),
            decreases len - k,
        {
            if addr >= n || k >= n - addr || !self.mem[addr + k].addressable
                || self.mem[addr + k].vbits != 0 {
                return Some(k);
            }
            proof {
                assert(byte_defined(self@.mem, addr as int + k as int));
            }
            k = k + 1;
        }
        None
    }

    /// The traced program performs `n` units of work.  The call-graph
    /// profiler adds them to its cost centre when it is instrumenting and
    /// collecting; otherwise they pass unnoticed.
    pub fn observe_cost(&mut self, n: usize)
        requires
            old(self)@.cl_cost + n <= usize::MAX,
        ensures
            final(self)@ == (SessionView {
                cl_cost: if old(self)@.under_tool() && old(self)@.cl_instrumenting
                        && old(self)@.cl_collecting {
                    (old(self)@.cl_cost + n) as usize
                } else {
                    old(self)@.cl_cost
                },
                ..old(self)@
            }),
    {
        if self.layers > 0 && self.cl_instrumenting && self.cl_collecting {
            self.cl_cost = self.cl_cost + n;
        }
    }
}

} // verus!
