//! Requests understood by the tool's core: run-mode discovery, error
//! reporting, monitor commands, heap-block and memory-pool description,
//! stack registration, and runs on the real CPU.

use vstd::prelude::*;

use crate::catalog::CG_ValgrindClientRequest as CR;
use crate::requests::{Scope, ScopeGuard, Sealed};
use crate::session::{
    mem_marked, ClientBlock, Pool, PoolChunk, Session, SessionView, ShadowByte, StackRange,
};

verus! {

/// Designates the pool as a "meta-pool".  See [`create_mempool`].
pub const VALGRIND_MEMPOOL_AUTO_FREE: u8 = 1;

/// Automatically free all second-level blocks.  See [`create_mempool`].
pub const VALGRIND_MEMPOOL_METAPOOL: u8 = 2;

/// Monitor-command error: the command was not recognised.
pub type CommandNotFound = ();

/// File descriptor.
pub type RawFd = i32;

/// The tool's notion of a thread identifier.
pub type ThreadId = usize;

/// Identifier of a registered stack range, handed out by [`stack_register`].
pub type StackId = usize;

/// How the current program is being run.
#[derive(Clone, Copy, Debug, PartialEq, Eq, Structural, Hash, PartialOrd, Ord)]
pub enum RunningMode {
    /// Running on the host hardware without the tool.
    Native,
    /// Running under a single instance of the tool.
    Valgrind,
    /// Running under nested instances of the tool.
    ValgrindOnValgrind(usize),
}

/// Whether some session command among `cmds` reads as `cmd`.
pub open spec fn recognizes(cmds: Seq<String>, cmd: Seq<char>) -> bool {
    exists|i: int| 0 <= i < cmds.len() && cmds[i]@ == cmd
}

/// Whether some client block in `blocks` starts at `addr`.
pub open spec fn has_block(blocks: Seq<ClientBlock>, addr: usize) -> bool {
    exists|j: int| 0 <= j < blocks.len() && blocks[j].addr == addr
}

/// Whether `j` indexes the first client block in `blocks` starting at `addr`.
pub open spec fn is_first_block(blocks: Seq<ClientBlock>, addr: usize, j: int) -> bool {
    &&& 0 <= j < blocks.len()
    &&& blocks[j].addr == addr
    &&& forall|k: int| 0 <= k < j ==> blocks[k].addr != addr
}

/// Whether some registered pool in `pools` is anchored at `addr`.
pub open spec fn has_pool(pools: Seq<Pool>, addr: usize) -> bool {
    exists|j: int| 0 <= j < pools.len() && pools[j].addr == addr
}

/// Whether `j` indexes the first pool in `pools` anchored at `addr`.
pub open spec fn is_first_pool(pools: Seq<Pool>, addr: usize, j: int) -> bool {
    &&& 0 <= j < pools.len()
    &&& pools[j].addr == addr
    &&& forall|k: int| 0 <= k < j ==> pools[k].addr != addr
}

/// Whether some chunk in `chunks` belongs to `pool` and starts at `addr`.
pub open spec fn has_chunk(chunks: Seq<PoolChunk>, pool: usize, addr: usize) -> bool {
    exists|j: int| 0 <= j < chunks.len() && chunks[j].pool == pool && chunks[j].addr == addr
}

/// Whether `j` indexes the first chunk of `pool` in `chunks` starting at `addr`.
pub open spec fn is_first_chunk(chunks: Seq<PoolChunk>, pool: usize, addr: usize, j: int) -> bool {
    &&& 0 <= j < chunks.len()
    &&& chunks[j].pool == pool
    &&& chunks[j].addr == addr
    &&& forall|k: int| 0 <= k < j ==> !(chunks[k].pool == pool && chunks[k].addr == addr)
}

/// The shadow space after a heap block of `size` bytes at `addr` with
/// red zones of `redzone` bytes on both sides has been described to the
/// tool: the payload addressable (defined only if zeroed), the red zones
/// inaccessible.
pub open spec fn malloclike_mem(
    m: Seq<ShadowByte>,
    addr: int,
    size: int,
    redzone: int,
    is_zeroed: bool,
) -> Seq<ShadowByte> {
    mem_marked(
        mem_marked(
            mem_marked(m, addr - redzone, redzone, false, 0xFF),
            addr,
            size,
            true,
            if is_zeroed { 0 } else { 0xFF },
        ),
        addr + size,
        redzone,
        false,
        0xFF,
    )
}

/// The shadow space after the block at `addr` was resized in place from
/// `old_size` to `new_size` bytes: bytes gained are addressable and
/// undefined with the red zone pushed out, bytes lost become inaccessible.
pub open spec fn resized_mem(
    m: Seq<ShadowByte>,
    addr: int,
    old_size: int,
    new_size: int,
    redzone: int,
) -> Seq<ShadowByte> {
    if new_size > old_size {
        mem_marked(
            mem_marked(m, addr + old_size, new_size - old_size, true, 0xFF),
            addr + new_size,
            redzone,
            false,
            0xFF,
        )
    } else {
        mem_marked(m, addr + new_size, old_size - new_size, false, 0xFF)
    }
}

/// Returns how the program is being run: natively, under the tool, or under
/// nested instances of it.
pub fn running_mode(s: &Session) -> (mode: RunningMode)
    requires
        CR::CG_RUNNING_ON_VALGRIND.min_version() <= s@.version,
    ensures
        mode == (if s@.layers == 0 {
            RunningMode::Native
        } else if s@.layers == 1 {
            RunningMode::Valgrind
        } else {
            RunningMode::ValgrindOnValgrind(s@.layers)
        }),
{
    if s.layers == 0 {
        RunningMode::Native
    } else if s.layers == 1 {
        RunningMode::Valgrind
    } else {
        RunningMode::ValgrindOnValgrind(s.layers)
    }
}

/// Executes a monitor command.  Under the tool the command fails exactly
/// when the tool does not recognise it; natively the request is a no-op
/// that reads as success.  What a recognised command then does inside the
/// tool is outside this model.
pub fn monitor_command(s: &Session, cmd: &str) -> (r: Result<(), CommandNotFound>)
    requires
        CR::CG_VALGRIND_MONITOR_COMMAND.min_version() <= s@.version,
    ensures
        r == (if s@.under_tool() && !recognizes(s@.commands, cmd@) {
            Result::<(), CommandNotFound>::Err(())
        } else {
            Result::<(), CommandNotFound>::Ok(())
        }),
{
    if s.layers == 0 {
        return Ok(());
    }
    let owned = cmd.to_owned();
    let n = s.commands.len();
    let mut i: usize = 0;
    while i < n
        invariant
            i <= n,
            n == s@.commands.len(),
            owned@ == cmd@,
            forall|j: int| 0 <= j < i ==> s@.commands[j]@ != cmd@,
        decreases n - i,
    {
        if owned.eq(&s.commands[i]) {
            return Ok(());
        }
        i = i + 1;
    }
    Err(())
}

/// Disables error reporting for this thread.  The disablement nests: each
/// call deepens it by one, and reporting resumes only once
/// [`enable_error_reporting`] has been called as many times.
pub fn disable_error_reporting(s: &mut Session)
    requires
        CR::CG_VALGRIND_ENABLE_ERROR_REPORTING.min_version() <= old(s)@.version,
        old(s)@.disabled < usize::MAX,
    ensures
        final(s)@ == (SessionView {
            disabled: if old(s)@.under_tool() {
                (old(s)@.disabled + 1) as usize
            } else {
                old(s)@.disabled
            },
            ..old(s)@
        }),
{
    if s.layers > 0 {
        s.disabled = s.disabled + 1;
    }
}

/// Takes back one [`disable_error_reporting`] call: the disablement depth
/// shrinks by one, and never below zero.
pub fn enable_error_reporting(s: &mut Session)
    requires
        CR::CG_VALGRIND_ENABLE_ERROR_REPORTING.min_version() <= old(s)@.version,
    ensures
        final(s)@ == (SessionView {
            disabled: if old(s)@.under_tool() && old(s)@.disabled > 0 {
                (old(s)@.disabled - 1) as usize
            } else {
                old(s)@.disabled
            },
            ..old(s)@
        }),
{
    if s.layers > 0 && s.disabled > 0 {
        s.disabled = s.disabled - 1;
    }
}

/// The scope whose enter and exit are [`disable_error_reporting`] and
/// [`enable_error_reporting`]; see [`disable_reporting`].
#[derive(Debug)]
pub struct DisabledReporting;

impl Sealed for DisabledReporting {

}

impl Scope for DisabledReporting {
    type Inner = ();

    open spec fn enter_ok(v: SessionView, inner: ()) -> bool {
        &&& CR::CG_VALGRIND_ENABLE_ERROR_REPORTING.min_version() <= v.version
        &&& v.disabled < usize::MAX
    }

    open spec fn enter_view(v: SessionView, inner: ()) -> SessionView {
        SessionView {
            disabled: if v.under_tool() {
                (v.disabled + 1) as usize
            } else {
                v.disabled
            },
            ..v
        }
    }

    open spec fn exit_ok(v: SessionView, inner: ()) -> bool {
        CR::CG_VALGRIND_ENABLE_ERROR_REPORTING.min_version() <= v.version
    }

    open spec fn exit_view(v: SessionView, inner: ()) -> SessionView {
        SessionView {
            disabled: if v.under_tool() && v.disabled > 0 {
                (v.disabled - 1) as usize
            } else {
                v.disabled
            },
            ..v
        }
    }

    proof fn enter_keeps_scopes(v: SessionView, inner: ()) {
    }

    proof fn exit_keeps_scopes(v: SessionView, inner: ()) {
    }

    fn enter(s: &mut Session, inner: &()) {
        disable_error_reporting(s);
    }

    fn exit(s: &mut Session, inner: &()) {
        enable_error_reporting(s);
    }
}

/// Disables error reporting for this thread until the returned guard is
/// released.
pub fn disable_reporting(s: &mut Session) -> (g: ScopeGuard<DisabledReporting>)
    requires
        CR::CG_VALGRIND_ENABLE_ERROR_REPORTING.min_version() <= old(s)@.version,
        old(s)@.disabled < usize::MAX,
        old(s)@.scopes < usize::MAX,
    ensures
        g.inner() == (),
        g.depth() == old(s)@.scopes,
        final(s)@ == (SessionView {
            scopes: (old(s)@.scopes + 1) as usize,
            disabled: if old(s)@.under_tool() {
                (old(s)@.disabled + 1) as usize
            } else {
                old(s)@.disabled
            },
            ..old(s)@
        }),
{
    ScopeGuard::new(s, ())
}

/// Returns the number of errors the tool has found and reported so far;
/// zero when running natively.
pub fn count_errors(s: &Session) -> (n: usize)
    requires
        CR::CG_VALGRIND_COUNT_ERRORS.min_version() <= s@.version,
    ensures
        n == (if s@.under_tool() {
            s@.errors
        } else {
            0
        }),
{
    if s.layers > 0 {
        s.errors
    } else {
        0
    }
}

/// Changes the value of a dynamic command-line option of the tool.
pub fn change_clo(s: &mut Session, option: String)
    requires
        CR::CG_VALGRIND_CLO_CHANGE.min_version() <= old(s)@.version,
    ensures
        final(s)@ == (if old(s)@.under_tool() {
            SessionView { clo: old(s)@.clo.push(option), ..old(s)@ }
        } else {
            old(s)@
        }),
{
    if s.layers > 0 {
        s.clo.push(option);
    }
}

/// Discards the tool's cached translations of the code in
/// `[addr, addr + size)`.  The translation cache is not part of the
/// observable session state, so nothing else changes.
#[allow(unused_variables)]
pub fn discard_translations(s: &mut Session, addr: usize, size: usize)
    requires
        CR::CG_VALGRIND_DISCARD_TRANSLATIONS.min_version() <= old(s)@.version,
    ensures
        final(s)@ == old(s)@,
{
}

/// Loads debug info for a mapped PE image.  The debug-info store is not
/// part of the observable session state, so nothing else changes.
#[allow(unused_variables)]
pub fn load_pdb_debuginfo(s: &mut Session, fd: RawFd, ptr: usize, total_size: usize, delta: usize)
    requires
        CR::CG_VALGRIND_LOAD_PDB_DEBUGINFO.min_version() <= old(s)@.version,
        fd >= 0,
    ensures
        final(s)@ == old(s)@,
{
}

/// Whether a source-location buffer filled by the tool is empty: the tool
/// sets the first byte to zero when it found no information.
pub fn is_empty_srcloc(buf: &[u8]) -> (empty: bool)
    requires
        buf@.len() > 0,
    ensures
        empty == (buf@[0] == 0),
{
    buf[0] == 0
}

/// Runs `f` on the real CPU, handing it the tool's identifier for the
/// current thread.  Natively the request is a no-op yielding the default
/// value, and `f` does not run.
pub fn non_simd_call<F: Fn(ThreadId) -> usize>(s: &Session, f: F) -> (r: usize)
    requires
        CR::CG_VALGRIND_NON_SIMD_CALL0.min_version() <= s@.version,
        s@.under_tool() ==> call_requires(f, (s@.thread_id,)),
    ensures
        if s@.under_tool() {
            call_ensures(f, (s@.thread_id,), r)
        } else {
            r == 0
        },
{
    if s.layers > 0 {
        f(s.thread_id)
    } else {
        0
    }
}

/// As [`non_simd_call`], with one extra word-sized argument.
pub fn non_simd_call1<F: Fn(ThreadId, usize) -> usize>(s: &Session, f: F, arg1: usize) -> (r: usize)
    requires
        CR::CG_VALGRIND_NON_SIMD_CALL1.min_version() <= s@.version,
        s@.under_tool() ==> call_requires(f, (s@.thread_id, arg1)),
    ensures
        if s@.under_tool() {
            call_ensures(f, (s@.thread_id, arg1), r)
        } else {
            r == 0
        },
{
    if s.layers > 0 {
        f(s.thread_id, arg1)
    } else {
        0
    }
}

/// As [`non_simd_call`], with two extra word-sized arguments.
pub fn non_simd_call2<F: Fn(ThreadId, usize, usize) -> usize>(
    s: &Session,
    f: F,
    arg1: usize,
    arg2: usize,
) -> (r: usize)
    requires
        CR::CG_VALGRIND_NON_SIMD_CALL2.min_version() <= s@.version,
        s@.under_tool() ==> call_requires(f, (s@.thread_id, arg1, arg2)),
    ensures
        if s@.under_tool() {
            call_ensures(f, (s@.thread_id, arg1, arg2), r)
        } else {
            r == 0
        },
{
    if s.layers > 0 {
        f(s.thread_id, arg1, arg2)
    } else {
        0
    }
}

/// As [`non_simd_call`], with three extra word-sized arguments.
pub fn non_simd_call3<F: Fn(ThreadId, usize, usize, usize) -> usize>(
    s: &Session,
    f: F,
    arg1: usize,
    arg2: usize,
    arg3: usize,
) -> (r: usize)
    requires
        CR::CG_VALGRIND_NON_SIMD_CALL3.min_version() <= s@.version,
        s@.under_tool() ==> call_requires(f, (s@.thread_id, arg1, arg2, arg3)),
    ensures
        if s@.under_tool() {
            call_ensures(f, (s@.thread_id, arg1, arg2, arg3), r)
        } else {
            r == 0
        },
{
    if s.layers > 0 {
        f(s.thread_id, arg1, arg2, arg3)
    } else {
        0
    }
}

/// Describes the region at `addr` of `size` bytes as a heap allocation with
/// `redzone` guard bytes on both sides: the payload becomes addressable —
/// defined only if `is_zeroed` — the red zones inaccessible, and the block
/// is recorded.
pub fn malloclike_block(s: &mut Session, addr: usize, size: usize, redzone: usize, is_zeroed: bool)
    requires
        CR::CG_VALGRIND_MALLOCLIKE_BLOCK.min_version() <= old(s)@.version,
        redzone <= addr,
        addr + size + redzone <= usize::MAX,
    ensures
        final(s)@ == (if old(s)@.under_tool() {
            SessionView {
                mem: malloclike_mem(
                    old(s)@.mem,
                    addr as int,
                    size as int,
                    redzone as int,
                    is_zeroed,
                ),
                client_blocks: old(s)@.client_blocks.push(ClientBlock { addr, size }),
                ..old(s)@
            }
        } else {
            old(s)@
        }),
{
    if s.layers > 0 {
        s.mark_range(addr - redzone, redzone, false, 0xFF);
        s.mark_range(addr, size, true, if is_zeroed { 0 } else { 0xFF });
        s.mark_range(addr + size, redzone, false, 0xFF);
        s.client_blocks.push(ClientBlock { addr, size });
    }
}

/// Informs the tool that the block at `addr` was resized in place from
/// `old_size` to `new_size` bytes: the shadow state follows
/// [`resized_mem`], and the first recorded block at `addr`, if any, takes
/// the new size.
pub fn resizeinplace_block(
    s: &mut Session,
    addr: usize,
    old_size: usize,
    new_size: usize,
    redzone: usize,
)
    requires
        CR::CG_VALGRIND_RESIZEINPLACE_BLOCK.min_version() <= old(s)@.version,
        addr + old_size + redzone <= usize::MAX,
        addr + new_size + redzone <= usize::MAX,
    ensures
        old(s)@.under_tool() ==> {
            &&& final(s)@.mem == resized_mem(
                old(s)@.mem,
                addr as int,
                old_size as int,
                new_size as int,
                redzone as int,
            )
            &&& (has_block(old(s)@.client_blocks, addr) ==> exists|j: int|
                is_first_block(old(s)@.client_blocks, addr, j) && final(s)@.client_blocks == old(s)@.client_blocks.update(j, ClientBlock { addr, size: new_size }))
            &&& (!has_block(old(s)@.client_blocks, addr) ==> final(s)@.client_blocks == old(s)@.client_blocks)
            &&& final(s)@ == (SessionView {
                mem: final(s)@.mem,
                client_blocks: final(s)@.client_blocks,
                ..old(s)@
            })
        },
        !old(s)@.under_tool() ==> final(s)@ == old(s)@,
{
    if s.layers > 0 {
        if new_size > old_size {
            s.mark_range(addr + old_size, new_size - old_size, true, 0xFF);
            s.mark_range(addr + new_size, redzone, false, 0xFF);
        } else {
            s.mark_range(addr + new_size, old_size - new_size, false, 0xFF);
        }
        let n = s.client_blocks.len();
        let mut i: usize = 0;
        while i < n
            invariant
                i <= n,
                n == s@.client_blocks.len(),
                s@.layers > 0,
                s@.client_blocks == old(s)@.client_blocks,
                forall|k: int| 0 <= k < i ==> s@.client_blocks[k].addr != addr,
                s@ == (SessionView { mem: s@.mem, ..old(s)@ }),
                s@.mem == resized_mem(
                    old(s)@.mem,
                    addr as int,
                    old_size as int,
                    new_size as int,
                    redzone as int,
                ),
            decreases n - i,
        {
            if s.client_blocks[i].addr == addr {
                s.client_blocks[i] = ClientBlock { addr, size: new_size };
                proof {
                    assert(is_first_block(old(s)@.client_blocks, addr, i as int));
                }
                return ;
            }
            i = i + 1;
        }
    }
}

/// The partner of [`malloclike_block`]: the first recorded block at `addr`
/// has its payload made inaccessible and is forgotten.  Freeing an address
/// with no recorded block is an error, reported unless reporting is
/// disabled for the thread.
#[allow(unused_variables)]
pub fn freelike_block(s: &mut Session, addr: usize, redzone: usize)
    requires
        CR::CG_VALGRIND_FREELIKE_BLOCK.min_version() <= old(s)@.version,
        old(s)@.errors < usize::MAX,
    ensures
        old(s)@.under_tool() && has_block(old(s)@.client_blocks, addr) ==> exists|j: int|
            is_first_block(old(s)@.client_blocks, addr, j) && final(s)@ == (SessionView {
                mem: mem_marked(
                    old(s)@.mem,
                    addr as int,
                    old(s)@.client_blocks[j].size as int,
                    false,
                    0xFF,
                ),
                client_blocks: old(s)@.client_blocks.remove(j),
                ..old(s)@
            }),
        old(s)@.under_tool() && !has_block(old(s)@.client_blocks, addr) ==> final(s)@
            == (SessionView {
            errors: if old(s)@.counts_errors() {
                (old(s)@.errors + 1) as usize
            } else {
                old(s)@.errors
            },
            ..old(s)@
        }),
        !old(s)@.under_tool() ==> final(s)@ == old(s)@,
{
    if s.layers > 0 {
        let n = s.client_blocks.len();
        let mut i: usize = 0;
        while i < n
            invariant
                i <= n,
                n == s@.client_blocks.len(),
                s@ == old(s)@,
                s@.layers > 0,
                old(s)@.errors < usize::MAX,
                forall|k: int| 0 <= k < i ==> s@.client_blocks[k].addr != addr,
            decreases n - i,
        {
            if s.client_blocks[i].addr == addr {
                let size = s.client_blocks[i].size;
                s.client_blocks.remove(i);
                s.mark_range(addr, size, false, 0xFF);
                proof {
                    assert(is_first_block(old(s)@.client_blocks, addr, i as int));
                }
                return ;
            }
            i = i + 1;
        }
        if s.disabled == 0 {
            s.errors = s.errors + 1;
        }
    }
}

/// Registers a custom-allocator pool anchored at `pool`; sub-allocations
/// carry `redzone` guard bytes, start out defined if `is_zeroed`, and the
/// pool behaves as the `flags` say.
pub fn create_mempool(
    s: &mut Session,
    pool: usize,
    redzone: usize,
    is_zeroed: bool,
    flags: Option<u8>,
)
    requires
        CR::CG_VALGRIND_CREATE_MEMPOOL.min_version() <= old(s)@.version,
    ensures
        final(s)@ == (if old(s)@.under_tool() {
            SessionView {
                pools: old(s)@.pools.push(
                    Pool {
                        addr: pool,
                        redzone,
                        zeroed: is_zeroed,
                        flags: match flags {
                            Some(f) => f,
                            None => 0,
                        },
                    },
                ),
                ..old(s)@
            }
        } else {
            old(s)@
        }),
{
    if s.layers > 0 {
        let f = match flags {
            Some(f) => f,
            None => 0,
        };
        s.pools.push(Pool { addr: pool, redzone, zeroed: is_zeroed, flags: f });
    }
}

/// Whether a pool anchored at `pool` is currently registered; always false
/// natively.
pub fn mempool_exists(s: &Session, pool: usize) -> (r: bool)
    requires
        CR::CG_VALGRIND_MEMPOOL_EXISTS.min_version() <= s@.version,
    ensures
        r == (s@.under_tool() && has_pool(s@.pools, pool)),
{
    if s.layers == 0 {
        return false;
    }
    let n = s.pools.len();
    let mut i: usize = 0;
    while i < n
        invariant
            i <= n,
            n == s@.pools.len(),
            s@.layers > 0,
            forall|k: int| 0 <= k < i ==> s@.pools[k].addr != pool,
        decreases n - i,
    {
        if s.pools[i].addr == pool {
            return true;
        }
        i = i + 1;
    }
    false
}

/// Unregisters the first pool anchored at `pool`.  Destroying a pool that
/// does not exist is an error, reported unless reporting is disabled.
pub fn mempool_destroy(s: &mut Session, pool: usize)
    requires
        CR::CG_VALGRIND_DESTROY_MEMPOOL.min_version() <= old(s)@.version,
        old(s)@.errors < usize::MAX,
    ensures
        old(s)@.under_tool() && has_pool(old(s)@.pools, pool) ==> exists|j: int|
            is_first_pool(old(s)@.pools, pool, j) && final(s)@ == (SessionView {
                pools: old(s)@.pools.remove(j),
                ..old(s)@
            }),
        old(s)@.under_tool() && !has_pool(old(s)@.pools, pool) ==> final(s)@ == (SessionView {
            errors: if old(s)@.counts_errors() {
                (old(s)@.errors + 1) as usize
            } else {
                old(s)@.errors
            },
            ..old(s)@
        }),
        !old(s)@.under_tool() ==> final(s)@ == old(s)@,
{
    if s.layers > 0 {
        let n = s.pools.len();
        let mut i: usize = 0;
        while i < n
            invariant
                i <= n,
                n == s@.pools.len(),
                s@ == old(s)@,
                s@.layers > 0,
                old(s)@.errors < usize::MAX,
                forall|k: int| 0 <= k < i ==> s@.pools[k].addr != pool,
            decreases n - i,
        {
            if s.pools[i].addr == pool {
                s.pools.remove(i);
                proof {
                    assert(is_first_pool(old(s)@.pools, pool, i as int));
                }
                return ;
            }
            i = i + 1;
        }
        if s.disabled == 0 {
            s.errors = s.errors + 1;
        }
    }
}

/// Associates the `size` bytes at `addr` with the pool anchored at `pool`:
/// the chunk is recorded and its bytes become addressable, defined only for
/// a zeroed pool.  An allocation into an unregistered pool is an error,
/// reported unless reporting is disabled.
pub fn mempool_alloc(s: &mut Session, pool: usize, addr: usize, size: usize)
    requires
        CR::CG_VALGRIND_MEMPOOL_ALLOC.min_version() <= old(s)@.version,
        addr + size <= usize::MAX,
        old(s)@.errors < usize::MAX,
    ensures
        old(s)@.under_tool() && has_pool(old(s)@.pools, pool) ==> exists|j: int|
            is_first_pool(old(s)@.pools, pool, j) && final(s)@ == (SessionView {
                mem: mem_marked(
                    old(s)@.mem,
                    addr as int,
                    size as int,
                    true,
                    if old(s)@.pools[j].zeroed {
                        0
                    } else {
                        0xFF
                    },
                ),
                chunks: old(s)@.chunks.push(PoolChunk { pool, addr, size }),
                ..old(s)@
            }),
        old(s)@.under_tool() && !has_pool(old(s)@.pools, pool) ==> final(s)@ == (SessionView {
            errors: if old(s)@.counts_errors() {
                (old(s)@.errors + 1) as usize
            } else {
                old(s)@.errors
            },
            ..old(s)@
        }),
        !old(s)@.under_tool() ==> final(s)@ == old(s)@,
{
    if s.layers > 0 {
        let n = s.pools.len();
        let mut i: usize = 0;
        while i < n
            invariant
                i <= n,
                n == s@.pools.len(),
                s@ == old(s)@,
                s@.layers > 0,
                old(s)@.errors < usize::MAX,
                addr + size <= usize::MAX,
                forall|k: int| 0 <= k < i ==> s@.pools[k].addr != pool,
            decreases n - i,
        {
            if s.pools[i].addr == pool {
                let zeroed = s.pools[i].zeroed;
                s.mark_range(addr, size, true, if zeroed { 0 } else { 0xFF });
                s.chunks.push(PoolChunk { pool, addr, size });
                proof {
                    assert(is_first_pool(old(s)@.pools, pool, i as int));
                }
                return ;
            }
            i = i + 1;
        }
        if s.disabled == 0 {
            s.errors = s.errors + 1;
        }
    }
}

/// Disassociates the chunk at `addr` from the pool anchored at `pool`: the
/// first matching chunk is forgotten and its bytes become inaccessible.
/// Freeing from an unregistered pool, or an address with no chunk, is an
/// error, reported unless reporting is disabled.
pub fn mempool_free(s: &mut Session, pool: usize, addr: usize)
    requires
        CR::CG_VALGRIND_MEMPOOL_FREE.min_version() <= old(s)@.version,
        old(s)@.errors < usize::MAX,
    ensures
        old(s)@.under_tool() && has_pool(old(s)@.pools, pool) && has_chunk(
            old(s)@.chunks,
            pool,
            addr,
        ) ==> exists|j: int|
            is_first_chunk(old(s)@.chunks, pool, addr, j) && final(s)@ == (SessionView {
                mem: mem_marked(
                    old(s)@.mem,
                    addr as int,
                    old(s)@.chunks[j].size as int,
                    false,
                    0xFF,
                ),
                chunks: old(s)@.chunks.remove(j),
                ..old(s)@
            }),
        old(s)@.under_tool() && !(has_pool(old(s)@.pools, pool) && has_chunk(
            old(s)@.chunks,
            pool,
            addr,
        )) ==> final(s)@ == (SessionView {
            errors: if old(s)@.counts_errors() {
                (old(s)@.errors + 1) as usize
            } else {
                old(s)@.errors
            },
            ..old(s)@
        }),
        !old(s)@.under_tool() ==> final(s)@ == old(s)@,
{
    if s.layers > 0 {
        if !pool_registered(s, pool) {
            if s.disabled == 0 {
                s.errors = s.errors + 1;
            }
            return ;
        }
        let n = s.chunks.len();
        let mut i: usize = 0;
        while i < n
            invariant
                i <= n,
                n == s@.chunks.len(),
                s@ == old(s)@,
                s@.layers > 0,
                old(s)@.errors < usize::MAX,
                has_pool(old(s)@.pools, pool),
                forall|k: int|
                    0 <= k < i ==> !(s@.chunks[k].pool == pool && s@.chunks[k].addr == addr),
            decreases n - i,
        {
            if s.chunks[i].pool == pool && s.chunks[i].addr == addr {
                let size = s.chunks[i].size;
                s.chunks.remove(i);
                s.mark_range(addr, size, false, 0xFF);
                proof {
                    assert(is_first_chunk(old(s)@.chunks, pool, addr, i as int));
                }
                return ;
            }
            i = i + 1;
        }
        if s.disabled == 0 {
            s.errors = s.errors + 1;
        }
    }
}

/// Whether a pool anchored at `pool` is registered, for use inside the
/// request bodies.
fn pool_registered(s: &Session, pool: usize) -> (r: bool)
    ensures
        r == has_pool(s@.pools, pool),
{
    let n = s.pools.len();
    let mut i: usize = 0;
    while i < n
        invariant
            i <= n,
            n == s@.pools.len(),
            forall|k: int| 0 <= k < i ==> s@.pools[k].addr != pool,
        decreases n - i,
    {
        if s.pools[i].addr == pool {
            return true;
        }
        i = i + 1;
    }
    false
}

/// Keeps, of the pool anchored at `pool`, only the chunks lying entirely
/// within `[addr, addr + size)`; the rest are disassociated.  Chunks of
/// other pools are untouched; the shadow state of dropped chunks is not
/// modelled.  Trimming an unregistered pool is an error, reported unless
/// reporting is disabled.
pub fn mempool_trim(s: &mut Session, pool: usize, addr: usize, size: usize)
    requires
        CR::CG_VALGRIND_MEMPOOL_TRIM.min_version() <= old(s)@.version,
        addr + size <= usize::MAX,
        old(s)@.errors < usize::MAX,
    ensures
        old(s)@.under_tool() && has_pool(old(s)@.pools, pool) ==> final(s)@ == (SessionView {
            chunks: old(s)@.chunks.filter(
                |c: PoolChunk|
                    c.pool != pool || (addr <= c.addr && c.addr + c.size <= addr + size),
            ),
            ..old(s)@
        }),
        old(s)@.under_tool() && !has_pool(old(s)@.pools, pool) ==> final(s)@ == (SessionView {
            errors: if old(s)@.counts_errors() {
                (old(s)@.errors + 1) as usize
            } else {
                old(s)@.errors
            },
            ..old(s)@
        }),
        !old(s)@.under_tool() ==> final(s)@ == old(s)@,
{
    let ghost keep = |c: PoolChunk|
        c.pool != pool || (addr <= c.addr && c.addr + c.size <= addr + size);
    if s.layers > 0 {
        if !pool_registered(s, pool) {
            if s.disabled == 0 {
                s.errors = s.errors + 1;
            }
            return ;
        }
        let end = addr + size;
        let n = s.chunks.len();
        let mut kept: Vec<PoolChunk> = Vec::new();
        let mut i: usize = 0;
        while i < n
            invariant
                i <= n,
                n == s@.chunks.len(),
                s@ == old(s)@,
                s@.layers > 0,
                has_pool(old(s)@.pools, pool),
                end == addr + size,
                kept@ == s@.chunks.take(i as int).filter(keep),
                keep == (|c: PoolChunk|
                    c.pool != pool || (addr <= c.addr && c.addr + c.size <= addr + size)),
            decreases n - i,
        {
            let c = s.chunks[i];
            let cond = c.pool != pool || (c.addr >= addr && c.addr <= end && end - c.addr >= c.size);
            proof {
                let pre = s@.chunks.take(i as int);
                let t1 = s@.chunks.take(i as int + 1);
                assert(t1 =~= pre.push(c));
                assert(keep(c) == cond);
                pre.lemma_filter_push(c, keep);
            }
            if cond {
                kept.push(c);
            }
            i = i + 1;
        }
        proof {
            assert(s@.chunks.take(n as int) =~= s@.chunks);
        }
        s.chunks = kept;
    }
}

/// Moves the pool anchored at `pool_a` to the anchor `pool_b`, carrying its
/// chunks along.  Moving an unregistered pool is an error, reported unless
/// reporting is disabled.
pub fn move_mempool(s: &mut Session, pool_a: usize, pool_b: usize)
    requires
        CR::CG_VALGRIND_MOVE_MEMPOOL.min_version() <= old(s)@.version,
        old(s)@.errors < usize::MAX,
    ensures
        old(s)@.under_tool() && has_pool(old(s)@.pools, pool_a) ==> exists|j: int|
            is_first_pool(old(s)@.pools, pool_a, j) && final(s)@ == (SessionView {
                pools: old(s)@.pools.update(
                    j,
                    (Pool { addr: pool_b, ..old(s)@.pools[j] }),
                ),
                chunks: Seq::new(
                    old(s)@.chunks.len(),
                    |k: int|
                        if old(s)@.chunks[k].pool == pool_a {
                            PoolChunk { pool: pool_b, ..old(s)@.chunks[k] }
                        } else {
                            old(s)@.chunks[k]
                        },
                ),
                ..old(s)@
            }),
        old(s)@.under_tool() && !has_pool(old(s)@.pools, pool_a) ==> final(s)@ == (SessionView {
            errors: if old(s)@.counts_errors() {
                (old(s)@.errors + 1) as usize
            } else {
                old(s)@.errors
            },
            ..old(s)@
        }),
        !old(s)@.under_tool() ==> final(s)@ == old(s)@,
{
    if s.layers > 0 {
        let n = s.pools.len();
        let mut i: usize = 0;
        while i < n
            invariant
                i <= n,
                n == s@.pools.len(),
                s@ == old(s)@,
                s@.layers > 0,
                old(s)@.errors < usize::MAX,
                forall|k: int| 0 <= k < i ==> s@.pools[k].addr != pool_a,
            decreases n - i,
        {
            if s.pools[i].addr == pool_a {
                let p = s.pools[i];
                s.pools[i] = Pool { addr: pool_b, ..p };
                let m = s.chunks.len();
                let mut k: usize = 0;
                while k < m
                    invariant
                        k <= m,
                        m == s@.chunks.len(),
                        i < n,
                        n == old(s)@.pools.len(),
                        s@.layers > 0,
                        is_first_pool(old(s)@.pools, pool_a, i as int),
                        s@ == (SessionView { pools: s@.pools, chunks: s@.chunks, ..old(s)@ }),
                        s@.pools == old(s)@.pools.update(
                            i as int,
                            (Pool { addr: pool_b, ..old(s)@.pools[i as int] }),
                        ),
                        forall|t: int|
                            0 <= t < m ==> s@.chunks[t] == (if t < k && old(s)@.chunks[t].pool
                                == pool_a {
                                PoolChunk { pool: pool_b, ..old(s)@.chunks[t] }
                            } else {
                                old(s)@.chunks[t]
                            }),
                    decreases m - k,
                {
                    if s.chunks[k].pool == pool_a {
                        let c = s.chunks[k];
                        s.chunks[k] = PoolChunk { pool: pool_b, ..c };
                    }
                    k = k + 1;
                }
                proof {
                    assert(is_first_pool(old(s)@.pools, pool_a, i as int));
                    assert(s@.chunks =~= Seq::new(
                        old(s)@.chunks.len(),
                        |t: int|
                            if old(s)@.chunks[t].pool == pool_a {
                                PoolChunk { pool: pool_b, ..old(s)@.chunks[t] }
                            } else {
                                old(s)@.chunks[t]
                            },
                    ));
                }
                return ;
            }
            i = i + 1;
        }
        if s.disabled == 0 {
            s.errors = s.errors + 1;
        }
    }
}

/// Moves or resizes the chunk of `pool` at `addr_a`: the first matching
/// chunk now starts at `addr_b` with `size` bytes.  Only the pool
/// bookkeeping is modelled.  Changing a chunk of an unregistered pool, or
/// one that was never allocated, is an error, reported unless reporting is
/// disabled.
pub fn mempool_change(s: &mut Session, pool: usize, addr_a: usize, addr_b: usize, size: usize)
    requires
        CR::CG_VALGRIND_MEMPOOL_CHANGE.min_version() <= old(s)@.version,
        old(s)@.errors < usize::MAX,
    ensures
        old(s)@.under_tool() && has_pool(old(s)@.pools, pool) && has_chunk(
            old(s)@.chunks,
            pool,
            addr_a,
        ) ==> exists|j: int|
            is_first_chunk(old(s)@.chunks, pool, addr_a, j) && final(s)@ == (SessionView {
                chunks: old(s)@.chunks.update(j, PoolChunk { pool, addr: addr_b, size }),
                ..old(s)@
            }),
        old(s)@.under_tool() && !(has_pool(old(s)@.pools, pool) && has_chunk(
            old(s)@.chunks,
            pool,
            addr_a,
        )) ==> final(s)@ == (SessionView {
            errors: if old(s)@.counts_errors() {
                (old(s)@.errors + 1) as usize
            } else {
                old(s)@.errors
            },
            ..old(s)@
        }),
        !old(s)@.under_tool() ==> final(s)@ == old(s)@,
{
    if s.layers > 0 {
        if !pool_registered(s, pool) {
            if s.disabled == 0 {
                s.errors = s.errors + 1;
            }
            return ;
        }
        let n = s.chunks.len();
        let mut i: usize = 0;
        while i < n
            invariant
                i <= n,
                n == s@.chunks.len(),
                s@ == old(s)@,
                s@.layers > 0,
                old(s)@.errors < usize::MAX,
                has_pool(old(s)@.pools, pool),
                forall|k: int|
                    0 <= k < i ==> !(s@.chunks[k].pool == pool && s@.chunks[k].addr == addr_a),
            decreases n - i,
        {
            if s.chunks[i].pool == pool && s.chunks[i].addr == addr_a {
                s.chunks[i] = PoolChunk { pool, addr: addr_b, size };
                proof {
                    assert(is_first_chunk(old(s)@.chunks, pool, addr_a, i as int));
                }
                return ;
            }
            i = i + 1;
        }
        if s.disabled == 0 {
            s.errors = s.errors + 1;
        }
    }
}

/// Registers `[lowest, highest]` as a stack and returns its identifier;
/// identifiers count up from zero within a session.  Natively the request
/// is a no-op yielding zero.
pub fn stack_register(s: &mut Session, lowest: usize, highest: usize) -> (id: StackId)
    requires
        CR::CG_VALGRIND_STACK_REGISTER.min_version() <= old(s)@.version,
    ensures
        old(s)@.under_tool() ==> {
            &&& id == old(s)@.stacks.len()
            &&& final(s)@ == (SessionView {
                stacks: old(s)@.stacks.push(
                    StackRange { low: lowest, high: highest, active: true },
                ),
                ..old(s)@
            })
        },
        !old(s)@.under_tool() ==> id == 0 && final(s)@ == old(s)@,
{
    if s.layers > 0 {
        let id = s.stacks.len();
        s.stacks.push(StackRange { low: lowest, high: highest, active: true });
        id
    } else {
        0
    }
}

/// Withdraws the stack registration `id`; unknown or already withdrawn
/// identifiers are ignored.
pub fn stack_deregister(s: &mut Session, id: StackId)
    requires
        CR::CG_VALGRIND_STACK_DEREGISTER.min_version() <= old(s)@.version,
    ensures
        final(s)@ == (if old(s)@.under_tool() && id < old(s)@.stacks.len()
            && old(s)@.stacks[id as int].active {
            SessionView {
                stacks: old(s)@.stacks.update(
                    id as int,
                    (StackRange { active: false, ..old(s)@.stacks[id as int] }),
                ),
                ..old(s)@
            }
        } else {
            old(s)@
        }),
{
    if s.layers > 0 && id < s.stacks.len() && s.stacks[id].active {
        let r = s.stacks[id];
        s.stacks[id] = StackRange { active: false, ..r };
    }
}

/// Moves the registered stack `id` to `[new_lowest, new_highest]`; unknown
/// or withdrawn identifiers are ignored.
pub fn stack_change(s: &mut Session, id: StackId, new_lowest: usize, new_highest: usize)
    requires
        CR::CG_VALGRIND_STACK_CHANGE.min_version() <= old(s)@.version,
    ensures
        final(s)@ == (if old(s)@.under_tool() && id < old(s)@.stacks.len()
            && old(s)@.stacks[id as int].active {
            SessionView {
                stacks: old(s)@.stacks.update(
                    id as int,
                    (StackRange { low: new_lowest, high: new_highest, active: true }),
                ),
                ..old(s)@
            }
        } else {
            old(s)@
        }),
{
    if s.layers > 0 && id < s.stacks.len() && s.stacks[id].active {
        s.stacks[id] = StackRange { low: new_lowest, high: new_highest, active: true };
    }
}

} // verus!
