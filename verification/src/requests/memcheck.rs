//! Requests understood by the memory-error checking tool: shadow-memory
//! marking and queries, validity bits, block descriptions, leak checks, and
//! range-scoped error reporting.

use vstd::prelude::*;

use crate::catalog::CG_MemcheckClientRequest as CR;
use crate::requests::{Scope, ScopeGuard, Sealed};
use crate::session::{
    after_leak_search, byte_addressable, byte_defined, mem_defined_where_addressable, mem_marked,
    mem_report_marked, mem_vbits_written, range_addressable, range_defined, range_vbits, Session,
    SessionView, ShadowByte,
};

pub use crate::session::LeaksCount;

verus! {

/// Identifier for a custom memory-block description, handed out by
/// [`create_block`] and taken back by [`discard_block`].
pub type BlockHandle = usize;

/// A handle that was unknown or already discarded.
pub type InvalidBlockHandle = BlockHandle;

/// The raw result of a memory-marking request that failed: zero when the
/// request was a native no-op.
pub type UnaddressableBytes = usize;

/// Offset, from the start of the queried range, of the first byte that
/// fails an addressability or definedness check.
pub type OffendingOffset = usize;

/// The shadow-memory state a range can be marked with.
#[derive(Clone, Copy, Debug, PartialEq, Eq, Structural, Hash, PartialOrd, Ord)]
pub enum MemState {
    /// Completely inaccessible.
    NoAccess,
    /// Accessible but holding undefined data.
    Undefined,
    /// Accessible and holding defined data.
    Defined,
    /// As `Defined`, but only for bytes that are already addressable.
    DefinedIfAddressable,
}

/// The kinds of leak search the tool can run.
#[derive(Clone, Copy, Debug, Default, PartialEq, Eq, Structural, Hash, PartialOrd, Ord)]
pub enum LeakCheck {
    /// A full leak search, reporting every loss record.
    #[default]
    Full,
    /// As `Full`, but showing only records grown since the previous search.
    Added,
    /// A summary search, reporting totals only.
    Quick,
    /// As `Added`, but also showing records that shrank.
    Changed,
    /// As `Full`, but showing only records new since the previous search.
    New,
}

/// Failures of the validity-bit requests.
#[derive(Clone, Copy, Debug, PartialEq, Eq, Structural, Hash, PartialOrd, Ord)]
pub enum VBitsError {
    /// Not running under the tool.
    NoValgrind,
    /// The obsolete alignment restriction of early tool versions.
    LegacyAlignment,
    /// Some byte of the range is not addressable.
    Unaddressable,
    /// A return code the request is not documented to produce.
    Unknown(u8),
}

/// The request that marks a range with the given state.
pub open spec fn mark_request(mark: MemState) -> CR {
    match mark {
        MemState::NoAccess => CR::CG_VALGRIND_MAKE_MEM_NOACCESS,
        MemState::Undefined => CR::CG_VALGRIND_MAKE_MEM_UNDEFINED,
        MemState::Defined => CR::CG_VALGRIND_MAKE_MEM_DEFINED,
        MemState::DefinedIfAddressable => CR::CG_VALGRIND_MAKE_MEM_DEFINED_IF_ADDRESSABLE,
    }
}

/// The shadow space after the traced bytes of `[addr, addr + size)` have
/// been marked with the given state.
pub open spec fn marked_mem(m: Seq<ShadowByte>, addr: int, size: int, mark: MemState) -> Seq<
    ShadowByte,
> {
    match mark {
        MemState::NoAccess => mem_marked(m, addr, size, false, 0xFF),
        MemState::Undefined => mem_marked(m, addr, size, true, 0xFF),
        MemState::Defined => mem_marked(m, addr, size, true, 0),
        MemState::DefinedIfAddressable => mem_defined_where_addressable(m, addr, size),
    }
}

/// Whether slot `j` of the block-description table is free.
pub open spec fn slot_free(blocks: Seq<Option<String>>, j: int) -> bool {
    0 <= j < blocks.len() && blocks[j] is None
}

/// Whether the block-description table has a free slot at all.
pub open spec fn has_free_slot(blocks: Seq<Option<String>>) -> bool {
    exists|j: int| slot_free(blocks, j)
}

/// Whether `j` is the lowest free slot of the block-description table.
pub open spec fn is_first_free_slot(blocks: Seq<Option<String>>, j: int) -> bool {
    &&& slot_free(blocks, j)
    &&& forall|k: int| 0 <= k < j ==> blocks[k] is Some
}

/// Marks the traced bytes of `[addr, addr + size)` with the given state.
/// Under the tool the request succeeds; natively it is a no-op whose raw
/// result, zero, comes back as the error.
pub fn mark_memory(s: &mut Session, addr: usize, size: usize, mark: MemState) -> (r: Result<
    (),
    UnaddressableBytes,
>)
    requires
        mark_request(mark).min_version() <= old(s)@.version,
    ensures
        r == (if old(s)@.under_tool() {
            Result::<(), UnaddressableBytes>::Ok(())
        } else {
            Result::<(), UnaddressableBytes>::Err(0)
        }),
        final(s)@ == (if old(s)@.under_tool() {
            SessionView { mem: marked_mem(old(s)@.mem, addr as int, size as int, mark), ..old(s)@ }
        } else {
            old(s)@
        }),
{
    if s.layers > 0 {
        match mark {
            MemState::NoAccess => s.mark_range(addr, size, false, 0xFF),
            MemState::Undefined => s.mark_range(addr, size, true, 0xFF),
            MemState::Defined => s.mark_range(addr, size, true, 0),
            MemState::DefinedIfAddressable => s.define_range_where_addressable(addr, size),
        }
        Ok(())
    } else {
        Err(0)
    }
}

/// Checks that every byte of `[addr, addr + size)` is addressable.  On
/// failure the tool reports the offset of the first inaccessible byte, not
/// a bare verdict.  Natively the check reads as success.
pub fn check_mem_addressable(s: &Session, addr: usize, size: usize) -> (r: Result<
    (),
    OffendingOffset,
>)
    requires
        CR::CG_VALGRIND_CHECK_MEM_IS_ADDRESSABLE.min_version() <= s@.version,
    ensures
        s@.under_tool() ==> match r {
            Ok(()) => range_addressable(s@.mem, addr as int, size as int),
            Err(off) => {
                &&& off < size
                &&& !byte_addressable(s@.mem, addr as int + off)
                &&& range_addressable(s@.mem, addr as int, off as int)
            },
        },
        !s@.under_tool() ==> r == Result::<(), OffendingOffset>::Ok(()),
{
    if s.layers == 0 {
        return Ok(());
    }
    match s.find_unaddressable(addr, size) {
        None => Ok(()),
        Some(off) => Err(off),
    }
}

/// Checks that every byte of `[addr, addr + size)` is addressable and
/// defined.  On failure the tool reports the offset of the first offending
/// byte.  Natively the check reads as success.
pub fn check_mem_defined(s: &Session, addr: usize, size: usize) -> (r: Result<(), OffendingOffset>)
    requires
        CR::CG_VALGRIND_CHECK_MEM_IS_DEFINED.min_version() <= s@.version,
    ensures
        s@.under_tool() ==> match r {
            Ok(()) => range_defined(s@.mem, addr as int, size as int),
            Err(off) => {
                &&& off < size
                &&& !byte_defined(s@.mem, addr as int + off)
                &&& range_defined(s@.mem, addr as int, off as int)
            },
        },
        !s@.under_tool() ==> r == Result::<(), OffendingOffset>::Ok(()),
{
    if s.layers == 0 {
        return Ok(());
    }
    match s.find_undefined(addr, size) {
        None => Ok(()),
        Some(off) => Err(off),
    }
}

/// Runs a leak search of the given kind.  The search records the current
/// byte and block totals per verdict; the kind only selects which loss
/// records the tool then prints, which is outside this model.
pub fn leak_check(s: &mut Session, check: LeakCheck)
    requires
        CR::CG_VALGRIND_DO_LEAK_CHECK.min_version() <= old(s)@.version,
    ensures
        final(s)@ == (if old(s)@.under_tool() {
            after_leak_search(old(s)@)
        } else {
            old(s)@
        }),
{
    let _ = check;
    if s.layers > 0 {
        s.found = LeaksCount {
            leaked: s.lost_bytes,
            dubious: s.dubious_bytes,
            reachable: s.reachable_bytes,
            suppressed: s.suppressed_bytes,
        };
        s.found_blocks = LeaksCount {
            leaked: s.lost_blocks,
            dubious: s.dubious_blocks,
            reachable: s.reachable_blocks,
            suppressed: s.suppressed_blocks,
        };
    }
}

/// Returns the byte totals recorded by the most recent leak search; all
/// zero natively, or before any search ran.
pub fn count_leaks(s: &Session) -> (lc: LeaksCount)
    requires
        CR::CG_VALGRIND_COUNT_LEAKS.min_version() <= s@.version,
    ensures
        lc == (if s@.under_tool() {
            s@.found
        } else {
            LeaksCount { leaked: 0, dubious: 0, reachable: 0, suppressed: 0 }
        }),
{
    if s.layers > 0 {
        s.found
    } else {
        LeaksCount { leaked: 0, dubious: 0, reachable: 0, suppressed: 0 }
    }
}

/// Returns the block totals recorded by the most recent leak search; all
/// zero natively, or before any search ran.
pub fn count_leak_blocks(s: &Session) -> (lc: LeaksCount)
    requires
        CR::CG_VALGRIND_COUNT_LEAK_BLOCKS.min_version() <= s@.version,
    ensures
        lc == (if s@.under_tool() {
            s@.found_blocks
        } else {
            LeaksCount { leaked: 0, dubious: 0, reachable: 0, suppressed: 0 }
        }),
{
    if s.layers > 0 {
        s.found_blocks
    } else {
        LeaksCount { leaked: 0, dubious: 0, reachable: 0, suppressed: 0 }
    }
}

impl LeakCheck {
    /// Runs a leak search of this kind and returns the byte totals it
    /// recorded: [`leak_check`] followed by [`count_leaks`].
    pub fn check(self, s: &mut Session) -> (lc: LeaksCount)
        requires
            CR::CG_VALGRIND_DO_LEAK_CHECK.min_version() <= old(s)@.version,
            CR::CG_VALGRIND_COUNT_LEAKS.min_version() <= old(s)@.version,
        ensures
            lc == (if old(s)@.under_tool() {
                LeaksCount {
                    leaked: old(s)@.lost_bytes,
                    dubious: old(s)@.dubious_bytes,
                    reachable: old(s)@.reachable_bytes,
                    suppressed: old(s)@.suppressed_bytes,
                }
            } else {
                LeaksCount { leaked: 0, dubious: 0, reachable: 0, suppressed: 0 }
            }),
            final(s)@ == (if old(s)@.under_tool() {
                after_leak_search(old(s)@)
            } else {
                old(s)@
            }),
    {
        leak_check(s, self);
        count_leaks(s)
    }

    /// Runs a leak search of this kind and returns the block totals it
    /// recorded: [`leak_check`] followed by [`count_leak_blocks`].
    pub fn check_blocks(self, s: &mut Session) -> (lc: LeaksCount)
        requires
            CR::CG_VALGRIND_DO_LEAK_CHECK.min_version() <= old(s)@.version,
            CR::CG_VALGRIND_COUNT_LEAK_BLOCKS.min_version() <= old(s)@.version,
        ensures
            lc == (if old(s)@.under_tool() {
                LeaksCount {
                    leaked: old(s)@.lost_blocks,
                    dubious: old(s)@.dubious_blocks,
                    reachable: old(s)@.reachable_blocks,
                    suppressed: old(s)@.suppressed_blocks,
                }
            } else {
                LeaksCount { leaked: 0, dubious: 0, reachable: 0, suppressed: 0 }
            }),
            final(s)@ == (if old(s)@.under_tool() {
                after_leak_search(old(s)@)
            } else {
                old(s)@
            }),
    {
        leak_check(s, self);
        count_leak_blocks(s)
    }
}

/// Reads the validity bits of the `dest.len()` bytes at `addr` into
/// `dest`, one shadow byte per byte.  The read fails natively, and when
/// any byte of the range is not addressable; `dest` is then untouched.
pub fn vbits(s: &Session, addr: usize, dest: &mut Vec<u8>) -> (r: Result<(), VBitsError>)
    requires
        CR::CG_VALGRIND_GET_VBITS.min_version() <= s@.version,
    ensures
        !s@.under_tool() ==> r == Result::<(), VBitsError>::Err(VBitsError::NoValgrind) && final(dest)@ == old(dest)@,
        s@.under_tool() && !range_addressable(s@.mem, addr as int, old(dest)@.len() as int) ==> r
            == Result::<(), VBitsError>::Err(VBitsError::Unaddressable) && final(dest)@ == old(dest)@,
        s@.under_tool() && range_addressable(s@.mem, addr as int, old(dest)@.len() as int) ==> r
            == Result::<(), VBitsError>::Ok(()) && final(dest)@ == range_vbits(
            s@.mem,
            addr as int,
            old(dest)@.len() as nat,
        ),
{
    if s.layers == 0 {
        return Err(VBitsError::NoValgrind);
    }
    let n = dest.len();
    match s.find_unaddressable(addr, n) {
        Some(_) => Err(VBitsError::Unaddressable),
        None => {
            if n > 0 {
                let got = s.read_vbits_range(addr, n);
                *dest = got;
            } else {
                proof {
                    assert(old(dest)@ =~= range_vbits(s@.mem, addr as int, 0nat));
                }
            }
            Ok(())
        },
    }
}

/// Writes the validity bits of the `bits.len()` bytes at `addr` from
/// `bits`, one shadow byte per byte.  The write fails natively, and when
/// any byte of the range is not addressable; the shadow state is then
/// untouched.
pub fn set_vbits(s: &mut Session, addr: usize, bits: &Vec<u8>) -> (r: Result<(), VBitsError>)
    requires
        CR::CG_VALGRIND_SET_VBITS.min_version() <= old(s)@.version,
    ensures
        !old(s)@.under_tool() ==> r == Result::<(), VBitsError>::Err(VBitsError::NoValgrind)
            && final(s)@ == old(s)@,
        old(s)@.under_tool() && !range_addressable(old(s)@.mem, addr as int, bits@.len() as int)
            ==> r == Result::<(), VBitsError>::Err(VBitsError::Unaddressable) && final(s)@ == old(s)@,
        old(s)@.under_tool() && range_addressable(old(s)@.mem, addr as int, bits@.len() as int)
            ==> r == Result::<(), VBitsError>::Ok(()) && final(s)@ == (SessionView {
            mem: mem_vbits_written(old(s)@.mem, addr as int, bits@),
            ..old(s)@
        }),
{
    if s.layers == 0 {
        return Err(VBitsError::NoValgrind);
    }
    let n = bits.len();
    match s.find_unaddressable(addr, n) {
        Some(_) => Err(VBitsError::Unaddressable),
        None => {
            s.write_vbits_range(addr, bits);
            Ok(())
        },
    }
}

/// Hands out a description handle for the block of `size` bytes at `addr`:
/// the description is included in later messages about addresses inside
/// the block.  Handles start at zero, count up, and the lowest handle freed
/// by [`discard_block`] is reused first.  Natively the request is a no-op
/// yielding zero.
#[allow(unused_variables)]
pub fn create_block(s: &mut Session, addr: usize, size: usize, desc: String) -> (handle:
    BlockHandle)
    requires
        CR::CG_VALGRIND_CREATE_BLOCK.min_version() <= old(s)@.version,
    ensures
        !old(s)@.under_tool() ==> handle == 0 && final(s)@ == old(s)@,
        old(s)@.under_tool() && has_free_slot(old(s)@.blocks) ==> is_first_free_slot(
            old(s)@.blocks,
            handle as int,
        ) && final(s)@ == (SessionView {
            blocks: old(s)@.blocks.update(handle as int, Some(desc)),
            ..old(s)@
        }),
        old(s)@.under_tool() && !has_free_slot(old(s)@.blocks) ==> handle == old(s)@.blocks.len()
            && final(s)@ == (SessionView {
            blocks: old(s)@.blocks.push(Some(desc)),
            ..old(s)@
        }),
{
    if s.layers == 0 {
        return 0;
    }
    let n = s.blocks.len();
    let mut i: usize = 0;
    while i < n
        invariant
            i <= n,
            n == s@.blocks.len(),
            s@ == old(s)@,
            s@.layers > 0,
            forall|k: int| 0 <= k < i ==> s@.blocks[k] is Some,
        decreases n - i,
    {
        if s.blocks[i].is_none() {
            s.blocks[i] = Some(desc);
            return i;
        }
        i = i + 1;
    }
    s.blocks.push(Some(desc));
    n
}

/// Takes back a description handle.  An unknown or already discarded
/// handle comes back as the error.  Natively the request is a no-op that
/// reads as success.
pub fn discard_block(s: &mut Session, handle: BlockHandle) -> (r: Result<(), InvalidBlockHandle>)
    requires
        CR::CG_VALGRIND_DISCARD.min_version() <= old(s)@.version,
    ensures
        r == (if old(s)@.under_tool() && !(handle < old(s)@.blocks.len()
            && old(s)@.blocks[handle as int] is Some) {
            Result::<(), InvalidBlockHandle>::Err(handle)
        } else {
            Result::<(), InvalidBlockHandle>::Ok(())
        }),
        final(s)@ == (if old(s)@.under_tool() && handle < old(s)@.blocks.len()
            && old(s)@.blocks[handle as int] is Some {
            SessionView { blocks: old(s)@.blocks.update(handle as int, None), ..old(s)@ }
        } else {
            old(s)@
        }),
{
    if s.layers == 0 {
        return Ok(());
    }
    if handle < s.blocks.len() && s.blocks[handle].is_some() {
        s.blocks[handle] = None;
        Ok(())
    } else {
        Err(handle)
    }
}

/// Disables the reporting of addressing errors for the traced bytes of
/// `[addr, addr + size)`.
pub fn disable_error_reporting(s: &mut Session, addr: usize, size: usize)
    requires
        CR::CG_VALGRIND_DISABLE_ADDR_ERROR_REPORTING_IN_RANGE.min_version() <= old(s)@.version,
    ensures
        final(s)@ == (if old(s)@.under_tool() {
            SessionView {
                mem: mem_report_marked(old(s)@.mem, addr as int, size as int, false),
                ..old(s)@
            }
        } else {
            old(s)@
        }),
{
    if s.layers > 0 {
        s.mark_report_range(addr, size, false);
    }
}

/// Re-enables the reporting of addressing errors for the traced bytes of
/// `[addr, addr + size)`.
pub fn enable_error_reporting(s: &mut Session, addr: usize, size: usize)
    requires
        CR::CG_VALGRIND_ENABLE_ADDR_ERROR_REPORTING_IN_RANGE.min_version() <= old(s)@.version,
    ensures
        final(s)@ == (if old(s)@.under_tool() {
            SessionView {
                mem: mem_report_marked(old(s)@.mem, addr as int, size as int, true),
                ..old(s)@
            }
        } else {
            old(s)@
        }),
{
    if s.layers > 0 {
        s.mark_report_range(addr, size, true);
    }
}

/// The scope whose enter and exit disable and re-enable addressing-error
/// reporting for one byte range; see [`disable_reporting`].
#[derive(Debug)]
pub struct DisabledReporting;

impl Sealed for DisabledReporting {

}

impl Scope for DisabledReporting {
    type Inner = (usize, usize);

    open spec fn enter_ok(v: SessionView, inner: (usize, usize)) -> bool {
        CR::CG_VALGRIND_DISABLE_ADDR_ERROR_REPORTING_IN_RANGE.min_version() <= v.version
    }

    open spec fn enter_view(v: SessionView, inner: (usize, usize)) -> SessionView {
        if v.under_tool() {
            SessionView {
                mem: mem_report_marked(v.mem, inner.0 as int, inner.1 as int, false),
                ..v
            }
        } else {
            v
        }
    }

    open spec fn exit_ok(v: SessionView, inner: (usize, usize)) -> bool {
        CR::CG_VALGRIND_ENABLE_ADDR_ERROR_REPORTING_IN_RANGE.min_version() <= v.version
    }

    open spec fn exit_view(v: SessionView, inner: (usize, usize)) -> SessionView {
        if v.under_tool() {
            SessionView {
                mem: mem_report_marked(v.mem, inner.0 as int, inner.1 as int, true),
                ..v
            }
        } else {
            v
        }
    }

    proof fn enter_keeps_scopes(v: SessionView, inner: (usize, usize)) {
    }

    proof fn exit_keeps_scopes(v: SessionView, inner: (usize, usize)) {
    }

    fn enter(s: &mut Session, inner: &(usize, usize)) {
        disable_error_reporting(s, inner.0, inner.1);
    }

    fn exit(s: &mut Session, inner: &(usize, usize)) {
        enable_error_reporting(s, inner.0, inner.1);
    }
}

/// Disables addressing-error reporting for the traced bytes of
/// `[addr, addr + size)` until the returned guard is released.
pub fn disable_reporting(s: &mut Session, addr: usize, size: usize) -> (g: ScopeGuard<
    DisabledReporting,
>)
    requires
        CR::CG_VALGRIND_DISABLE_ADDR_ERROR_REPORTING_IN_RANGE.min_version() <= old(s)@.version,
        CR::CG_VALGRIND_ENABLE_ADDR_ERROR_REPORTING_IN_RANGE.min_version() <= old(s)@.version,
        old(s)@.scopes < usize::MAX,
    ensures
        g.inner() == (addr, size),
        g.depth() == old(s)@.scopes,
        final(s)@ == (SessionView {
            scopes: (old(s)@.scopes + 1) as usize,
            mem: if old(s)@.under_tool() {
                mem_report_marked(old(s)@.mem, addr as int, size as int, false)
            } else {
                old(s)@.mem
            },
            ..old(s)@
        }),
{
    ScopeGuard::new(s, (addr, size))
}

} // verus!

