//! The laws of the request layer: what holds of every session, proved once
//! and for all against the contracts of [`crate::requests`] and the session
//! model.

use vstd::prelude::*;

use crate::requests::memcheck::{has_free_slot, is_first_free_slot, marked_mem, slot_free, MemState};
use crate::requests::valgrind::DisabledReporting;
use crate::requests::Scope;
use crate::session::{
    after_leak_search, after_lost_block, byte_addressable, mem_vbits_written, range_addressable,
    range_vbits, SessionView,
};

verus! {

/// The session after `n` thread-wide error-reporting disables.
pub open spec fn disable_n(v: SessionView, n: nat) -> SessionView
    decreases n,
{
    if n == 0 {
        v
    } else {
        DisabledReporting::enter_view(disable_n(v, (n - 1) as nat), ())
    }
}

/// The session after `n` thread-wide error-reporting enables.
pub open spec fn enable_n(v: SessionView, n: nat) -> SessionView
    decreases n,
{
    if n == 0 {
        v
    } else {
        DisabledReporting::exit_view(enable_n(v, (n - 1) as nat), ())
    }
}

/// Disabling deepens the disablement by exactly one per call and changes
/// nothing else, as long as the depth has room to count.
pub proof fn lemma_disable_n(v: SessionView, n: nat)
    requires
        v.under_tool(),
        v.disabled + n <= usize::MAX,
    ensures
        disable_n(v, n) == (SessionView { disabled: (v.disabled + n) as usize, ..v }),
    decreases n,
{
    if n == 0 {
        assert(disable_n(v, 0) =~= (SessionView { disabled: v.disabled, ..v }));
    } else {
        lemma_disable_n(v, (n - 1) as nat);
    }
}

/// Enabling undoes one disable per call, never below zero, and changes
/// nothing else.
pub proof fn lemma_enable_n(v: SessionView, n: nat)
    requires
        v.under_tool(),
        n <= v.disabled,
    ensures
        enable_n(v, n) == (SessionView { disabled: (v.disabled - n) as usize, ..v }),
    decreases n,
{
    if n == 0 {
        assert(enable_n(v, 0) =~= (SessionView { disabled: v.disabled, ..v }));
    } else {
        lemma_enable_n(v, (n - 1) as nat);
    }
}

/// Toggling "disable error reporting" `n` times requires exactly `n`
/// matching enables before new errors are counted again: starting from a
/// reporting session under the tool, after `n` disables and `m <= n`
/// enables the disablement depth is `n - m`, so errors — with or without an
/// address — are counted again if and only if `m == n`.
pub proof fn lemma_error_reporting_stack(v: SessionView, n: nat, m: nat)
    requires
        v.under_tool(),
        v.disabled == 0,
        m <= n,
        n <= usize::MAX,
    ensures
        enable_n(disable_n(v, n), m).disabled == n - m,
        enable_n(disable_n(v, n), m).counts_errors() <==> m == n,
        forall|a: int|
            enable_n(disable_n(v, n), m).reports_addr_errors(a) <==> (m == n
                && v.reports_addr_errors(a)),
{
    lemma_disable_n(v, n);
    lemma_enable_n(disable_n(v, n), m);
}

/// A scoped guard's exit undoes its enter: entering and exiting the
/// thread-wide reporting scope restores the session exactly.  The guard
/// machinery makes the exit fire at most once — releasing consumes the
/// guard — and only for the innermost open guard, so nested guards release
/// in reverse order of construction; this lemma shows that that order
/// restores the state.
pub proof fn lemma_scope_round_trip(v: SessionView)
    requires
        v.disabled < usize::MAX,
    ensures
        DisabledReporting::exit_view(DisabledReporting::enter_view(v, ()), ()) == v,
{
    assert(DisabledReporting::exit_view(DisabledReporting::enter_view(v, ()), ()) =~= v);
}

/// Two nested reporting scopes, released in reverse order of construction
/// as the guards demand, leave the session exactly as it was.
pub proof fn lemma_nested_scopes_round_trip(v: SessionView)
    requires
        v.disabled + 2 <= usize::MAX,
    ensures
        DisabledReporting::exit_view(
            DisabledReporting::exit_view(
                DisabledReporting::enter_view(DisabledReporting::enter_view(v, ()), ()),
                (),
            ),
            (),
        ) == v,
{
    lemma_scope_round_trip(DisabledReporting::enter_view(v, ()));
    lemma_scope_round_trip(v);
}

/// Marking a byte range "no-access" and then querying addressability on a
/// larger containing range reports the offset of the first inaccessible
/// byte, not a bare failure: after the marking, the first marked byte
/// fails, every byte of the containing range before it still passes, and
/// so, by the contract of the addressability check, the check returns
/// exactly the offset `a - q` of that byte within the queried range.
pub proof fn lemma_first_inaccessible_offset(v: SessionView, q: int, len: int, a: int, n: int)
    requires
        0 < n,
        0 <= q <= a,
        a < q + len,
        a < v.mem.len(),
        range_addressable(v.mem, q, a - q),
    ensures
        ({
            let w = marked_mem(v.mem, a, n, MemState::NoAccess);
            &&& !byte_addressable(w, a)
            &&& range_addressable(w, q, a - q)
            &&& forall|off: int|
                q + off < a ==> (#[trigger] byte_addressable(w, q + off) <==> byte_addressable(
                    v.mem,
                    q + off,
                ))
        }),
{
    let w = marked_mem(v.mem, a, n, MemState::NoAccess);
    assert(!w[a].addressable);
    assert forall|off: int| q + off < a implies (#[trigger] byte_addressable(w, q + off)
        <==> byte_addressable(v.mem, q + off)) by {
        if 0 <= q + off < v.mem.len() {
            assert(w[q + off] == v.mem[q + off]);
        }
    }
    assert forall|j: int| q <= j < q + (a - q) implies #[trigger] byte_addressable(w, j) by {
        assert(byte_addressable(v.mem, j));
        assert(w[j] == v.mem[j]);
    }
}

/// Round trip: writing arbitrary validity bits to an addressable range and
/// reading them back yields the identical bit pattern.  The range stays
/// addressable, so the read is owed success by the contract of the
/// validity-bit requests.  The model is byte-granular: every range size is
/// a multiple of its alignment unit, one byte.
pub proof fn lemma_vbits_round_trip(v: SessionView, addr: int, bits: Seq<u8>)
    requires
        range_addressable(v.mem, addr, bits.len() as int),
    ensures
        range_vbits(mem_vbits_written(v.mem, addr, bits), addr, bits.len()) == bits,
        range_addressable(mem_vbits_written(v.mem, addr, bits), addr, bits.len() as int),
{
    let w = mem_vbits_written(v.mem, addr, bits);
    assert forall|j: int| addr <= j < addr + bits.len() implies #[trigger] byte_addressable(
        w,
        j,
    ) by {
        assert(byte_addressable(v.mem, j));
        assert(w[j].addressable == v.mem[j].addressable);
    }
    assert forall|i: int| 0 <= i < bits.len() implies range_vbits(w, addr, bits.len())[i]
        == bits[i] by {
        assert(byte_addressable(v.mem, addr + i));
        assert(w[addr + i].vbits == bits[i]);
    }
    assert(range_vbits(w, addr, bits.len()) =~= bits);
}

/// Block-description handles count up from zero: a table with no free slot
/// hands out its length as the next handle, and stays free of holes, so
/// handles keep increasing until one is discarded.
pub proof fn lemma_handles_increase(blocks: Seq<Option<String>>, desc: String)
    requires
        !has_free_slot(blocks),
    ensures
        !has_free_slot(blocks.push(Some(desc))),
{
    let pushed = blocks.push(Some(desc));
    assert forall|j: int| 0 <= j < pushed.len() implies !(pushed[j] is None) by {
        if j < blocks.len() {
            assert(!slot_free(blocks, j));
        }
    }
    assert forall|j: int| !slot_free(pushed, j) by {
        if 0 <= j < pushed.len() {
            assert(!(pushed[j] is None));
        }
    }
}

/// A discarded handle is reused first: discarding handle `h` from a table
/// with no other free slot makes `h` the lowest free slot, which the next
/// description takes.
pub proof fn lemma_handle_reuse(blocks: Seq<Option<String>>, h: int)
    requires
        0 <= h < blocks.len(),
        !has_free_slot(blocks),
    ensures
        is_first_free_slot(blocks.update(h, None), h),
{
    let freed = blocks.update(h, None);
    assert(slot_free(freed, h));
    assert forall|k: int| 0 <= k < h implies freed[k] is Some by {
        assert(!slot_free(blocks, k));
    }
}

/// A leak check invoked with no intervening heap events reports zero newly
/// leaked bytes; a leak check following an `n`-byte intentional leak
/// reports exactly `n` more leaked bytes and one more leaked block.
pub proof fn lemma_leak_check_delta(v: SessionView, n: usize)
    requires
        v.lost_bytes + n <= usize::MAX,
        v.lost_blocks < usize::MAX,
    ensures
        after_leak_search(after_leak_search(v)).found.leaked == after_leak_search(v).found.leaked,
        after_leak_search(after_lost_block(after_leak_search(v), n)).found.leaked
            == after_leak_search(v).found.leaked + n,
        after_leak_search(
            after_lost_block(after_leak_search(v), n),
        ).found_blocks.leaked == after_leak_search(v).found_blocks.leaked + 1,
{
}

} // verus!
