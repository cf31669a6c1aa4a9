//! Concrete runs of the request layer's laws.

use crabgrind::memcheck::{self as mc, LeakCheck, MemState};
use crabgrind::session::Session;
use crabgrind::valgrind as vg;

fn tool_session(mem: usize) -> Session {
    Session::new(3, 22, 1, mem)
}

#[test]
fn reporting_disabled_thrice_needs_three_enables() {
    let mut s = tool_session(4);
    vg::disable_error_reporting(&mut s);
    vg::disable_error_reporting(&mut s);
    vg::disable_error_reporting(&mut s);

    s.observe_read(100);
    vg::enable_error_reporting(&mut s);
    s.observe_read(100);
    vg::enable_error_reporting(&mut s);
    s.observe_read(100);
    assert_eq!(vg::count_errors(&s), 0);

    vg::enable_error_reporting(&mut s);
    s.observe_read(100);
    assert_eq!(vg::count_errors(&s), 1);
}

#[test]
fn guards_release_in_reverse_order() {
    let mut s = tool_session(8);
    mc::mark_memory(&mut s, 0, 8, MemState::NoAccess).unwrap();

    let outer = vg::disable_reporting(&mut s);
    let inner = mc::disable_reporting(&mut s, 0, 8);
    assert_eq!(s.open_scopes(), 2);

    // each exit fires exactly once, innermost guard first
    inner.release(&mut s);
    outer.release(&mut s);
    assert_eq!(s.open_scopes(), 0);
    assert_eq!(s.disabled_depth(), 0);

    // both disables are undone: the addressing error is reported again
    s.observe_store(3);
    assert_eq!(vg::count_errors(&s), 1);
}

#[test]
fn noaccess_query_reports_first_offending_offset() {
    let mut s = tool_session(16);
    mc::mark_memory(&mut s, 6, 4, MemState::NoAccess).unwrap();
    // querying a larger containing range names the first inaccessible byte
    assert_eq!(mc::check_mem_addressable(&s, 2, 12), Err(4));
}

#[test]
fn vbits_round_trip_identity() {
    let mut s = tool_session(8);
    let pattern = vec![0x00u8, 0x01, 0x80, 0xFF, 0xAA, 0x55, 0x0F, 0xF0];
    mc::set_vbits(&mut s, 0, &pattern).unwrap();
    let mut back = vec![0u8; 8];
    mc::vbits(&s, 0, &mut back).unwrap();
    assert_eq!(back, pattern);
}

#[test]
fn handles_count_up_and_reuse_discarded() {
    let mut s = tool_session(8);
    let h0 = mc::create_block(&mut s, 0, 1, String::from("a"));
    let h1 = mc::create_block(&mut s, 1, 1, String::from("b"));
    let h2 = mc::create_block(&mut s, 2, 1, String::from("c"));
    assert_eq!((h0, h1, h2), (0, 1, 2));

    mc::discard_block(&mut s, 1).unwrap();
    let h3 = mc::create_block(&mut s, 3, 1, String::from("d"));
    assert_eq!(h3, 1);
    let h4 = mc::create_block(&mut s, 4, 1, String::from("e"));
    assert_eq!(h4, 3);
}

#[test]
fn leak_check_delta_matches_leaked_bytes() {
    let mut s = tool_session(0);
    mc::leak_check(&mut s, LeakCheck::Quick);
    let first = mc::count_leaks(&s);

    // no intervening allocations: zero newly-leaked bytes
    mc::leak_check(&mut s, LeakCheck::Quick);
    let second = mc::count_leaks(&s);
    assert_eq!(second.leaked - first.leaked, 0);

    // an intentional 5-byte leak: exactly 5 newly-leaked bytes
    s.observe_lost(5);
    mc::leak_check(&mut s, LeakCheck::Quick);
    let third = mc::count_leaks(&s);
    assert_eq!(third.leaked - second.leaked, 5);
}
