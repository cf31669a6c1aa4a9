use crabgrind::memcheck::{self as mc, LeakCheck, MemState, VBitsError};
use crabgrind::session::Session;
use crabgrind::valgrind as vg;

fn tool_session(mem: usize) -> Session {
    Session::new(3, 22, 1, mem)
}

#[test]
fn leak_check_quick() {
    let mut s = tool_session(0);
    s.observe_lost(10);
    mc::leak_check(&mut s, LeakCheck::Quick);
    let definitely_lost = mc::count_leaks(&s).leaked;
    assert_eq!(definitely_lost, 10);
}

#[test]
fn leak_check_added() {
    let mut s = tool_session(0);
    s.observe_lost(20);
    mc::leak_check(&mut s, LeakCheck::Added);
    let definitely_lost_added = mc::count_leaks(&s).leaked;
    assert_eq!(definitely_lost_added, 20);
}

#[test]
fn leak_check_new() {
    let mut s = tool_session(0);
    s.observe_lost(30);
    mc::leak_check(&mut s, LeakCheck::Quick);
    let first = mc::count_leaks(&s).leaked;
    s.observe_lost(40);
    mc::leak_check(&mut s, LeakCheck::New);
    let definitely_lost_new = mc::count_leaks(&s).leaked - first;
    assert_eq!(definitely_lost_new, 40);
}

#[test]
fn leak_check_changed() {
    let mut s = tool_session(0);
    s.observe_lost(50);
    mc::leak_check(&mut s, LeakCheck::Quick);
    let first = mc::count_leaks(&s).leaked;
    s.observe_lost(60);
    mc::leak_check(&mut s, LeakCheck::Changed);
    let definitely_lost_changed = mc::count_leaks(&s).leaked - first;
    assert_eq!(definitely_lost_changed, 60);
}

#[test]
fn count_leaks() {
    let mut s = tool_session(0);
    // the process heap the tool always sees: some blocks reachable, some
    // reached only through interior pointers
    s.observe_reachable(4096);
    s.observe_dubious(96);

    mc::leak_check(&mut s, LeakCheck::Quick);
    let lc = mc::count_leaks(&s);
    assert_eq!(lc.leaked, 0);
    assert_ne!(lc.reachable, 0);
    assert_ne!(lc.dubious, 0);

    s.observe_lost(10);
    mc::leak_check(&mut s, LeakCheck::Quick);
    let lc = mc::count_leaks(&s);
    assert_eq!(lc.leaked, 10);
}

#[test]
fn count_leak_blocks() {
    let mut s = tool_session(0);
    for _ in 0..13 {
        s.observe_lost(1);
    }

    mc::leak_check(&mut s, LeakCheck::Quick);
    let lc = mc::count_leak_blocks(&s);
    assert_eq!(lc.leaked, 13);
}

#[test]
fn leak_check_combined() {
    let mut s = tool_session(0);
    s.observe_lost(7);
    let lc = LeakCheck::Full.check(&mut s);
    assert_eq!(lc.leaked, 7);
    let lb = LeakCheck::Full.check_blocks(&mut s);
    assert_eq!(lb.leaked, 1);
}

#[test]
fn mark_memory_defined() {
    const N: usize = 5;
    let mut s = tool_session(N);

    mc::mark_memory(&mut s, 0, N, MemState::Undefined).unwrap();
    assert_eq!(mc::check_mem_defined(&s, 0, N), Err(0));

    mc::mark_memory(&mut s, 0, 2, MemState::Defined).unwrap();
    assert_eq!(mc::check_mem_defined(&s, 0, N), Err(2));

    mc::mark_memory(&mut s, 2, N - 2, MemState::DefinedIfAddressable).unwrap();
    assert!(mc::check_mem_defined(&s, 0, N).is_ok());
}

#[test]
fn mark_memory_addressable() {
    const N: usize = 5;
    let mut s = tool_session(N);

    mc::mark_memory(&mut s, 2, N - 2, MemState::NoAccess).unwrap();
    assert_eq!(mc::check_mem_addressable(&s, 0, N), Err(2));
    assert!(mc::check_mem_addressable(&s, 0, 2).is_ok());

    mc::mark_memory(&mut s, 2, N - 2, MemState::Defined).unwrap();
    assert!(mc::check_mem_addressable(&s, 0, N).is_ok());
}

#[test]
fn addr_error_reporting() {
    let mut s = tool_session(10);
    mc::mark_memory(&mut s, 0, 5, MemState::NoAccess).unwrap();

    s.observe_store(5);
    assert_eq!(vg::count_errors(&s), 0);

    // store inside the no-access region
    s.observe_store(0);
    assert_eq!(vg::count_errors(&s), 1);

    // store inside the no-access region, error reporting disabled
    mc::disable_error_reporting(&mut s, 0, 2);
    s.observe_store(0);
    assert_eq!(vg::count_errors(&s), 1);

    // store inside the no-access region, error reporting re-enabled
    mc::enable_error_reporting(&mut s, 0, 2);
    s.observe_store(0);
    assert_eq!(vg::count_errors(&s), 2);
}

#[test]
fn create_discard_block() {
    const N: usize = 5;
    let mut s = tool_session(N);
    let desc = "b";

    let id = mc::create_block(&mut s, 0, N, String::from(desc));
    assert_eq!(id, 0);

    let id = mc::create_block(&mut s, 0, N, String::from(desc));
    assert_eq!(id, 1);

    assert!(mc::discard_block(&mut s, 0).is_ok());

    let id = mc::create_block(&mut s, 0, N, String::from(desc));
    assert_eq!(id, 0);

    let id = mc::create_block(&mut s, 0, N, String::from(desc));
    assert_eq!(id, 2);
}

#[test]
fn discard_unknown_block() {
    let mut s = tool_session(4);
    assert_eq!(mc::discard_block(&mut s, 7), Err(7));
}

#[test]
fn vbits() {
    let mut s = tool_session(4);
    let mut vbits = vec![0u8; 4];

    mc::mark_memory(&mut s, 0, 4, MemState::Undefined).unwrap();
    mc::vbits(&s, 0, &mut vbits).unwrap();
    assert_eq!(vbits, [0xFF, 0xFF, 0xFF, 0xFF]);

    vbits.copy_from_slice(&[0xFF, 0x00, 0xAA, 0x55]);
    mc::set_vbits(&mut s, 0, &vbits).unwrap();
    assert!(mc::check_mem_defined(&s, 1, 1).is_ok());

    vbits.fill(0);

    mc::mark_memory(&mut s, 0, 1, MemState::NoAccess).unwrap();
    assert_eq!(mc::vbits(&s, 0, &mut vbits), Err(VBitsError::Unaddressable));

    mc::mark_memory(&mut s, 0, 2, MemState::Undefined).unwrap();
    mc::mark_memory(&mut s, 0, 1, MemState::Defined).unwrap();

    mc::vbits(&s, 0, &mut vbits).unwrap();
    assert_eq!(vbits, [0x00, 0xFF, 0xAA, 0x55]);
}

#[test]
fn vbits_native() {
    let mut s = Session::new(3, 22, 0, 4);
    let mut dest = vec![0u8; 4];
    assert_eq!(mc::vbits(&s, 0, &mut dest), Err(VBitsError::NoValgrind));
    assert_eq!(mc::set_vbits(&mut s, 0, &dest), Err(VBitsError::NoValgrind));
}

#[test]
fn mark_memory_native() {
    // natively the request is a no-op whose raw result, zero, is the error
    let mut s = Session::new(3, 22, 0, 4);
    assert_eq!(mc::mark_memory(&mut s, 0, 4, MemState::Defined), Err(0));
}

#[test]
fn range_reporting_guard() {
    let mut s = tool_session(8);
    mc::mark_memory(&mut s, 0, 8, MemState::NoAccess).unwrap();
    let guard = mc::disable_reporting(&mut s, 0, 8);
    s.observe_store(3);
    assert_eq!(vg::count_errors(&s), 0);
    guard.release(&mut s);
    s.observe_store(3);
    assert_eq!(vg::count_errors(&s), 1);
}
