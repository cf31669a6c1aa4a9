use crabgrind::catalog::{version_code, CG_ValgrindClientRequest};
use crabgrind::session::Session;
use crabgrind::valgrind;
use crabgrind::valgrind::RunningMode;

fn tool_session(mem: usize) -> Session {
    Session::new(3, 22, 1, mem)
}

#[test]
fn running_mode_native() {
    let s = Session::new(3, 22, 0, 0);
    assert_eq!(valgrind::running_mode(&s), RunningMode::Native);
}

#[test]
fn running_mode_valgrind() {
    let s = tool_session(0);
    assert_eq!(valgrind::running_mode(&s), RunningMode::Valgrind);
}

#[test]
fn running_mode_nested() {
    let s = Session::new(3, 22, 3, 0);
    assert_eq!(valgrind::running_mode(&s), RunningMode::ValgrindOnValgrind(3));
}

#[test]
fn monitor_command() {
    let mut s = tool_session(0);
    s.add_monitor_command(String::from("leak_check"));
    assert!(valgrind::monitor_command(&s, "invalid_command").is_err());
    assert!(valgrind::monitor_command(&s, "leak_check").is_ok());
}

#[test]
fn monitor_command_native() {
    // natively the request is a no-op that reads as success
    let s = Session::new(3, 22, 0, 0);
    assert!(valgrind::monitor_command(&s, "anything at all").is_ok());
}

#[test]
fn println_macro() {
    let mut s = tool_session(0);
    s.print(format!("cg_println_msg"));
    s.print(format!("cg_println_msg_{1}_{w:e}_{0:04}", 2, "format", w = 4));
    s.print_backtrace(format!("cg_print_stacktrace"));
    s.print_backtrace(format!("cg_print_stacktrace_{1}_{w:e}_{0:04}", 2, "format", w = 4));
    assert_eq!(s.log_line(0).as_str(), "cg_println_msg");
    assert_eq!(s.log_line(1).as_str(), "cg_println_msg_format_4e0_0002");
    assert_eq!(s.log_line(2).as_str(), "cg_print_stacktrace");
    assert_eq!(s.log_line(3).as_str(), "cg_print_stacktrace_format_4e0_0002");
}

#[test]
fn error_reporting() {
    let mut s = tool_session(4);
    let before = valgrind::count_errors(&s);
    s.observe_read(100);
    assert_eq!(valgrind::count_errors(&s), before + 1);
}

#[test]
fn error_reporting_disable() {
    let mut s = tool_session(4);
    let guard = valgrind::disable_reporting(&mut s);
    assert_eq!(s.disabled_depth(), 1);
    s.observe_read(100);
    assert_eq!(valgrind::count_errors(&s), 0);
    guard.release(&mut s);
    assert_eq!(s.disabled_depth(), 0);
}

#[test]
fn error_reporting_toggle() {
    let mut s = tool_session(4);
    let before = valgrind::count_errors(&s);

    valgrind::disable_error_reporting(&mut s);

    s.observe_read(100);
    assert_eq!(valgrind::count_errors(&s), before);

    valgrind::enable_error_reporting(&mut s);

    s.observe_read(100);
    assert_eq!(valgrind::count_errors(&s), before + 1);
}

#[test]
fn change_clo() {
    let mut s = tool_session(0);
    valgrind::change_clo(&mut s, String::from("--leak-check=summary"));
    assert_eq!(s.clo_len(), 1);
    assert_eq!(s.clo_line(0).as_str(), "--leak-check=summary");
}

#[test]
fn valgrind_non_simd_call() {
    const T: usize = 2;
    let mut s = tool_session(0);
    s.set_thread_id(T);
    let tid = valgrind::non_simd_call(&s, |tid| tid);
    assert_eq!(tid, T);
    let tid = valgrind::non_simd_call1(&s, |tid, x| tid + x, 1);
    assert_eq!(tid, T + 1);
    let tid = valgrind::non_simd_call2(&s, |tid, x, y| tid + x + y, 1, 1);
    assert_eq!(tid, T + 2);
    let tid = valgrind::non_simd_call3(&s, |tid, x, y, z| tid + x + y + z, 1, 1, 1);
    assert_eq!(tid, T + 3);
}

#[test]
fn non_simd_call_native() {
    // natively the callback does not run and the default comes back
    let s = Session::new(3, 22, 0, 0);
    assert_eq!(valgrind::non_simd_call(&s, |_| 7), 0);
}

#[test]
fn malloclike_block() {
    let mut s = tool_session(256);
    valgrind::malloclike_block(&mut s, 16, 128, 0, false);
    valgrind::freelike_block(&mut s, 16, 0);
    assert_eq!(valgrind::count_errors(&s), 0);
}

#[test]
fn freelike_block() {
    let mut s = tool_session(256);
    valgrind::malloclike_block(&mut s, 16, 128, 0, false);
    valgrind::freelike_block(&mut s, 16, 0);
    // the block is gone: freeing it again is an error
    valgrind::freelike_block(&mut s, 16, 0);
    assert_eq!(valgrind::count_errors(&s), 1);
}

#[test]
fn resizeinplace_block() {
    const N: usize = 128;
    let mut s = tool_session(256);
    let ptr = 16;

    valgrind::malloclike_block(&mut s, ptr, N / 2, 1, false);

    let before = valgrind::count_errors(&s);
    s.observe_read(ptr + N / 2);
    let after = valgrind::count_errors(&s);
    assert_eq!(after - before, 1);

    valgrind::resizeinplace_block(&mut s, ptr, N / 2, N, 0);

    s.observe_read(ptr + N / 2);
    assert_eq!(after, valgrind::count_errors(&s));

    valgrind::freelike_block(&mut s, ptr, 0);
}

#[test]
fn mempool() {
    let mut s = tool_session(64);
    let before = valgrind::count_errors(&s);
    let pool = 8;
    let a1 = 9;
    let a2 = 10;

    valgrind::create_mempool(&mut s, pool, 0, false, None);
    assert!(valgrind::mempool_exists(&s, pool));

    valgrind::mempool_alloc(&mut s, pool, a1, 1);
    valgrind::mempool_alloc(&mut s, pool, a2, 1);

    valgrind::mempool_change(&mut s, pool, a1, a2, 1);

    valgrind::mempool_free(&mut s, pool, a2);
    valgrind::mempool_trim(&mut s, pool, a2, 1);
    valgrind::move_mempool(&mut s, pool, pool);
    assert_eq!(valgrind::count_errors(&s), before);

    valgrind::mempool_destroy(&mut s, pool);
    assert!(!valgrind::mempool_exists(&s, pool));

    valgrind::mempool_free(&mut s, pool, a1);
    valgrind::mempool_free(&mut s, pool, a2);
    assert_eq!(valgrind::count_errors(&s), before + 2);
}

#[test]
fn stack() {
    let mut s = tool_session(0);
    let id = valgrind::stack_register(&mut s, 0, 128);
    assert_ne!(id, valgrind::stack_register(&mut s, 0, 128));

    valgrind::stack_change(&mut s, id, 0, 256);
    valgrind::stack_deregister(&mut s, id);

    assert_eq!(valgrind::count_errors(&s), 0);
}

#[test]
fn load_pdb_debug_info() {
    // "no crash" test
    let mut s = tool_session(0);
    valgrind::load_pdb_debuginfo(&mut s, 0, 0, 0, 0);
}

#[test]
fn discard_translations() {
    // "no crash" test
    let mut s = tool_session(0);
    valgrind::discard_translations(&mut s, 0, 0);
}

#[test]
fn empty_srcloc() {
    assert!(valgrind::is_empty_srcloc(&[0, b'a', 0]));
    assert!(!valgrind::is_empty_srcloc(b"main.rs:3\0"));
}

#[test]
fn version_gate() {
    assert_eq!(version_code(3, 22), 322);
    assert_eq!(CG_ValgrindClientRequest::CG_RUNNING_ON_VALGRIND.required_version(), 300);
    assert_eq!(CG_ValgrindClientRequest::CG_VALGRIND_MONITOR_COMMAND.required_version(), 306);
    assert_eq!(CG_ValgrindClientRequest::CG_VALGRIND_CLO_CHANGE.required_version(), 310);
    assert!(CG_ValgrindClientRequest::CG_VALGRIND_MONITOR_COMMAND.supported_by(306));
    assert!(!CG_ValgrindClientRequest::CG_VALGRIND_MONITOR_COMMAND.supported_by(305));
    assert!(!CG_ValgrindClientRequest::CG_VALGRIND_CLO_CHANGE.supported_by(309));
}
