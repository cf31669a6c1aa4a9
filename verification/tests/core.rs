use crabgrind::session::Session;
use crabgrind::valgrind;

fn tool_session(mem: usize) -> Session {
    Session::new(3, 22, 1, mem)
}

#[test]
fn test_run_mode_under_valgrind() {
    let s = tool_session(8);
    assert_eq!(valgrind::RunningMode::Valgrind, valgrind::running_mode(&s));
}

#[test]
fn print_macros_wont_fail() {
    let mut s = tool_session(8);
    let m = "crabgrind";
    s.print(format!("{m}"));
    s.print(format!("het, {m}"));
    s.print_backtrace(format!("{m}"));
    assert_eq!(s.log_len(), 3);
    assert_eq!(s.backtrace_count(), 1);
}

#[test]
fn ok_monitor_command() {
    let mut s = tool_session(8);
    s.add_monitor_command(String::from("v.info all_errors"));
    valgrind::monitor_command(&s, "v.info all_errors").unwrap();
}

#[test]
#[should_panic]
fn wrong_monitor_command() {
    let s = tool_session(8);
    valgrind::monitor_command(&s, "hey valgringo").unwrap();
}

#[test]
fn disable_error_reporting() {
    let mut s = tool_session(4);
    valgrind::disable_error_reporting(&mut s);
    // an out-of-bounds read the tool would normally report
    s.observe_read(100);
    assert_eq!(valgrind::count_errors(&s), 0);
}

#[test]
fn lib_non_simd_call() {
    let mut s = tool_session(0);
    s.set_thread_id(2);
    let tid = valgrind::non_simd_call(&s, |id| id);
    assert_ne!(tid, usize::MAX);
}

#[test]
fn change_cli_option() {
    let mut s = tool_session(0);
    valgrind::change_clo(&mut s, String::from("--leak-check=no"));
    // the block whose loss the option silences
    s.observe_lost(6);
}
