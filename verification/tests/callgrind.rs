use crabgrind::callgrind as cg;
use crabgrind::session::Session;

fn tool_session() -> Session {
    Session::new(3, 22, 1, 0)
}

#[test]
fn dump_stats() {
    let mut s = tool_session();
    s.observe_cost(10);
    cg::dump_stats(&mut s, None);
    s.observe_cost(10);
    cg::dump_stats(&mut s, Some(String::from("DUMP")));
    assert_eq!(s.dump_count(), 2);
    assert_eq!(s.dump_reason(0), &None);
    assert_eq!(s.dump_reason(1), &Some(String::from("DUMP")));
}

#[test]
fn zero_stats() {
    let mut s = tool_session();
    s.observe_cost(10);
    cg::zero_stats(&mut s);
    cg::dump_stats(&mut s, Some(String::from("HashMap::insert")));
    assert_eq!(s.collected_cost(), 0);
}

#[test]
fn no_collect() {
    // collection switched off at start
    let mut s = tool_session();
    cg::toggle_collect(&mut s);
    s.observe_cost(10);
    assert_eq!(s.collected_cost(), 0);
}

#[test]
fn toggle_collect() {
    // collection switched off at start, then toggled back on
    let mut s = tool_session();
    cg::toggle_collect(&mut s);
    cg::toggle_collect(&mut s);
    s.observe_cost(10);
    assert_ne!(s.collected_cost(), 0);
}

#[test]
fn instrumentation() {
    let mut s = tool_session();
    cg::stop_instrumentation(&mut s);
    assert!(!s.is_instrumenting());
    s.observe_cost(10);
    assert_eq!(s.collected_cost(), 0);
    cg::start_instrumentation(&mut s);
    assert!(s.is_instrumenting());
    s.observe_cost(10);
    assert_eq!(s.collected_cost(), 10);
}
