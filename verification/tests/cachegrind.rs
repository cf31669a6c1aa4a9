use crabgrind::cachegrind as cg;
use crabgrind::session::Session;

fn tool_session() -> Session {
    Session::new(3, 22, 1, 0)
}

#[test]
fn start_instrumentation() {
    let mut s = tool_session();
    // starting while already running is harmless
    cg::start_instrumentation(&mut s);
    assert!(s.is_cache_instrumenting());
}

#[test]
fn stop_instrumentation() {
    let mut s = tool_session();
    cg::stop_instrumentation(&mut s);
    // a second stop is harmless too
    cg::stop_instrumentation(&mut s);
    assert!(!s.is_cache_instrumenting());
}
