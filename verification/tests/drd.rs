use crabgrind::drd as dd;
use crabgrind::session::{AnnotationEvent, Session};

fn tool_session() -> Session {
    Session::new(3, 22, 1, 16)
}

#[test]
fn thread_id() {
    let mut s = tool_session();
    s.set_thread_id(2);
    s.set_drd_thread_id(2);
    assert_eq!(dd::drd_threadid(&s), 2);
    assert_eq!(dd::valgrind_threadid(&s), 2);
}

#[test]
fn thread_id_native() {
    let mut s = Session::new(3, 22, 0, 0);
    s.set_thread_id(2);
    s.set_drd_thread_id(2);
    assert_eq!(dd::drd_threadid(&s), 0);
    assert_eq!(dd::valgrind_threadid(&s), 0);
}

#[test]
fn ignore_var() {
    let mut s = tool_session();
    let guard = dd::ignore_var(&mut s, 4, 2);
    assert!(matches!(s.annotation(0), AnnotationEvent::BenignRaceSized(4, 2)));
    guard.release(&mut s);
    assert!(matches!(s.annotation(1), AnnotationEvent::StopIgnoringVar(4, 2)));
}

#[test]
fn trace_var() {
    let mut s = tool_session();
    let guard = dd::trace_var(&mut s, 0, 4);
    assert!(matches!(s.annotation(0), AnnotationEvent::TraceVar(0, 4)));
    guard.release(&mut s);
}

#[test]
fn trace_var_toggle() {
    let mut s = tool_session();
    let guard = dd::trace_var(&mut s, 0, 4);
    guard.release(&mut s);
    assert!(matches!(s.annotation(1), AnnotationEvent::StopTracingVar(0, 4)));
}

#[test]
fn annotate_trace_memory() {
    let mut s = tool_session();
    let guard = dd::annotate_trace_memory(&mut s, 3);
    assert!(matches!(s.annotation(0), AnnotationEvent::TraceVar(3, 1)));
    guard.release(&mut s);
    assert!(matches!(s.annotation(1), AnnotationEvent::StopTracingVar(3, 1)));
}

#[test]
fn annotate_reads_and_writes() {
    let mut s = tool_session();
    dd::annotate_ignore_read_and_writes(&mut s, true);
    assert!(matches!(s.annotation(0), AnnotationEvent::IgnoreReads(true)));
    assert!(matches!(s.annotation(1), AnnotationEvent::IgnoreWrites(true)));
    assert_eq!(s.annotations_len(), 2);
}

#[test]
fn benign_race() {
    let mut s = tool_session();
    dd::annotate_benign_race(&mut s, 8, 2);
    dd::annotate_benign_race_sized(&mut s, 8, 2);
    assert!(matches!(s.annotation(0), AnnotationEvent::BenignRaceSized(8, 2)));
    assert!(matches!(s.annotation(1), AnnotationEvent::BenignRaceSized(8, 2)));
}

#[test]
fn drd_happens_edges() {
    let mut s = tool_session();
    dd::annotate_happens_before(&mut s, 12);
    dd::annotate_happens_after(&mut s, 12);
    dd::annotate_new_memory(&mut s, 0, 8);
    assert!(matches!(s.annotation(0), AnnotationEvent::HappensBefore(12)));
    assert!(matches!(s.annotation(1), AnnotationEvent::HappensAfter(12)));
    assert!(matches!(s.annotation(2), AnnotationEvent::NewMemory(0, 8)));
}

#[test]
fn drd_rwlock_annotations() {
    let mut s = tool_session();
    dd::annotate_rwlock_create(&mut s, 5);
    dd::annotate_rwlock_acquired(&mut s, 5, true);
    dd::annotate_rwlock_released(&mut s, 5, true);
    dd::annotate_rwlock_destroy(&mut s, 5);
    assert!(matches!(s.annotation(0), AnnotationEvent::RwLockCreate(5)));
    assert!(matches!(s.annotation(1), AnnotationEvent::RwLockAcquired(5, true)));
    assert!(matches!(s.annotation(2), AnnotationEvent::RwLockReleased(5, true)));
    assert!(matches!(s.annotation(3), AnnotationEvent::RwLockDestroy(5)));
}
