use crabgrind::helgrind as hg;
use crabgrind::session::{AnnotationEvent, Session};

fn tool_session() -> Session {
    Session::new(3, 22, 1, 16)
}

#[test]
fn clean_memory() {
    let mut s = tool_session();
    hg::clean_memory(&mut s, 2, 2);
    assert!(matches!(s.annotation(0), AnnotationEvent::CleanMemory(2, 2)));
}

#[test]
fn clean_ref() {
    let mut s = tool_session();
    hg::clean_ref(&mut s, 4, 8);
    assert!(matches!(s.annotation(0), AnnotationEvent::CleanMemory(4, 8)));
}

#[test]
fn annotate_happens() {
    let mut s = tool_session();
    hg::annotate_addr(&mut s, 0, hg::Annotation::HappensAfter);
    hg::annotate_addr(&mut s, 0, hg::Annotation::HappensBefore);
    hg::annotate_addr(&mut s, 0, hg::Annotation::HappensBeforeForgetAll);
    assert!(matches!(s.annotation(0), AnnotationEvent::HappensAfter(0)));
    assert!(matches!(s.annotation(1), AnnotationEvent::HappensBefore(0)));
    assert!(matches!(s.annotation(2), AnnotationEvent::HappensBeforeForgetAll(0)));
}

#[test]
fn annotate_rwlock() {
    let mut s = tool_session();
    let var = 7;
    hg::annotate_addr(&mut s, var, hg::Annotation::RwLockCreate);
    hg::annotate_addr(&mut s, var, hg::Annotation::RwLockAcquired(true));
    hg::annotate_addr(&mut s, var, hg::Annotation::RwLockReleased(true));
    hg::annotate_addr(&mut s, var, hg::Annotation::RwLockAcquired(false));
    hg::annotate_addr(&mut s, var, hg::Annotation::RwLockReleased(false));
    hg::annotate_addr(&mut s, var, hg::Annotation::RwLockDestroy);
    assert!(matches!(s.annotation(0), AnnotationEvent::RwLockCreate(7)));
    assert!(matches!(s.annotation(1), AnnotationEvent::RwLockAcquired(7, true)));
    assert!(matches!(s.annotation(2), AnnotationEvent::RwLockReleased(7, true)));
    assert!(matches!(s.annotation(3), AnnotationEvent::RwLockAcquired(7, false)));
    assert!(matches!(s.annotation(4), AnnotationEvent::RwLockReleased(7, false)));
    assert!(matches!(s.annotation(5), AnnotationEvent::RwLockDestroy(7)));
}

#[test]
fn annotate_new() {
    let mut s = tool_session();
    hg::annotate_addr(&mut s, 1, hg::Annotation::New(4));
    assert!(matches!(s.annotation(0), AnnotationEvent::CleanMemory(1, 4)));
}
