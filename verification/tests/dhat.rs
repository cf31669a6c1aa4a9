use crabgrind::dhat as dh;
use crabgrind::session::Session;
use crabgrind::valgrind::count_errors;

#[test]
fn ad_hoc_event() {
    let mut s = Session::new(3, 22, 1, 0);
    dh::ad_hoc_event(&mut s, Some(100));
    dh::ad_hoc_event(&mut s, Some(200));
    assert_eq!(s.ad_hoc_units(), 300);
    assert_eq!(s.ad_hoc_events(), 2);
}

#[test]
fn ad_hoc_event_default_weight() {
    let mut s = Session::new(3, 22, 1, 0);
    dh::ad_hoc_event(&mut s, None);
    assert_eq!(s.ad_hoc_units(), 1);
    assert_eq!(s.ad_hoc_events(), 1);
}

#[test]
fn histogram_memory() {
    let mut s = Session::new(3, 22, 1, 2048);
    dh::histogram_memory(&mut s, 0);
    assert_eq!(count_errors(&s), 0);
}
