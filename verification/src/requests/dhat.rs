//! Requests understood by the heap-profiling tool.

use vstd::prelude::*;

use crate::catalog::CG_DHATClientRequest as CR;
use crate::session::{AnnotationEvent, Session, SessionView};

verus! {

/// The weight an ad-hoc event carries when none is given.
pub const AD_HOC_EVENT_DEFAULT_WEIGHT: usize = 1;

/// The weight an ad-hoc event of the given argument carries.
pub open spec fn event_weight(weight: Option<usize>) -> usize {
    match weight {
        Some(w) => w,
        None => AD_HOC_EVENT_DEFAULT_WEIGHT,
    }
}

/// Notes one ad-hoc event of the given `weight` (one unit when no weight is
/// meaningful): the profiler counts the event and adds its weight.
pub fn ad_hoc_event(s: &mut Session, weight: Option<usize>)
    requires
        CR::CG_DHAT_AD_HOC_EVENT.min_version() <= old(s)@.version,
        old(s)@.dhat_events < usize::MAX,
        old(s)@.dhat_units + event_weight(weight) <= usize::MAX,
    ensures
        final(s)@ == (if old(s)@.under_tool() {
            SessionView {
                dhat_events: (old(s)@.dhat_events + 1) as usize,
                dhat_units: (old(s)@.dhat_units + event_weight(weight)) as usize,
                ..old(s)@
            }
        } else {
            old(s)@
        }),
{
    if s.layers > 0 {
        let w = match weight {
            Some(w) => w,
            None => AD_HOC_EVENT_DEFAULT_WEIGHT,
        };
        s.dhat_events = s.dhat_events + 1;
        s.dhat_units = s.dhat_units + w;
    }
}

/// Asks the profiler to keep an access-count histogram for the block at
/// `addr`.
pub fn histogram_memory(s: &mut Session, addr: usize)
    requires
        CR::CG_DHAT_HISTOGRAM_MEMORY.min_version() <= old(s)@.version,
    ensures
        final(s)@ == (if old(s)@.under_tool() {
            SessionView {
                annotations: old(s)@.annotations.push(AnnotationEvent::HistogramMemory(addr)),
                ..old(s)@
            }
        } else {
            old(s)@
        }),
{
    if s.layers > 0 {
        s.annotations.push(AnnotationEvent::HistogramMemory(addr));
    }
}

} // verus!
