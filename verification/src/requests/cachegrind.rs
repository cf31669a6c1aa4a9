//! Requests understood by the cache-simulation tool.

use vstd::prelude::*;

use crate::catalog::CG_CachegrindClientRequest as CR;
use crate::session::{Session, SessionView};

verus! {

/// Starts full instrumentation if it is not already switched on.
pub fn start_instrumentation(s: &mut Session)
    requires
        CR::CG_CACHEGRIND_START_INSTRUMENTATION.min_version() <= old(s)@.version,
    ensures
        final(s)@ == (if old(s)@.under_tool() {
            SessionView { cg_instrumenting: true, ..old(s)@ }
        } else {
            old(s)@
        }),
{
    if s.layers > 0 {
        s.cg_instrumenting = true;
    }
}

/// Stops full instrumentation if it is not already switched off.
pub fn stop_instrumentation(s: &mut Session)
    requires
        CR::CG_CACHEGRIND_STOP_INSTRUMENTATION.min_version() <= old(s)@.version,
    ensures
        final(s)@ == (if old(s)@.under_tool() {
            SessionView { cg_instrumenting: false, ..old(s)@ }
        } else {
            old(s)@
        }),
{
    if s.layers > 0 {
        s.cg_instrumenting = false;
    }
}

} // verus!
