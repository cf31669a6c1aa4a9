//! Requests understood by the call-graph profiling tool.

use vstd::prelude::*;

use crate::catalog::CG_CallgrindClientRequest as CR;
use crate::session::{Session, SessionView};

verus! {

/// Dumps the current state of the cost centres and zeroes them afterwards.
/// A given `reason` is written into the profile dump's description field.
pub fn dump_stats(s: &mut Session, reason: Option<String>)
    requires
        CR::CG_CALLGRIND_DUMP_STATS.min_version() <= old(s)@.version,
        CR::CG_CALLGRIND_DUMP_STATS_AT.min_version() <= old(s)@.version,
    ensures
        final(s)@ == (if old(s)@.under_tool() {
            SessionView { cl_dumps: old(s)@.cl_dumps.push(reason), cl_cost: 0, ..old(s)@ }
        } else {
            old(s)@
        }),
{
    if s.layers > 0 {
        s.cl_dumps.push(reason);
        s.cl_cost = 0;
    }
}

/// Zeroes the current cost centres.
pub fn zero_stats(s: &mut Session)
    requires
        CR::CG_CALLGRIND_ZERO_STATS.min_version() <= old(s)@.version,
    ensures
        final(s)@ == (if old(s)@.under_tool() {
            SessionView { cl_cost: 0, ..old(s)@ }
        } else {
            old(s)@
        }),
{
    if s.layers > 0 {
        s.cl_cost = 0;
    }
}

/// Toggles the collection state: whether events are noted in the cost
/// centres or ignored.
pub fn toggle_collect(s: &mut Session)
    requires
        CR::CG_CALLGRIND_TOGGLE_COLLECT.min_version() <= old(s)@.version,
    ensures
        final(s)@ == (if old(s)@.under_tool() {
            SessionView { cl_collecting: !old(s)@.cl_collecting, ..old(s)@ }
        } else {
            old(s)@
        }),
{
    if s.layers > 0 {
        s.cl_collecting = !s.cl_collecting;
    }
}

/// Starts full instrumentation if it is not already switched on.
pub fn start_instrumentation(s: &mut Session)
    requires
        CR::CG_CALLGRIND_START_INSTRUMENTATION.min_version() <= old(s)@.version,
    ensures
        final(s)@ == (if old(s)@.under_tool() {
            SessionView { cl_instrumenting: true, ..old(s)@ }
        } else {
            old(s)@
        }),
{
    if s.layers > 0 {
        s.cl_instrumenting = true;
    }
}

/// Stops full instrumentation if it is not already switched off.
pub fn stop_instrumentation(s: &mut Session)
    requires
        CR::CG_CALLGRIND_STOP_INSTRUMENTATION.min_version() <= old(s)@.version,
    ensures
        final(s)@ == (if old(s)@.under_tool() {
            SessionView { cl_instrumenting: false, ..old(s)@ }
        } else {
            old(s)@
        }),
{
    if s.layers > 0 {
        s.cl_instrumenting = false;
    }
}

} // verus!
