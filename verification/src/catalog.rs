//! The catalog of client requests, one enumeration per tool, and the minimum
//! tool version that defines each request.
//!
//! A request sent to a tool older than the version that introduced it does
//! not exist on the wire at all; the functions in [`crate::requests`]
//! therefore require, of the session they act on, a tool at least as new as
//! the request they deliver.  Versions are encoded as `major * 100 + minor`.

use vstd::prelude::*;

verus! {

/// Encodes a tool version as `major * 100 + minor`, the form the
/// per-request minimums in this catalog are stated in.
pub fn version_code(major: u32, minor: u32) -> (code: u32)
    requires
        major * 100 + minor <= u32::MAX,
    ensures
        code == major * 100 + minor,
{
    major * 100 + minor
}

/// Requests understood by the tool's core.
#[allow(non_camel_case_types)]
#[derive(Clone, Copy, Debug, PartialEq, Eq, Structural, Hash)]
pub enum CG_ValgrindClientRequest {
    CG_RUNNING_ON_VALGRIND,
    CG_VALGRIND_DISCARD_TRANSLATIONS,
    CG_VALGRIND_NON_SIMD_CALL0,
    CG_VALGRIND_NON_SIMD_CALL1,
    CG_VALGRIND_NON_SIMD_CALL2,
    CG_VALGRIND_NON_SIMD_CALL3,
    CG_VALGRIND_COUNT_ERRORS,
    CG_VALGRIND_MONITOR_COMMAND,
    CG_VALGRIND_CLO_CHANGE,
    CG_VALGRIND_MALLOCLIKE_BLOCK,
    CG_VALGRIND_RESIZEINPLACE_BLOCK,
    CG_VALGRIND_FREELIKE_BLOCK,
    CG_VALGRIND_CREATE_MEMPOOL,
    CG_VALGRIND_DESTROY_MEMPOOL,
    CG_VALGRIND_MEMPOOL_ALLOC,
    CG_VALGRIND_MEMPOOL_FREE,
    CG_VALGRIND_MEMPOOL_TRIM,
    CG_VALGRIND_MOVE_MEMPOOL,
    CG_VALGRIND_MEMPOOL_CHANGE,
    CG_VALGRIND_MEMPOOL_EXISTS,
    CG_VALGRIND_STACK_REGISTER,
    CG_VALGRIND_STACK_DEREGISTER,
    CG_VALGRIND_STACK_CHANGE,
    CG_VALGRIND_LOAD_PDB_DEBUGINFO,
    CG_VALGRIND_MAP_IP_TO_SRCLOC,
    CG_VALGRIND_ENABLE_ERROR_REPORTING,
}

impl CG_ValgrindClientRequest {
    /// The oldest tool version, as `major * 100 + minor`, defining this request.
    pub open spec fn min_version(self) -> u32 {
        match self {
            Self::CG_RUNNING_ON_VALGRIND => 300,
            Self::CG_VALGRIND_DISCARD_TRANSLATIONS => 300,
            Self::CG_VALGRIND_NON_SIMD_CALL0 => 300,
            Self::CG_VALGRIND_NON_SIMD_CALL1 => 300,
            Self::CG_VALGRIND_NON_SIMD_CALL2 => 300,
            Self::CG_VALGRIND_NON_SIMD_CALL3 => 300,
            Self::CG_VALGRIND_COUNT_ERRORS => 300,
            Self::CG_VALGRIND_MONITOR_COMMAND => 306,
            Self::CG_VALGRIND_CLO_CHANGE => 310,
            Self::CG_VALGRIND_MALLOCLIKE_BLOCK => 300,
            Self::CG_VALGRIND_RESIZEINPLACE_BLOCK => 300,
            Self::CG_VALGRIND_FREELIKE_BLOCK => 300,
            Self::CG_VALGRIND_CREATE_MEMPOOL => 300,
            Self::CG_VALGRIND_DESTROY_MEMPOOL => 300,
            Self::CG_VALGRIND_MEMPOOL_ALLOC => 300,
            Self::CG_VALGRIND_MEMPOOL_FREE => 300,
            Self::CG_VALGRIND_MEMPOOL_TRIM => 300,
            Self::CG_VALGRIND_MOVE_MEMPOOL => 300,
            Self::CG_VALGRIND_MEMPOOL_CHANGE => 300,
            Self::CG_VALGRIND_MEMPOOL_EXISTS => 300,
            Self::CG_VALGRIND_STACK_REGISTER => 300,
            Self::CG_VALGRIND_STACK_DEREGISTER => 300,
            Self::CG_VALGRIND_STACK_CHANGE => 300,
            Self::CG_VALGRIND_LOAD_PDB_DEBUGINFO => 306,
            Self::CG_VALGRIND_MAP_IP_TO_SRCLOC => 306,
            Self::CG_VALGRIND_ENABLE_ERROR_REPORTING => 300,
        }
    }

    /// The oldest tool version defining this request, as an executable value.
    pub fn required_version(self) -> (v: u32)
        ensures
            v == self.min_version(),
    {
        match self {
            Self::CG_RUNNING_ON_VALGRIND => 300,
            Self::CG_VALGRIND_DISCARD_TRANSLATIONS => 300,
            Self::CG_VALGRIND_NON_SIMD_CALL0 => 300,
            Self::CG_VALGRIND_NON_SIMD_CALL1 => 300,
            Self::CG_VALGRIND_NON_SIMD_CALL2 => 300,
            Self::CG_VALGRIND_NON_SIMD_CALL3 => 300,
            Self::CG_VALGRIND_COUNT_ERRORS => 300,
            Self::CG_VALGRIND_MONITOR_COMMAND => 306,
            Self::CG_VALGRIND_CLO_CHANGE => 310,
            Self::CG_VALGRIND_MALLOCLIKE_BLOCK => 300,
            Self::CG_VALGRIND_RESIZEINPLACE_BLOCK => 300,
            Self::CG_VALGRIND_FREELIKE_BLOCK => 300,
            Self::CG_VALGRIND_CREATE_MEMPOOL => 300,
            Self::CG_VALGRIND_DESTROY_MEMPOOL => 300,
            Self::CG_VALGRIND_MEMPOOL_ALLOC => 300,
            Self::CG_VALGRIND_MEMPOOL_FREE => 300,
            Self::CG_VALGRIND_MEMPOOL_TRIM => 300,
            Self::CG_VALGRIND_MOVE_MEMPOOL => 300,
            Self::CG_VALGRIND_MEMPOOL_CHANGE => 300,
            Self::CG_VALGRIND_MEMPOOL_EXISTS => 300,
            Self::CG_VALGRIND_STACK_REGISTER => 300,
            Self::CG_VALGRIND_STACK_DEREGISTER => 300,
            Self::CG_VALGRIND_STACK_CHANGE => 300,
            Self::CG_VALGRIND_LOAD_PDB_DEBUGINFO => 306,
            Self::CG_VALGRIND_MAP_IP_TO_SRCLOC => 306,
            Self::CG_VALGRIND_ENABLE_ERROR_REPORTING => 300,
        }
    }

    /// The feature-detection form of the version gate: whether a tool
    /// reporting `version` (encoded `major * 100 + minor`) defines this request.
    pub fn supported_by(self, version: u32) -> (ok: bool)
        ensures
            ok == (self.min_version() <= version),
    {
        self.required_version() <= version
    }
}

/// Requests understood by the call-graph profiling tool.
#[allow(non_camel_case_types)]
#[derive(Clone, Copy, Debug, PartialEq, Eq, Structural, Hash)]
pub enum CG_CallgrindClientRequest {
    CG_CALLGRIND_DUMP_STATS,
    CG_CALLGRIND_DUMP_STATS_AT,
    CG_CALLGRIND_ZERO_STATS,
    CG_CALLGRIND_TOGGLE_COLLECT,
    CG_CALLGRIND_START_INSTRUMENTATION,
    CG_CALLGRIND_STOP_INSTRUMENTATION,
}

impl CG_CallgrindClientRequest {
    /// The oldest tool version, as `major * 100 + minor`, defining this request.
    pub open spec fn min_version(self) -> u32 {
        match self {
            Self::CG_CALLGRIND_DUMP_STATS => 307,
            Self::CG_CALLGRIND_DUMP_STATS_AT => 307,
            Self::CG_CALLGRIND_ZERO_STATS => 307,
            Self::CG_CALLGRIND_TOGGLE_COLLECT => 307,
            Self::CG_CALLGRIND_START_INSTRUMENTATION => 311,
            Self::CG_CALLGRIND_STOP_INSTRUMENTATION => 311,
        }
    }

    /// The oldest tool version defining this request, as an executable value.
    pub fn required_version(self) -> (v: u32)
        ensures
            v == self.min_version(),
    {
        match self {
            Self::CG_CALLGRIND_DUMP_STATS => 307,
            Self::CG_CALLGRIND_DUMP_STATS_AT => 307,
            Self::CG_CALLGRIND_ZERO_STATS => 307,
            Self::CG_CALLGRIND_TOGGLE_COLLECT => 307,
            Self::CG_CALLGRIND_START_INSTRUMENTATION => 311,
            Self::CG_CALLGRIND_STOP_INSTRUMENTATION => 311,
        }
    }

    /// Whether a tool reporting `version` defines this request.
    pub fn supported_by(self, version: u32) -> (ok: bool)
        ensures
            ok == (self.min_version() <= version),
    {
        self.required_version() <= version
    }
}

/// Requests understood by the heap-profiling tool.
#[allow(non_camel_case_types)]
#[derive(Clone, Copy, Debug, PartialEq, Eq, Structural, Hash)]
pub enum CG_DHATClientRequest {
    CG_DHAT_AD_HOC_EVENT,
    CG_DHAT_HISTOGRAM_MEMORY,
}

impl CG_DHATClientRequest {
    /// The oldest tool version, as `major * 100 + minor`, defining this request.
    pub open spec fn min_version(self) -> u32 {
        match self {
            Self::CG_DHAT_AD_HOC_EVENT => 315,
            Self::CG_DHAT_HISTOGRAM_MEMORY => 315,
        }
    }

    /// The oldest tool version defining this request, as an executable value.
    pub fn required_version(self) -> (v: u32)
        ensures
            v == self.min_version(),
    {
        match self {
            Self::CG_DHAT_AD_HOC_EVENT => 315,
            Self::CG_DHAT_HISTOGRAM_MEMORY => 315,
        }
    }

    /// Whether a tool reporting `version` defines this request.
    pub fn supported_by(self, version: u32) -> (ok: bool)
        ensures
            ok == (self.min_version() <= version),
    {
        self.required_version() <= version
    }
}

/// Requests understood by the memory-error checking tool.
#[allow(non_camel_case_types)]
#[derive(Clone, Copy, Debug, PartialEq, Eq, Structural, Hash)]
pub enum CG_MemcheckClientRequest {
    CG_VALGRIND_MAKE_MEM_NOACCESS,
    CG_VALGRIND_MAKE_MEM_UNDEFINED,
    CG_VALGRIND_MAKE_MEM_DEFINED,
    CG_VALGRIND_MAKE_MEM_DEFINED_IF_ADDRESSABLE,
    CG_VALGRIND_CHECK_MEM_IS_ADDRESSABLE,
    CG_VALGRIND_CHECK_MEM_IS_DEFINED,
    CG_VALGRIND_DO_LEAK_CHECK,
    CG_VALGRIND_COUNT_LEAKS,
    CG_VALGRIND_COUNT_LEAK_BLOCKS,
    CG_VALGRIND_GET_VBITS,
    CG_VALGRIND_SET_VBITS,
    CG_VALGRIND_CREATE_BLOCK,
    CG_VALGRIND_DISCARD,
    CG_VALGRIND_ENABLE_ADDR_ERROR_REPORTING_IN_RANGE,
    CG_VALGRIND_DISABLE_ADDR_ERROR_REPORTING_IN_RANGE,
}

impl CG_MemcheckClientRequest {
    /// The oldest tool version, as `major * 100 + minor`, defining this request.
    pub open spec fn min_version(self) -> u32 {
        match self {
            Self::CG_VALGRIND_MAKE_MEM_NOACCESS => 300,
            Self::CG_VALGRIND_MAKE_MEM_UNDEFINED => 300,
            Self::CG_VALGRIND_MAKE_MEM_DEFINED => 300,
            Self::CG_VALGRIND_MAKE_MEM_DEFINED_IF_ADDRESSABLE => 306,
            Self::CG_VALGRIND_CHECK_MEM_IS_ADDRESSABLE => 302,
            Self::CG_VALGRIND_CHECK_MEM_IS_DEFINED => 302,
            Self::CG_VALGRIND_DO_LEAK_CHECK => 304,
            Self::CG_VALGRIND_COUNT_LEAKS => 300,
            Self::CG_VALGRIND_COUNT_LEAK_BLOCKS => 302,
            Self::CG_VALGRIND_GET_VBITS => 300,
            Self::CG_VALGRIND_SET_VBITS => 300,
            Self::CG_VALGRIND_CREATE_BLOCK => 302,
            Self::CG_VALGRIND_DISCARD => 302,
            Self::CG_VALGRIND_ENABLE_ADDR_ERROR_REPORTING_IN_RANGE => 304,
            Self::CG_VALGRIND_DISABLE_ADDR_ERROR_REPORTING_IN_RANGE => 304,
        }
    }

    /// The oldest tool version defining this request, as an executable value.
    pub fn required_version(self) -> (v: u32)
        ensures
            v == self.min_version(),
    {
        match self {
            Self::CG_VALGRIND_MAKE_MEM_NOACCESS => 300,
            Self::CG_VALGRIND_MAKE_MEM_UNDEFINED => 300,
            Self::CG_VALGRIND_MAKE_MEM_DEFINED => 300,
            Self::CG_VALGRIND_MAKE_MEM_DEFINED_IF_ADDRESSABLE => 306,
            Self::CG_VALGRIND_CHECK_MEM_IS_ADDRESSABLE => 302,
            Self::CG_VALGRIND_CHECK_MEM_IS_DEFINED => 302,
            Self::CG_VALGRIND_DO_LEAK_CHECK => 304,
            Self::CG_VALGRIND_COUNT_LEAKS => 300,
            Self::CG_VALGRIND_COUNT_LEAK_BLOCKS => 302,
            Self::CG_VALGRIND_GET_VBITS => 300,
            Self::CG_VALGRIND_SET_VBITS => 300,
            Self::CG_VALGRIND_CREATE_BLOCK => 302,
            Self::CG_VALGRIND_DISCARD => 302,
            Self::CG_VALGRIND_ENABLE_ADDR_ERROR_REPORTING_IN_RANGE => 304,
            Self::CG_VALGRIND_DISABLE_ADDR_ERROR_REPORTING_IN_RANGE => 304,
        }
    }

    /// Whether a tool reporting `version` defines this request.
    pub fn supported_by(self, version: u32) -> (ok: bool)
        ensures
            ok == (self.min_version() <= version),
    {
        self.required_version() <= version
    }
}

/// Requests understood by the lock-order race detector.
#[allow(non_camel_case_types)]
#[derive(Clone, Copy, Debug, PartialEq, Eq, Structural, Hash)]
pub enum CG_HelgrindClientRequest {
    CG_VALGRIND_HG_CLEAN_MEMORY,
    CG_ANNOTATE_RWLOCK_CREATE,
    CG_ANNOTATE_RWLOCK_DESTROY,
    CG_ANNOTATE_RWLOCK_ACQUIRED,
    CG_ANNOTATE_RWLOCK_RELEASED,
    CG_ANNOTATE_HAPPENS_BEFORE,
    CG_ANNOTATE_HAPPENS_AFTER,
    CG_ANNOTATE_HAPPENS_BEFORE_FORGET_ALL,
}

impl CG_HelgrindClientRequest {
    /// The oldest tool version, as `major * 100 + minor`, defining this request.
    pub open spec fn min_version(self) -> u32 {
        match self {
            Self::CG_VALGRIND_HG_CLEAN_MEMORY => 302,
            Self::CG_ANNOTATE_RWLOCK_CREATE => 306,
            Self::CG_ANNOTATE_RWLOCK_DESTROY => 306,
            Self::CG_ANNOTATE_RWLOCK_ACQUIRED => 306,
            Self::CG_ANNOTATE_RWLOCK_RELEASED => 306,
            Self::CG_ANNOTATE_HAPPENS_BEFORE => 307,
            Self::CG_ANNOTATE_HAPPENS_AFTER => 307,
            Self::CG_ANNOTATE_HAPPENS_BEFORE_FORGET_ALL => 307,
        }
    }

    /// The oldest tool version defining this request, as an executable value.
    pub fn required_version(self) -> (v: u32)
        ensures
            v == self.min_version(),
    {
        match self {
            Self::CG_VALGRIND_HG_CLEAN_MEMORY => 302,
            Self::CG_ANNOTATE_RWLOCK_CREATE => 306,
            Self::CG_ANNOTATE_RWLOCK_DESTROY => 306,
            Self::CG_ANNOTATE_RWLOCK_ACQUIRED => 306,
            Self::CG_ANNOTATE_RWLOCK_RELEASED => 306,
            Self::CG_ANNOTATE_HAPPENS_BEFORE => 307,
            Self::CG_ANNOTATE_HAPPENS_AFTER => 307,
            Self::CG_ANNOTATE_HAPPENS_BEFORE_FORGET_ALL => 307,
        }
    }

    /// Whether a tool reporting `version` defines this request.
    pub fn supported_by(self, version: u32) -> (ok: bool)
        ensures
            ok == (self.min_version() <= version),
    {
        self.required_version() <= version
    }
}

/// Requests understood by the happens-before race detector.
#[allow(non_camel_case_types)]
#[derive(Clone, Copy, Debug, PartialEq, Eq, Structural, Hash)]
pub enum CG_DRDClientRequest {
    CG_DRD_GET_VALGRIND_THREADID,
    CG_DRD_GET_DRD_THREADID,
    CG_ANNOTATE_BENIGN_RACE_SIZED,
    CG_DRD_STOP_IGNORING_VAR,
    CG_DRD_TRACE_VAR,
    CG_DRD_STOP_TRACING_VAR,
    CG_ANNOTATE_IGNORE_READS_BEGIN,
    CG_ANNOTATE_IGNORE_WRITES_BEGIN,
    CG_ANNOTATE_NEW_MEMORY,
    CG_ANNOTATE_THREAD_NAME,
}

impl CG_DRDClientRequest {
    /// The oldest tool version, as `major * 100 + minor`, defining this request.
    pub open spec fn min_version(self) -> u32 {
        match self {
            Self::CG_DRD_GET_VALGRIND_THREADID => 303,
            Self::CG_DRD_GET_DRD_THREADID => 303,
            Self::CG_ANNOTATE_BENIGN_RACE_SIZED => 305,
            Self::CG_DRD_STOP_IGNORING_VAR => 305,
            Self::CG_DRD_TRACE_VAR => 303,
            Self::CG_DRD_STOP_TRACING_VAR => 303,
            Self::CG_ANNOTATE_IGNORE_READS_BEGIN => 305,
            Self::CG_ANNOTATE_IGNORE_WRITES_BEGIN => 305,
            Self::CG_ANNOTATE_NEW_MEMORY => 305,
            Self::CG_ANNOTATE_THREAD_NAME => 305,
        }
    }

    /// The oldest tool version defining this request, as an executable value.
    pub fn required_version(self) -> (v: u32)
        ensures
            v == self.min_version(),
    {
        match self {
            Self::CG_DRD_GET_VALGRIND_THREADID => 303,
            Self::CG_DRD_GET_DRD_THREADID => 303,
            Self::CG_ANNOTATE_BENIGN_RACE_SIZED => 305,
            Self::CG_DRD_STOP_IGNORING_VAR => 305,
            Self::CG_DRD_TRACE_VAR => 303,
            Self::CG_DRD_STOP_TRACING_VAR => 303,
            Self::CG_ANNOTATE_IGNORE_READS_BEGIN => 305,
            Self::CG_ANNOTATE_IGNORE_WRITES_BEGIN => 305,
            Self::CG_ANNOTATE_NEW_MEMORY => 305,
            Self::CG_ANNOTATE_THREAD_NAME => 305,
        }
    }

    /// Whether a tool reporting `version` defines this request.
    pub fn supported_by(self, version: u32) -> (ok: bool)
        ensures
            ok == (self.min_version() <= version),
    {
        self.required_version() <= version
    }
}

/// Requests understood by the cache-simulation tool.
#[allow(non_camel_case_types)]
#[derive(Clone, Copy, Debug, PartialEq, Eq, Structural, Hash)]
pub enum CG_CachegrindClientRequest {
    CG_CACHEGRIND_START_INSTRUMENTATION,
    CG_CACHEGRIND_STOP_INSTRUMENTATION,
}

impl CG_CachegrindClientRequest {
    /// The oldest tool version, as `major * 100 + minor`, defining this request.
    pub open spec fn min_version(self) -> u32 {
        match self {
            Self::CG_CACHEGRIND_START_INSTRUMENTATION => 322,
            Self::CG_CACHEGRIND_STOP_INSTRUMENTATION => 322,
        }
    }

    /// The oldest tool version defining this request, as an executable value.
    pub fn required_version(self) -> (v: u32)
        ensures
            v == self.min_version(),
    {
        match self {
            Self::CG_CACHEGRIND_START_INSTRUMENTATION => 322,
            Self::CG_CACHEGRIND_STOP_INSTRUMENTATION => 322,
        }
    }

    /// Whether a tool reporting `version` defines this request.
    pub fn supported_by(self, version: u32) -> (ok: bool)
        ensures
            ok == (self.min_version() <= version),
    {
        self.required_version() <= version
    }
}

} // verus!
