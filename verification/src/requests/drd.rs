//! Requests understood by the happens-before race detector.

use vstd::prelude::*;

use crate::catalog::CG_DRDClientRequest as CR;
use crate::requests::helgrind;
use crate::session::{AnnotationEvent, Session, SessionView};

use super::valgrind::ThreadId;

verus! {

/// Closes the set of [`DRDRegionMode`] implementors.
pub trait Sealed {

}

/// Behaviour of one paired region request of the race detector: which
/// annotations its enter and exit deliver, and what they need of the
/// session.
pub trait DRDRegionMode: Sealed {
    /// What both requests need of the session.
    spec fn mode_ok(v: SessionView) -> bool;

    /// The annotation the enter request delivers for a region.
    spec fn enter_event(addr: usize, size: usize) -> AnnotationEvent;

    /// The annotation the exit request delivers for a region.
    spec fn exit_event(addr: usize, size: usize) -> AnnotationEvent;

    /// Delivers the enter annotation for the region.
    fn enter(s: &mut Session, addr: usize, size: usize)
        requires
            Self::mode_ok(old(s)@),
        ensures
            final(s)@ == (if old(s)@.under_tool() {
                SessionView {
                    annotations: old(s)@.annotations.push(Self::enter_event(addr, size)),
                    ..old(s)@
                }
            } else {
                old(s)@
            }),
    ;

    /// Delivers the exit annotation for the region.
    fn exit(s: &mut Session, addr: usize, size: usize)
        requires
            Self::mode_ok(old(s)@),
        ensures
            final(s)@ == (if old(s)@.under_tool() {
                SessionView {
                    annotations: old(s)@.annotations.push(Self::exit_event(addr, size)),
                    ..old(s)@
                }
            } else {
                old(s)@
            }),
    ;
}

/// The mode that ignores races on a region; see [`ignore_var`].
#[derive(Debug)]
pub struct Ignoring;

/// The mode that traces accesses to a region; see [`trace_var`].
#[derive(Debug)]
pub struct Tracing;

impl Sealed for Ignoring {

}

impl Sealed for Tracing {

}

impl DRDRegionMode for Ignoring {
    open spec fn mode_ok(v: SessionView) -> bool {
        &&& CR::CG_ANNOTATE_BENIGN_RACE_SIZED.min_version() <= v.version
        &&& CR::CG_DRD_STOP_IGNORING_VAR.min_version() <= v.version
    }

    open spec fn enter_event(addr: usize, size: usize) -> AnnotationEvent {
        AnnotationEvent::BenignRaceSized(addr, size)
    }

    open spec fn exit_event(addr: usize, size: usize) -> AnnotationEvent {
        AnnotationEvent::StopIgnoringVar(addr, size)
    }

    fn enter(s: &mut Session, addr: usize, size: usize) {
        if s.layers > 0 {
            s.annotations.push(AnnotationEvent::BenignRaceSized(addr, size));
        }
    }

    fn exit(s: &mut Session, addr: usize, size: usize) {
        if s.layers > 0 {
            s.annotations.push(AnnotationEvent::StopIgnoringVar(addr, size));
        }
    }
}

impl DRDRegionMode for Tracing {
    open spec fn mode_ok(v: SessionView) -> bool {
        &&& CR::CG_DRD_TRACE_VAR.min_version() <= v.version
        &&& CR::CG_DRD_STOP_TRACING_VAR.min_version() <= v.version
    }

    open spec fn enter_event(addr: usize, size: usize) -> AnnotationEvent {
        AnnotationEvent::TraceVar(addr, size)
    }

    open spec fn exit_event(addr: usize, size: usize) -> AnnotationEvent {
        AnnotationEvent::StopTracingVar(addr, size)
    }

    fn enter(s: &mut Session, addr: usize, size: usize) {
        if s.layers > 0 {
            s.annotations.push(AnnotationEvent::TraceVar(addr, size));
        }
    }

    fn exit(s: &mut Session, addr: usize, size: usize) {
        if s.layers > 0 {
            s.annotations.push(AnnotationEvent::StopTracingVar(addr, size));
        }
    }
}

/// A scoped guard for a paired region request of the race detector: the
/// constructor delivers the mode's enter annotation, [`release`] the exit
/// annotation.  As with [`crate::requests::ScopeGuard`], release consumes
/// the guard and must happen in reverse order of construction.
///
/// [`release`]: DRDRegionGuard::release
#[must_use]
#[derive(Debug)]
pub struct DRDRegionGuard<M: DRDRegionMode> {
    addr: usize,
    size: usize,
    depth: usize,
    marker: core::marker::PhantomData<M>,
}

impl<M: DRDRegionMode> DRDRegionGuard<M> {
    /// First byte of the guarded region.
    pub closed spec fn addr(self) -> usize {
        self.addr
    }

    /// Size of the guarded region in bytes.
    pub closed spec fn size(self) -> usize {
        self.size
    }

    /// The guard-nesting depth at which this guard was opened.
    pub closed spec fn depth(self) -> usize {
        self.depth
    }

    /// Delivers the mode's enter annotation for the region and opens a
    /// guard for the matching exit.
    pub fn new(s: &mut Session, addr: usize, size: usize) -> (g: DRDRegionGuard<M>)
        requires
            M::mode_ok(old(s)@),
            old(s)@.scopes < usize::MAX,
        ensures
            g.addr() == addr,
            g.size() == size,
            g.depth() == old(s)@.scopes,
            final(s)@ == (SessionView {
                scopes: (old(s)@.scopes + 1) as usize,
                annotations: if old(s)@.under_tool() {
                    old(s)@.annotations.push(M::enter_event(addr, size))
                } else {
                    old(s)@.annotations
                },
                ..old(s)@
            }),
    {
        M::enter(s, addr, size);
        s.scopes = s.scopes + 1;
        DRDRegionGuard { addr, size, depth: s.scopes - 1, marker: core::marker::PhantomData }
    }

    /// Delivers the mode's exit annotation and closes the guard.  The guard
    /// must be the innermost one still open.
    pub fn release(self, s: &mut Session)
        requires
            M::mode_ok(old(s)@),
            old(s)@.scopes == self.depth() + 1,
        ensures
            final(s)@ == (SessionView {
                scopes: self.depth(),
                annotations: if old(s)@.under_tool() {
                    old(s)@.annotations.push(M::exit_event(self.addr(), self.size()))
                } else {
                    old(s)@.annotations
                },
                ..old(s)@
            }),
    {
        M::exit(s, self.addr, self.size);
        s.scopes = s.scopes - 1;
    }
}

/// Returns the tool's identifier for the current thread; zero natively.
pub fn valgrind_threadid(s: &Session) -> (tid: ThreadId)
    requires
        CR::CG_DRD_GET_VALGRIND_THREADID.min_version() <= s@.version,
    ensures
        tid == (if s@.under_tool() {
            s@.thread_id
        } else {
            0
        }),
{
    if s.layers > 0 {
        s.thread_id
    } else {
        0
    }
}

/// Returns the race detector's own identifier for the current thread; zero
/// natively.
pub fn drd_threadid(s: &Session) -> (tid: ThreadId)
    requires
        CR::CG_DRD_GET_DRD_THREADID.min_version() <= s@.version,
    ensures
        tid == (if s@.under_tool() {
            s@.drd_thread_id
        } else {
            0
        }),
{
    if s.layers > 0 {
        s.drd_thread_id
    } else {
        0
    }
}

/// Ignores races on the `size` bytes at `addr` until the returned guard is
/// released.
pub fn ignore_var(s: &mut Session, addr: usize, size: usize) -> (g: DRDRegionGuard<Ignoring>)
    requires
        CR::CG_ANNOTATE_BENIGN_RACE_SIZED.min_version() <= old(s)@.version,
        CR::CG_DRD_STOP_IGNORING_VAR.min_version() <= old(s)@.version,
        old(s)@.scopes < usize::MAX,
    ensures
        g.addr() == addr,
        g.size() == size,
        g.depth() == old(s)@.scopes,
        final(s)@ == (SessionView {
            scopes: (old(s)@.scopes + 1) as usize,
            annotations: if old(s)@.under_tool() {
                old(s)@.annotations.push(AnnotationEvent::BenignRaceSized(addr, size))
            } else {
                old(s)@.annotations
            },
            ..old(s)@
        }),
{
    DRDRegionGuard::new(s, addr, size)
}

/// Traces every access to the `size` bytes at `addr` until the returned
/// guard is released.
pub fn trace_var(s: &mut Session, addr: usize, size: usize) -> (g: DRDRegionGuard<Tracing>)
    requires
        CR::CG_DRD_TRACE_VAR.min_version() <= old(s)@.version,
        CR::CG_DRD_STOP_TRACING_VAR.min_version() <= old(s)@.version,
        old(s)@.scopes < usize::MAX,
    ensures
        g.addr() == addr,
        g.size() == size,
        g.depth() == old(s)@.scopes,
        final(s)@ == (SessionView {
            scopes: (old(s)@.scopes + 1) as usize,
            annotations: if old(s)@.under_tool() {
                old(s)@.annotations.push(AnnotationEvent::TraceVar(addr, size))
            } else {
                old(s)@.annotations
            },
            ..old(s)@
        }),
{
    DRDRegionGuard::new(s, addr, size)
}

/// Traces every access to the byte at `addr` until the returned guard is
/// released.
pub fn annotate_trace_memory(s: &mut Session, addr: usize) -> (g: DRDRegionGuard<Tracing>)
    requires
        CR::CG_DRD_TRACE_VAR.min_version() <= old(s)@.version,
        CR::CG_DRD_STOP_TRACING_VAR.min_version() <= old(s)@.version,
        old(s)@.scopes < usize::MAX,
    ensures
        g.addr() == addr,
        g.size() == 1,
        g.depth() == old(s)@.scopes,
        final(s)@ == (SessionView {
            scopes: (old(s)@.scopes + 1) as usize,
            annotations: if old(s)@.under_tool() {
                old(s)@.annotations.push(AnnotationEvent::TraceVar(addr, 1))
            } else {
                old(s)@.annotations
            },
            ..old(s)@
        }),
{
    DRDRegionGuard::new(s, addr, 1)
}

/// Reports a happens-before edge source at `addr`.
pub fn annotate_happens_before(s: &mut Session, addr: usize)
    requires
        crate::catalog::CG_HelgrindClientRequest::CG_ANNOTATE_HAPPENS_BEFORE.min_version() <= old(s)@.version,
    ensures
        final(s)@ == (if old(s)@.under_tool() {
            SessionView {
                annotations: old(s)@.annotations.push(AnnotationEvent::HappensBefore(addr)),
                ..old(s)@
            }
        } else {
            old(s)@
        }),
{
    helgrind::annotate_addr(s, addr, helgrind::Annotation::HappensBefore);
}

/// Reports a happens-before edge sink at `addr`.
pub fn annotate_happens_after(s: &mut Session, addr: usize)
    requires
        crate::catalog::CG_HelgrindClientRequest::CG_ANNOTATE_HAPPENS_AFTER.min_version() <= old(s)@.version,
    ensures
        final(s)@ == (if old(s)@.under_tool() {
            SessionView {
                annotations: old(s)@.annotations.push(AnnotationEvent::HappensAfter(addr)),
                ..old(s)@
            }
        } else {
            old(s)@
        }),
{
    helgrind::annotate_addr(s, addr, helgrind::Annotation::HappensAfter);
}

/// Reports that a reader-writer lock was created at `addr`.
pub fn annotate_rwlock_create(s: &mut Session, addr: usize)
    requires
        crate::catalog::CG_HelgrindClientRequest::CG_ANNOTATE_RWLOCK_CREATE.min_version() <= old(s)@.version,
    ensures
        final(s)@ == (if old(s)@.under_tool() {
            SessionView {
                annotations: old(s)@.annotations.push(AnnotationEvent::RwLockCreate(addr)),
                ..old(s)@
            }
        } else {
            old(s)@
        }),
{
    helgrind::annotate_addr(s, addr, helgrind::Annotation::RwLockCreate);
}

/// Reports that the lock at `addr` is about to be destroyed.
pub fn annotate_rwlock_destroy(s: &mut Session, addr: usize)
    requires
        crate::catalog::CG_HelgrindClientRequest::CG_ANNOTATE_RWLOCK_DESTROY.min_version() <= old(s)@.version,
    ensures
        final(s)@ == (if old(s)@.under_tool() {
            SessionView {
                annotations: old(s)@.annotations.push(AnnotationEvent::RwLockDestroy(addr)),
                ..old(s)@
            }
        } else {
            old(s)@
        }),
{
    helgrind::annotate_addr(s, addr, helgrind::Annotation::RwLockDestroy);
}

/// Reports that the lock at `addr` was acquired, as a writer lock if
/// `writer`.
pub fn annotate_rwlock_acquired(s: &mut Session, addr: usize, writer: bool)
    requires
        crate::catalog::CG_HelgrindClientRequest::CG_ANNOTATE_RWLOCK_ACQUIRED.min_version() <= old(s)@.version,
    ensures
        final(s)@ == (if old(s)@.under_tool() {
            SessionView {
                annotations: old(s)@.annotations.push(
                    AnnotationEvent::RwLockAcquired(addr, writer),
                ),
                ..old(s)@
            }
        } else {
            old(s)@
        }),
{
    helgrind::annotate_addr(s, addr, helgrind::Annotation::RwLockAcquired(writer));
}

/// Reports that the lock at `addr` is about to be released, as a writer
/// lock if `writer`.
pub fn annotate_rwlock_released(s: &mut Session, addr: usize, writer: bool)
    requires
        crate::catalog::CG_HelgrindClientRequest::CG_ANNOTATE_RWLOCK_RELEASED.min_version() <= old(s)@.version,
    ensures
        final(s)@ == (if old(s)@.under_tool() {
            SessionView {
                annotations: old(s)@.annotations.push(
                    AnnotationEvent::RwLockReleased(addr, writer),
                ),
                ..old(s)@
            }
        } else {
            old(s)@
        }),
{
    helgrind::annotate_addr(s, addr, helgrind::Annotation::RwLockReleased(writer));
}

/// Declares races on the typed object at `addr` of `size` bytes benign.
pub fn annotate_benign_race(s: &mut Session, addr: usize, size: usize)
    requires
        CR::CG_ANNOTATE_BENIGN_RACE_SIZED.min_version() <= old(s)@.version,
    ensures
        final(s)@ == (if old(s)@.under_tool() {
            SessionView {
                annotations: old(s)@.annotations.push(
                    AnnotationEvent::BenignRaceSized(addr, size),
                ),
                ..old(s)@
            }
        } else {
            old(s)@
        }),
{
    annotate_benign_race_sized(s, addr, size);
}

/// Declares races on the `size` bytes at `addr` benign.
pub fn annotate_benign_race_sized(s: &mut Session, addr: usize, size: usize)
    requires
        CR::CG_ANNOTATE_BENIGN_RACE_SIZED.min_version() <= old(s)@.version,
    ensures
        final(s)@ == (if old(s)@.under_tool() {
            SessionView {
                annotations: old(s)@.annotations.push(
                    AnnotationEvent::BenignRaceSized(addr, size),
                ),
                ..old(s)@
            }
        } else {
            old(s)@
        }),
{
    if s.layers > 0 {
        s.annotations.push(AnnotationEvent::BenignRaceSized(addr, size));
    }
}

/// Starts (true) or stops (false) ignoring loads by this thread.
pub fn annotate_ignore_reads(s: &mut Session, ignore: bool)
    requires
        CR::CG_ANNOTATE_IGNORE_READS_BEGIN.min_version() <= old(s)@.version,
    ensures
        final(s)@ == (if old(s)@.under_tool() {
            SessionView {
                annotations: old(s)@.annotations.push(AnnotationEvent::IgnoreReads(ignore)),
                ..old(s)@
            }
        } else {
            old(s)@
        }),
{
    if s.layers > 0 {
        s.annotations.push(AnnotationEvent::IgnoreReads(ignore));
    }
}

/// Starts (true) or stops (false) ignoring stores by this thread.
pub fn annotate_ignore_writes(s: &mut Session, ignore: bool)
    requires
        CR::CG_ANNOTATE_IGNORE_WRITES_BEGIN.min_version() <= old(s)@.version,
    ensures
        final(s)@ == (if old(s)@.under_tool() {
            SessionView {
                annotations: old(s)@.annotations.push(AnnotationEvent::IgnoreWrites(ignore)),
                ..old(s)@
            }
        } else {
            old(s)@
        }),
{
    if s.layers > 0 {
        s.annotations.push(AnnotationEvent::IgnoreWrites(ignore));
    }
}

/// Starts (true) or stops (false) ignoring both loads and stores by this
/// thread: the loads annotation is delivered first, then the stores one.
pub fn annotate_ignore_read_and_writes(s: &mut Session, ignore: bool)
    requires
        CR::CG_ANNOTATE_IGNORE_READS_BEGIN.min_version() <= old(s)@.version,
        CR::CG_ANNOTATE_IGNORE_WRITES_BEGIN.min_version() <= old(s)@.version,
    ensures
        final(s)@ == (if old(s)@.under_tool() {
            SessionView {
                annotations: old(s)@.annotations.push(AnnotationEvent::IgnoreReads(ignore)).push(
                    AnnotationEvent::IgnoreWrites(ignore),
                ),
                ..old(s)@
            }
        } else {
            old(s)@
        }),
{
    annotate_ignore_reads(s, ignore);
    annotate_ignore_writes(s, ignore);
}

/// Reports that the `size` bytes at `addr` are freshly allocated memory.
pub fn annotate_new_memory(s: &mut Session, addr: usize, size: usize)
    requires
        CR::CG_ANNOTATE_NEW_MEMORY.min_version() <= old(s)@.version,
    ensures
        final(s)@ == (if old(s)@.under_tool() {
            SessionView {
                annotations: old(s)@.annotations.push(AnnotationEvent::NewMemory(addr, size)),
                ..old(s)@
            }
        } else {
            old(s)@
        }),
{
    if s.layers > 0 {
        s.annotations.push(AnnotationEvent::NewMemory(addr, size));
    }
}

/// Announces a name for the current thread to the race detector.
pub fn annotate_thread_name(s: &mut Session, name: String)
    requires
        CR::CG_ANNOTATE_THREAD_NAME.min_version() <= old(s)@.version,
    ensures
        final(s)@ == (if old(s)@.under_tool() {
            SessionView { thread_name: Some(name), ..old(s)@ }
        } else {
            old(s)@
        }),
{
    if s.layers > 0 {
        s.thread_name = Some(name);
    }
}

} // verus!
