//! Requests understood by the lock-order race detector.
//!
//! What the detector does with an annotation — which races it then reports
//! or forgives — is its own business; the session records the annotations
//! delivered, in order and with their arguments as marshaled.

use vstd::prelude::*;

use crate::catalog::CG_HelgrindClientRequest as CR;
use crate::session::{AnnotationEvent, Session, SessionView};

verus! {

/// A race-detection annotation for one address.
#[derive(Clone, Copy, Debug, PartialEq, Eq, Structural, Hash, PartialOrd, Ord)]
pub enum Annotation {
    /// A happens-before edge source.
    HappensBefore,
    /// Forget all happens-before edges through the address.
    HappensBeforeForgetAll,
    /// A happens-before edge sink.
    HappensAfter,
    /// New memory of the given size was allocated at the address.
    New(usize),
    /// A reader-writer lock was created at the address.
    RwLockCreate,
    /// The reader-writer lock at the address is about to be destroyed.
    RwLockDestroy,
    /// The lock was acquired; true for a writer lock.
    RwLockAcquired(bool),
    /// The lock is about to be released; true for a writer lock.
    RwLockReleased(bool),
}

/// The request that delivers the given annotation.
pub open spec fn annotation_request(annotation: Annotation) -> CR {
    match annotation {
        Annotation::HappensBefore => CR::CG_ANNOTATE_HAPPENS_BEFORE,
        Annotation::HappensBeforeForgetAll => CR::CG_ANNOTATE_HAPPENS_BEFORE_FORGET_ALL,
        Annotation::HappensAfter => CR::CG_ANNOTATE_HAPPENS_AFTER,
        Annotation::New(_) => CR::CG_VALGRIND_HG_CLEAN_MEMORY,
        Annotation::RwLockCreate => CR::CG_ANNOTATE_RWLOCK_CREATE,
        Annotation::RwLockDestroy => CR::CG_ANNOTATE_RWLOCK_DESTROY,
        Annotation::RwLockAcquired(_) => CR::CG_ANNOTATE_RWLOCK_ACQUIRED,
        Annotation::RwLockReleased(_) => CR::CG_ANNOTATE_RWLOCK_RELEASED,
    }
}

/// The event that delivering the given annotation for `addr` records.
pub open spec fn annotation_event(addr: usize, annotation: Annotation) -> AnnotationEvent {
    match annotation {
        Annotation::HappensBefore => AnnotationEvent::HappensBefore(addr),
        Annotation::HappensBeforeForgetAll => AnnotationEvent::HappensBeforeForgetAll(addr),
        Annotation::HappensAfter => AnnotationEvent::HappensAfter(addr),
        Annotation::New(len) => AnnotationEvent::CleanMemory(addr, len),
        Annotation::RwLockCreate => AnnotationEvent::RwLockCreate(addr),
        Annotation::RwLockDestroy => AnnotationEvent::RwLockDestroy(addr),
        Annotation::RwLockAcquired(writer) => AnnotationEvent::RwLockAcquired(addr, writer),
        Annotation::RwLockReleased(writer) => AnnotationEvent::RwLockReleased(addr, writer),
    }
}

/// Lets the detector forget everything it knows about `[start, start + len)`.
pub fn clean_memory(s: &mut Session, start: usize, len: usize)
    requires
        CR::CG_VALGRIND_HG_CLEAN_MEMORY.min_version() <= old(s)@.version,
    ensures
        final(s)@ == (if old(s)@.under_tool() {
            SessionView {
                annotations: old(s)@.annotations.push(AnnotationEvent::CleanMemory(start, len)),
                ..old(s)@
            }
        } else {
            old(s)@
        }),
{
    if s.layers > 0 {
        s.annotations.push(AnnotationEvent::CleanMemory(start, len));
    }
}

/// As [`clean_memory`], for a typed object given by its address and size.
pub fn clean_ref(s: &mut Session, addr: usize, size: usize)
    requires
        CR::CG_VALGRIND_HG_CLEAN_MEMORY.min_version() <= old(s)@.version,
    ensures
        final(s)@ == (if old(s)@.under_tool() {
            SessionView {
                annotations: old(s)@.annotations.push(AnnotationEvent::CleanMemory(addr, size)),
                ..old(s)@
            }
        } else {
            old(s)@
        }),
{
    clean_memory(s, addr, size);
}

/// Reports that a reader-writer lock was created at `addr`.
pub fn annotate_rwlock_create(s: &mut Session, addr: usize)
    requires
        CR::CG_ANNOTATE_RWLOCK_CREATE.min_version() <= old(s)@.version,
    ensures
        final(s)@ == (if old(s)@.under_tool() {
            SessionView {
                annotations: old(s)@.annotations.push(AnnotationEvent::RwLockCreate(addr)),
                ..old(s)@
            }
        } else {
            old(s)@
        }),
{
    if s.layers > 0 {
        s.annotations.push(AnnotationEvent::RwLockCreate(addr));
    }
}

/// Reports that the lock at `addr` is about to be destroyed.
pub fn annotate_rwlock_destroy(s: &mut Session, addr: usize)
    requires
        CR::CG_ANNOTATE_RWLOCK_DESTROY.min_version() <= old(s)@.version,
    ensures
        final(s)@ == (if old(s)@.under_tool() {
            SessionView {
                annotations: old(s)@.annotations.push(AnnotationEvent::RwLockDestroy(addr)),
                ..old(s)@
            }
        } else {
            old(s)@
        }),
{
    if s.layers > 0 {
        s.annotations.push(AnnotationEvent::RwLockDestroy(addr));
    }
}

/// Reports that the lock at `addr` was acquired, as a writer lock if
/// `writer_lock`.
pub fn annotate_rwlock_acquired(s: &mut Session, addr: usize, writer_lock: bool)
    requires
        CR::CG_ANNOTATE_RWLOCK_ACQUIRED.min_version() <= old(s)@.version,
    ensures
        final(s)@ == (if old(s)@.under_tool() {
            SessionView {
                annotations: old(s)@.annotations.push(
                    AnnotationEvent::RwLockAcquired(addr, writer_lock),
                ),
                ..old(s)@
            }
        } else {
            old(s)@
        }),
{
    if s.layers > 0 {
        s.annotations.push(AnnotationEvent::RwLockAcquired(addr, writer_lock));
    }
}

/// Reports that the lock at `addr` is about to be released, as a writer
/// lock if `writer_lock`.
pub fn annotate_rwlock_released(s: &mut Session, addr: usize, writer_lock: bool)
    requires
        CR::CG_ANNOTATE_RWLOCK_RELEASED.min_version() <= old(s)@.version,
    ensures
        final(s)@ == (if old(s)@.under_tool() {
            SessionView {
                annotations: old(s)@.annotations.push(
                    AnnotationEvent::RwLockReleased(addr, writer_lock),
                ),
                ..old(s)@
            }
        } else {
            old(s)@
        }),
{
    if s.layers > 0 {
        s.annotations.push(AnnotationEvent::RwLockReleased(addr, writer_lock));
    }
}

/// Delivers the given annotation for `addr`: exactly the event
/// [`annotation_event`] is recorded.
pub fn annotate_addr(s: &mut Session, addr: usize, annotation: Annotation)
    requires
        annotation_request(annotation).min_version() <= old(s)@.version,
    ensures
        final(s)@ == (if old(s)@.under_tool() {
            SessionView {
                annotations: old(s)@.annotations.push(annotation_event(addr, annotation)),
                ..old(s)@
            }
        } else {
            old(s)@
        }),
{
    match annotation {
        Annotation::HappensBefore => {
            if s.layers > 0 {
                s.annotations.push(AnnotationEvent::HappensBefore(addr));
            }
        },
        Annotation::HappensBeforeForgetAll => {
            if s.layers > 0 {
                s.annotations.push(AnnotationEvent::HappensBeforeForgetAll(addr));
            }
        },
        Annotation::HappensAfter => {
            if s.layers > 0 {
                s.annotations.push(AnnotationEvent::HappensAfter(addr));
            }
        },
        Annotation::New(len) => clean_memory(s, addr, len),
        Annotation::RwLockCreate => annotate_rwlock_create(s, addr),
        Annotation::RwLockDestroy => annotate_rwlock_destroy(s, addr),
        Annotation::RwLockAcquired(writer) => annotate_rwlock_acquired(s, addr, writer),
        Annotation::RwLockReleased(writer) => annotate_rwlock_released(s, addr, writer),
    }
}

} // verus!
