//! The per-tool request modules, and the scoped-guard machinery shared by
//! the paired enter/exit requests.
//!
//! Several requests are stack-disciplined: a disable is undone by a later
//! enable, a trace by a later stop.  A [`ScopeGuard`] pairs the two.  Its
//! constructor delivers the enter request and records the nesting depth at
//! which the guard was opened; [`ScopeGuard::release`] consumes the guard,
//! delivers the exit request, and requires the guard to be the innermost one
//! still open.  Consuming the guard makes a second exit impossible, and the
//! depth precondition forces releases to happen in reverse order of
//! construction.

use vstd::prelude::*;

use crate::session::{Session, SessionView};

pub mod cachegrind;
pub mod callgrind;
pub mod dhat;
pub mod drd;
pub mod helgrind;
pub mod memcheck;
pub mod valgrind;

verus! {

/// Closes the set of [`Scope`] implementors: only scopes defined by this
/// crate pair their requests correctly.
pub trait Sealed {

}

/// Behaviour of one paired enter/exit request, stated against the session
/// model: what each of the two requests needs and what it does.
pub trait Scope: Sealed {
    /// The value the pair of requests is about.
    type Inner;

    /// What the enter request needs of the session.
    spec fn enter_ok(v: SessionView, inner: Self::Inner) -> bool;

    /// The session after the enter request.
    spec fn enter_view(v: SessionView, inner: Self::Inner) -> SessionView;

    /// What the exit request needs of the session.
    spec fn exit_ok(v: SessionView, inner: Self::Inner) -> bool;

    /// The session after the exit request.
    spec fn exit_view(v: SessionView, inner: Self::Inner) -> SessionView;

    /// Neither request touches the guard-nesting counter; the guard itself
    /// maintains it.
    proof fn enter_keeps_scopes(v: SessionView, inner: Self::Inner)
        ensures
            Self::enter_view(v, inner).scopes == v.scopes,
    ;

    /// See [`Scope::enter_keeps_scopes`].
    proof fn exit_keeps_scopes(v: SessionView, inner: Self::Inner)
        ensures
            Self::exit_view(v, inner).scopes == v.scopes,
    ;

    /// Delivers the enter request.
    fn enter(s: &mut Session, inner: &Self::Inner)
        requires
            Self::enter_ok(old(s)@, *inner),
        ensures
            final(s)@ == Self::enter_view(old(s)@, *inner),
    ;

    /// Delivers the exit request.
    fn exit(s: &mut Session, inner: &Self::Inner)
        requires
            Self::exit_ok(old(s)@, *inner),
        ensures
            final(s)@ == Self::exit_view(old(s)@, *inner),
    ;
}

/// A scoped guard for a paired enter/exit request.  See the module
/// documentation.
#[must_use]
#[derive(Debug)]
pub struct ScopeGuard<S: Scope> {
    inner: S::Inner,
    depth: usize,
    marker: core::marker::PhantomData<S>,
}

impl<S: Scope> ScopeGuard<S> {
    /// The value the guard's requests are about.
    pub closed spec fn inner(self) -> S::Inner {
        self.inner
    }

    /// The guard-nesting depth at which this guard was opened.
    pub closed spec fn depth(self) -> usize {
        self.depth
    }

    /// Delivers the enter request and opens a guard for the matching exit.
    pub fn new(s: &mut Session, inner: S::Inner) -> (g: ScopeGuard<S>)
        requires
            S::enter_ok(old(s)@, inner),
            old(s)@.scopes < usize::MAX,
        ensures
            g.inner() == inner,
            g.depth() == old(s)@.scopes,
            final(s)@ == (SessionView {
                scopes: (old(s)@.scopes + 1) as usize,
                ..S::enter_view(old(s)@, inner)
            }),
    {
        S::enter(s, &inner);
        proof {
            S::enter_keeps_scopes(old(s)@, inner);
        }
        s.scopes = s.scopes + 1;
        ScopeGuard { inner, depth: s.scopes - 1, marker: core::marker::PhantomData }
    }

    /// Delivers the exit request and closes the guard.  The guard must be
    /// the innermost one still open, so nested guards release in reverse
    /// order of construction; taking `self` by value makes a second release
    /// impossible.
    pub fn release(self, s: &mut Session)
        requires
            S::exit_ok(old(s)@, self.inner()),
            old(s)@.scopes == self.depth() + 1,
        ensures
            final(s)@ == (SessionView {
                scopes: self.depth(),
                ..S::exit_view(old(s)@, self.inner())
            }),
    {
        S::exit(s, &self.inner);
        proof {
            S::exit_keeps_scopes(old(s)@, self.inner());
        }
        s.scopes = s.scopes - 1;
    }
}

} // verus!
