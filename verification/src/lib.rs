//! Client-request layer for a Valgrind-style dynamic-instrumentation tool.
//!
//! A program running under such a tool can signal it through a fixed set of
//! "client requests": leak checks, shadow-memory queries, profiling toggles,
//! race-detection annotations, and so on.  Outside the tool every request is
//! a no-op that yields a default value.
//!
//! This crate states and verifies what each request means.  The attached
//! tool's observable, documented state — error counters, per-byte
//! addressability and validity bits, block-description handles, leak totals —
//! is modeled explicitly by [`session::Session`], and every request function
//! carries a contract that pins down its result and its effect on that state,
//! both under the tool and when running natively.  Each request is also
//! gated, as a precondition, on the minimum tool version that defines it
//! (see [`catalog`]).

pub mod catalog;
pub mod laws;
pub mod requests;
pub mod session;

pub use requests::{cachegrind, callgrind, dhat, drd, helgrind, memcheck, valgrind};
pub use requests::{Scope, ScopeGuard, Sealed};
pub use session::Session;
