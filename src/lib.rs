//! Diagnostics for a multi-threaded terminal multiplexer: the call sites that a
//! thread records while it works, the bounded trail of them that each thread
//! keeps, and the report that is composed and routed when a thread panics.
use vstd::prelude::*;

pub mod actions;
pub mod context;
pub mod instructions;
pub mod report;
pub mod tags;
pub mod text;

verus! {

} // verus!
