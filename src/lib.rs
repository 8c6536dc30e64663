//! A call bridge between host functions and script running in an embedded
//! browser engine: a value codec, a registry of named handlers, a dispatcher
//! that answers each call exactly once, an event channel into script contexts,
//! and the tick relay that drives the engine's message pump.
use vstd::prelude::*;

pub mod contexts;
pub mod dispatch;
pub mod handlers;
pub mod pump;
pub mod registry;
pub mod value;

verus! {

} // verus!
