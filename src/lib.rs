//! Supervision of one auxiliary service process: its lifecycle state, the
//! readiness wait after a spawn, the health probe's wire framing, the output
//! relay's decisions and the results handed to the host application.
use vstd::prelude::*;

pub mod config;
pub mod lifecycle;
pub mod probe;
pub mod readiness;
pub mod supervisor;

verus! {

} // verus!
