//! Controller for a single elevated helper process that applies and removes
//! network-blocking rules for named regions.
//!
//! The crate holds the decisions of the controller: the wire protocol, the
//! supervision state machine, the guard discipline and the lifecycle hooks.
//! Spawning, writing to and terminating the process is left to the caller, which
//! performs the action a function returns and reports back what happened.

pub mod error;
pub mod protocol;
pub mod framing;
pub mod text;
pub mod refresher;
pub mod channel;
pub mod supervisor;
pub mod trace;
pub mod hooks;
