//! Synchronization core of a daemon that keeps a working directory in step
//! with a remote repository.
//!
//! The library decides; its host acts.  Every component is a state machine
//! whose state names the one thing that it wants of the host, and whose
//! transition consumes what the host reports back.  The host owns the
//! repository handle, the event bus, the watch and the clocks.

pub mod event;
pub mod git;
pub mod ident;
pub mod ticker;
pub mod watch;
pub mod fastforward;
pub mod push;
pub mod engine;
pub mod model;
