//! Core logic of a game-client launcher: keeps a local installation in sync
//! with a remote manifest of versioned resources.
//!
//! The library holds the decision logic — manifest parsing, staleness
//! comparison, directory resolution, the orchestration state machines and
//! progress accounting. All network and filesystem work is performed by the
//! caller, which drives the state machines with events and carries out the
//! actions they return.

use vstd::prelude::*;

pub mod channel;
pub mod config;
pub mod errors;
pub mod install;
pub mod installer;
pub mod progress;
pub mod resolve;
pub mod sync;
pub mod text;

verus! {

} // verus!
