//! Core of a client that watches a locally running game-client service and
//! automatically bans a fixed champion during the draft's ban phase.
//!
//! The library holds the verified logic: lockfile parsing, request
//! construction, the draft-session decision algorithm, and the polling
//! state machine. All network and file I/O is performed by the surrounding
//! application, which feeds plain values into these functions.
use vstd::prelude::*;

pub mod client;
pub mod digits;
pub mod errors;
pub mod lockfile;
pub mod poller;

verus! {

/// Champion id of Ahri, the fixed ban target.
pub const AHRI_ID: i32 = 103;

} // verus!
