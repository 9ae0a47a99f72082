//! Core of a ledger-backed escrow service.
//!
//! The service bridges concurrent external requests to a single-threaded,
//! stateful ledger client and runs an escrow saga over the ledger's note
//! transfer primitives.  This crate holds the verified core: the identifier
//! codec, the account registry, the note-lifecycle planners, the escrow
//! state machines and the bounded command queue.  The ledger client itself
//! (account construction, signing, transaction submission) is an opaque
//! external collaborator; the surrounding process performs those calls and
//! feeds their observations back into the state machines defined here.

pub mod errors;
pub mod hexid;
pub mod model;
pub mod registry;
pub mod notes;
pub mod escrow;
pub mod queue;
pub mod worker;
