//! An access-control gateway in front of a token-swap pool: it decodes the
//! whitelist's commands, checks every account a request names, and plans
//! the delegated calls and record writes that a valid request performs.
//!
//! - `instruction`: the command decoder and encoder.
//! - `state`: the stored configuration and redemption records.
//! - `processor`: the initialization, wrapping and swap engines.
//! - `ledger`: account snapshots, collaborator identities, planned effects.
//! - `interop`: the calls into the ledger and token libraries.

pub mod bytes;
pub mod error;
pub mod instruction;
pub mod interop;
pub mod ledger;
pub mod processor;
pub mod pubkey;
pub mod state;
