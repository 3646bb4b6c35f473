//! The core abstraction layer of a state-machine replication framework built
//! around leader-based Byzantine fault tolerant consensus.
//!
//! The crate defines what pluggable protocol implementations must look like so
//! that a replica can drive them uniformly: the bundle of progress events that
//! an ordering protocol emits for one sequence number, the dispatch of a signed
//! envelope to the verifier of its variant, and the contract between the
//! replica and the ordering protocol it drives.

pub mod error;
pub mod sequencing;
pub mod messages;
pub mod ordering_protocol;
pub mod state_transfer;
pub mod log_transfer;
pub mod serialize;
pub mod smr;
pub mod timeouts;
