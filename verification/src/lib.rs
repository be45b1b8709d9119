//! A minimal stateful service: a scalar counter, a keyed collection of
//! sequences, and an ordered log of notifications describing every state
//! change. The service exercises the primitives a host's call-dispatch and
//! value-encoding machinery must support: scalar state, keyed collection
//! state, optional and result-typed returns, a custom sum-typed argument,
//! value-bearing calls, and notification of state changes.
//!
//! The host collaborators — the transport that decodes calls, the mechanism
//! that persists state, the ledger that accounts for attached value, and the
//! bus that durably records notifications — stay outside this crate. The
//! service receives decoded arguments (including the attached value of a
//! value-bearing call) as plain parameters, and records each notification it
//! decides to emit in an append-only log that the host can read back.

pub mod contract;
pub mod laws;
pub mod model;

pub use contract::CustomOption;
pub use contract::Error;
pub use contract::IntStorageChanged;
pub use contract::MapStorageChanged;
pub use contract::Notification;
pub use contract::PaidFromContract;
pub use contract::TestContract;
