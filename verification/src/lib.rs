//! A single-ledger accounting engine for a pegged token.
//!
//! The ledger tracks a total supply, per-address user balances, a set of
//! per-address exchange sub-ledgers, and owner-controlled policy parameters
//! (peg price, withdrawal limit).  Every mutating operation is a guarded
//! state transition: all checks happen before any write, and a failure
//! leaves the ledger exactly as it was.
//!
//! The engine itself performs no I/O, no serialization and no persistence:
//! it receives a caller identity and an already-decoded operation, and
//! returns a typed outcome (audit attributes plus at most one outbound
//! payment instruction) or a typed error.

pub mod contract;
pub mod error;
pub mod helpers;
pub mod laws;
pub mod msg;
pub mod response;
pub mod state;
pub mod store;
