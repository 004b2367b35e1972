//! An owner-gated registry of work items.
//!
//! The registry keeps a singleton configuration (the owning identity), a
//! monotonic id counter, and a collection of entries ordered ascending by id.
//! Every mutating operation is gated on the stored owner; reads are open to
//! anyone. The host environment owns durable storage, identity validation and
//! the ledger of held balances; it hands each operation an explicit [`state::Store`]
//! value together with the answers only the host can give, and commits the
//! resulting state atomically.

pub mod contract;
pub mod decimal;
pub mod error;
pub mod msg;
pub mod state;
