//! A two-phase escrow: a depositor places tokens in a vault controlled by a
//! program-derived authority, and a counterparty later settles the escrow by
//! an atomic two-sided transfer, or the depositor cancels and is refunded.
//!
//! The crate is organised leaf-first:
//!
//! * [`addr`] — byte-string account identities;
//! * [`table`] — a keyed association table, the storage primitive;
//! * [`errors`] — the error taxonomy of the escrow and of the ledger;
//! * [`ledger`] — a token ledger with per-account balances and authorities;
//! * [`record`] — the persisted escrow record and its lifecycle states;
//! * [`store`] — keyed persistence of escrow records;
//! * [`authority`] — the deterministic vault-authority derivation;
//! * [`vault`] — custody of deposited funds while an escrow is open;
//! * [`machine`] — the escrow state machine driving `Open → {Cancelled | Settled}`;
//! * [`laws`] — proofs of the properties the machine guarantees across calls.

pub mod addr;
pub mod errors;
pub mod table;
pub mod ledger;
pub mod record;
pub mod store;
pub mod authority;
pub mod vault;
pub mod machine;
pub mod laws;
