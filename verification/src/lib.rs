//! A ledger-resident social-connection protocol.
//!
//! Identities register a profile, one identity may request a mutual
//! connection with another backed by an escrowed value stake, and the
//! counterparty may accept (doubling the escrow and marking the connection
//! live) or reject (returning the stake). Either connected party may later
//! withdraw the escrow, splitting it evenly.
//!
//! The state machine, its escrow accounting and the record addressing rules
//! live here, stated over plain values and proved; the host ledger performs
//! the actual account reads, writes and value transfers.

pub mod address;
pub mod errors;
pub mod ops;
pub mod keys;
pub mod laws;
pub mod state;
