//! A verified record-keeping ledger with four record kinds: debts, escrows,
//! crop insurance policies and insurance claims. Records are kept in
//! persistent key-value maps under identifiers drawn from one shared,
//! monotonically increasing counter, and are stored as length-prefixed byte
//! encodings whose round-trip fidelity is proved.

pub mod types;
pub mod text;
pub mod codec;
pub mod store;
pub mod service;
