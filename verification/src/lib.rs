//! Construction of unsigned transactions that mint a "reserve" position on
//! the Ergo ledger: a new box holding a caller-chosen amount of the native
//! asset, carrying exactly one newly minted NFT whose identity is the
//! identifier of the first consumed input box, and embedding the owner's
//! public key in register R4.

pub mod boxes;
pub mod ergo;
pub mod transactions;
