//! What the ledger decides for its connected clients.

pub mod ws;
