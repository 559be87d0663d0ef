//! An event-sourced content ledger.
//!
//! Clients send commands that create, update, delete, copy or seal a
//! versioned document. The processor decides on each command from the
//! document's latest revision; an accepted command becomes an immutable
//! event, which the store keeps as the new latest revision, linked to the
//! one before it.
//!
//! * [`domain`] holds the records: commands, events, the system block of a
//!   revision.
//! * [`checksum`] fingerprints payloads.
//! * [`lmdb_store`] is the versioned store, with its mathematical model.
//! * [`processor`] decides on commands and applies them to the store. It
//!   takes the store by `&mut`: reading, checking and writing are one step
//!   that nothing else can come between.
//! * [`guarantees`] states what holds of every step, and proves it.
//! * [`kafka`] describes the clients of the message transport and hands
//!   events to the observers.
//! * [`server`] decides for the connections of live clients.
//!
//! Transport, sockets and durable storage are not in the library: it is
//! handed what arrived and answers with what is to be done.

pub mod checksum;
pub mod domain;
pub mod guarantees;
pub mod kafka;
pub mod lmdb_store;
pub mod processor;
pub mod server;
