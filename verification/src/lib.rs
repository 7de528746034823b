//! Building blocks of a governance client for a Substrate node: the call
//! payloads it submits, and the decisions it takes while a transaction is
//! followed to finality and while finalized blocks are searched for an event.
//!
//! Everything here works on plain values. The program around the library
//! opens the connection, signs, sends and listens, and hands what it receives
//! to the functions of this crate.

pub mod command;
pub mod digest;
pub mod error;
pub mod events;
pub mod identity;
pub mod payload;
pub mod scale;
pub mod submission;
