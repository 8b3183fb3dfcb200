//! Typed, event-by-event reading of YAML on top of a scanner and parser
//! engine that lives outside this crate.
//!
//! The engine consumes bytes and, step by step, fills a record with an event
//! or fails and leaves error fields behind. This crate is the typed side of
//! that interface: the events and errors as values that own their data
//! ([`event`], [`parser`]), the reading of the engine's records into them,
//! and the reply to the engine when it pulls input from a reader. The host
//! makes the calls into the engine and hands over what they left behind
//! ([`ffi`]).

pub mod event;
pub mod ffi;
pub mod parser;
pub mod text;
pub mod type_size;
