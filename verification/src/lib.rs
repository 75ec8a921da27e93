//! A small key/value "bucket" component for a dataflow network.
//!
//! The component receives message envelopes on an input port, interprets
//! the operation tag each one carries, mutates or queries an owned
//! string-to-string store, and produces a response envelope for the
//! output port.  This crate holds the verified core: the store, the
//! envelope model, and the dispatch logic of one handling cycle.  The
//! hosting runtime (scheduling, port plumbing, the blocking receive and
//! the best-effort send) lives outside it.

pub mod dispatch;
pub mod envelope;
pub mod store;
