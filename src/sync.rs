//! Signalling between producers and tasks of a cooperative scheduler.
pub mod channel;
