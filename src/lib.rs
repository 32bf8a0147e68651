//! A small engine for chaining two external tools: the decisions of its
//! polling loops, byte relay and progress display, proved against their
//! contracts, and the naming of downloaded runs.

pub mod naming;
pub mod cancel;
pub mod relay;
pub mod drain;
pub mod supervisor;
pub mod metadata;
