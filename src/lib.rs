//! Classification and logging of physical access events (badge and door scans).
//!
//! The library holds the decisions of the two request handlers: what an
//! incoming event is stored as and what its sender is told, and how stored
//! rows become the bounded, newest-first view of recent activity. The store
//! itself and the transport are driven by the caller.

pub mod clock;
pub mod ingest;
pub mod logs;
