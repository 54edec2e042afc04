//! An asynchronous logging pipeline, modelled and verified sequentially.
//!
//! Application threads emit events through a per-thread handle that filters
//! them and records them for the ingestion channel.  A formatter stage turns
//! each event into a displayable record and hands it to the writer stage,
//! which fans every record out to the registered appenders and flushes all
//! buffered records before it stops.  The thread and channel plumbing that
//! drives these stages in a running process lives outside this crate; the
//! decisions the stages make are all here, with their contracts.

pub mod config;
pub mod event;
pub mod filter;
pub mod laws;
pub mod logger;
pub mod text;
pub mod writer;
