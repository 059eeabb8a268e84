//! Fleet-telemetry collector core.
//!
//! A central aggregator polls a fixed roster of agents: it probes each
//! unreachable agent for its capability descriptor, fetches a system
//! snapshot from every agent known to support metrics, and publishes the
//! per-agent status table wholesale once per cycle. This crate holds the
//! data model and the complete cycle logic; the HTTP transport that
//! carries the requests and responses lives outside it and hands plain
//! values in and out.

pub mod aggregator;
pub mod laws;
pub mod machine;
pub mod system_info;
