//! Round-trip latency and packet-loss measurement with volleys of ICMP echo
//! probes.
//!
//! The crate holds the decisions of a volley: how a probe is laid out on the
//! wire, when the next one is due, which inbound packets count as replies, when
//! the receiver gives up, and how replies are matched to probes. Every instant
//! and duration is a `u64` count of nanoseconds on one monotonic clock that the
//! caller reads; sockets, threads and sleeping are the caller's business.

pub mod address;
pub mod aggregate;
pub mod checksum;
pub mod codec;
pub mod engine;
mod entropy;
pub mod handoff;
pub mod receiver;
pub mod sender;
pub mod summary;

pub use address::{Address, IpVersion};
pub use aggregate::{aggregate, InboundReply, OutboundRequest, PingResult, VolleyInfo};
pub use engine::{begin_volley, begin_volley_with, finish_volley, VolleyPlan, VolleyResult, VolleyTasks};
