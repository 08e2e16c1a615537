//! Verified core of an RTT-based TLS interception probe.
//!
//! The probe decides whether an inbound TLS connection is being relayed
//! through a TLS-terminating proxy by comparing an application-layer
//! round-trip time, measured with protocol-level pings, against the kernel's
//! smoothed TCP round-trip time for the same socket.  A persistent gap
//! between the two is evidence of an extra hop.
//!
//! This crate holds the detection logic itself: the statistical outlier
//! filter and adjusted mean, the classification rule, the sampling protocol's
//! bookkeeping, request routing, and the construction of the JSON verdict
//! body.  The surrounding network runtime (TLS termination, HTTP/2 session
//! handling, the kernel socket query) drives these functions and is kept
//! outside the verified library.

pub mod classify;
pub mod config;
pub mod request;
pub mod sampler;
pub mod stats;
pub mod tcp;
