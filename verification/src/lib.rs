//! Client-side logic for a rewards-platform HTTP API: credential resolution,
//! request construction, and response interpretation for a login call followed
//! by a single daily-points claim call.
//!
//! The library contains the decision logic and the request/response contracts;
//! the surrounding program performs the actual file, terminal and network
//! operations and feeds their results back in as plain values.

pub mod errors;
pub mod requests;
pub mod resolve;
pub mod responses;
pub mod text;
