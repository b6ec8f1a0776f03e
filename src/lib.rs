//! A policy-enforcing firewall for a JSON-RPC tool channel: policy evaluation,
//! per-client rate limiting, detached Ed25519 signatures and the admission
//! pipeline that composes them.

pub mod audit;
pub mod foreign;
pub mod keys;
pub mod pipeline;
pub mod policy;
pub mod ratelimit;
pub mod signing;
