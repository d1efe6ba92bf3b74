//! Client core for a solar-monitoring web portal that exposes no formal API
//! contract: authentication is token based, endpoints answer with ad-hoc JSON
//! shapes, and success is signalled inconsistently (a numeric `result` field,
//! an HTTP status, or a redirect).
//!
//! This crate holds the session manager and the validated-request pipeline:
//! the state machine that establishes and renews a login session, the policy
//! that decides when re-authentication is required, and the rules that unwrap
//! heterogeneous JSON responses into typed or generic results with a uniform
//! error taxonomy.  All network traffic is left to the caller, who performs
//! each request and hands the decoded body back to this crate for judgement.

pub mod client;
pub mod errors;
pub mod hashing;
pub mod json;
pub mod plants;
pub mod response;

pub use client::Growatt;
pub use plants::{Plant, PlantData, PlantList};
pub use errors::GrowattError;
pub use json::JsonValue;
pub use response::UnwrapStrategy;
