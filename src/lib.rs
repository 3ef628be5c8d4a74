//! Negotiation of a browser-verification challenge: configuration, markup
//! extraction, puzzle program assembly, and the step-by-step protocol that
//! turns a fetched challenge page into a session credential.

mod config;
pub mod extract;
pub mod target;
pub mod sandbox;
pub mod negotiation;

pub use config::Bypasser;
pub use config::DEFAULT_USER_AGENT;
