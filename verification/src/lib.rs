//! A small application core: a supervised sidecar process, and a forwarder
//! that turns front-end requests into outbound HTTP calls and interprets
//! the responses.

pub mod forward;
pub mod greeting;
pub mod method;
pub mod supervisor;
pub mod text;
