//! A verified front-end for a business-rule decision engine.
//!
//! The library owns the request-to-decision pipeline: startup configuration,
//! decoding and validating the inbound context document, choosing the rule
//! reference, and shaping the response for every outcome. The decision
//! engine itself and the HTTP plumbing live outside the library.

pub mod decode;
pub mod escape;
pub mod info;
pub mod main_config;
pub mod pipeline;
