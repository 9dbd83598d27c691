//! A verified HTTP request/response engine for a local metadata service.
//!
//! The engine builds exchanges from a method, a target URI and an ordered
//! header list, decides how to act on what the transport hands back
//! (following redirects by concatenating the Location value onto the URI),
//! aggregates response bodies into text, decodes credential JSON, and maps
//! every failure into a closed error taxonomy. The transport itself is
//! driven by the caller; this crate owns every decision in between.

pub mod body;
pub mod discovery;
pub mod engine;
pub mod error;
pub mod json;
