//! A request authentication/authorization gate.
//!
//! Incoming requests are admitted either through a static shared-secret
//! shortcut or through full verification of a signed bearer token against an
//! identity provider's published key set, followed by a permission check.
//! The decision logic is verified; the HTTP transport around it is not part
//! of this crate.

pub mod access;
pub mod config;
pub mod error;
pub mod gate;
pub mod keys;
pub mod responses;
pub mod token;
