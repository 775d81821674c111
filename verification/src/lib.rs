//! A local credential/profile store.
//!
//! Credentials live in a per-user directory of YAML files, one file per
//! profile (an environment such as "default" or "work").  A pointer file
//! records which profile is active; a lookup resolves a service name to its
//! credential mapping inside the active profile's document.

pub mod doc;
pub mod edit;
pub mod laws;
pub mod paths;
pub mod resolve;
pub mod store;
