//! An authenticated HTTP forward proxy core.
//!
//! An inbound request is authorized when its path starts with a secret
//! token; the rest of the path, normalized, names the target URL that the
//! request is forwarded to. This crate holds the verified logic of that
//! pipeline: token authorization, target-URL resolution, header filtering,
//! and the classification of upstream outcomes into relayed responses.
//! The surrounding server and the outbound client live outside the crate.

pub mod laws;
pub mod relay;
pub mod router;
