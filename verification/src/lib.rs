//! Stateless, single-frame classifier for DNS responses.
//!
//! A frame is a borrowed byte slice. Every header is reached through the
//! bounded reader in [`reader`], decoded by the views in [`headers`] and
//! [`dns`], and judged by [`classifier::sanitize_dns`], which always answers
//! with a verdict. Anything that cannot be shown to be an anomalous DNS
//! response passes.

pub mod classifier;
pub mod dns;
pub mod fault;
pub mod headers;
pub mod laws;
pub mod reader;
pub mod verdict;
