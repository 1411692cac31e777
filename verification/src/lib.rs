//! Outbound federation: resolving a follower's inbox, composing HTTP
//! Signature headers, signing them, and classifying what the remote peer
//! answered.
pub mod text;
pub mod follower;
pub mod enclosure;
pub mod digest;
pub mod date;
pub mod target;
pub mod signer;
pub mod headers;
pub mod composer;
pub mod error;
pub mod envelope;
pub mod mailer;
