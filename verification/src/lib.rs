//! Retrieval and verification of TEE attestation quotes: the codecs for the
//! quote and its collateral, the decisions of the staged pipeline, and the
//! interpretation of the verification verdict.

pub mod error;
pub mod b64;
pub mod scale;
pub mod collateral;
pub mod quote;
pub mod verify;
pub mod source;
pub mod pipeline;
