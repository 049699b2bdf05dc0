//! Serializes and pseudo-deserializes values that carry the minimal error
//! capability set: a description, a display rendering, and an optional cause.
//! Use this only when the description, display text and cause chain are all
//! that will ever be needed of the error; no other field survives the capture.

mod codec;
pub mod real_error_impls;
mod snapshot;

pub use codec::DecodeError;
pub use codec::bin_enc;
pub use codec::deserialize_error_bytes;
pub use codec::deserialize_error_string;
pub use codec::json_enc;
pub use codec::serialize_error_bytes;
pub use codec::serialize_error_string;
pub use snapshot::LiveError;
pub use snapshot::PseudoError;
pub use snapshot::capture;
pub use snapshot::equivalent;
pub use snapshot::error_model;
pub use snapshot::lemma_capture_idempotent;
pub use snapshot::lemma_snapshot_model;
