//! Signing and validation of live video segments.
//!
//! A live stream is an initialization segment followed by media segments, each an ISO BMFF byte
//! sequence. There are two ways to sign it. With a manifest in each segment, every manifest refers
//! to the one before it ([`signing`]). With Verifiable Segment Info, the initialization segment
//! publishes a session key, and each media segment carries a message that the key signed
//! ([`vsi_signing`]). A validator holds each segment to the stream so far ([`validator`]).
//!
//! The library reads and writes the bytes, frames and checks the signed messages, and keeps the
//! counters and identifiers that tie one segment to the next. Manifests, segment hashes and the
//! encoding of the segment info map come from a host, as closures or as reports of what it read.
//!
//! What the pieces promise together stands in the modules whose names end in `laws`.

pub mod bmff;
pub mod bmff_faults;
pub mod bmff_laws;
pub mod bmff_writing;
pub mod bytes;
pub mod c_api;
pub mod cbor;
pub mod certificates;
pub mod clock;
pub mod cose;
pub mod definition_laws;
pub mod dynamic_assertion;
pub mod ed25519;
pub mod emsg_laws;
pub mod error;
pub mod event_laws;
pub mod fault_laws;
pub mod filter_laws;
pub mod json;
pub mod json_laws;
pub mod live_manifest;
pub mod manifest_laws;
pub mod manifest_report;
pub mod message_laws;
pub mod segment_info;
pub mod segment_laws;
pub mod session_keys;
pub mod session_laws;
pub mod signing;
pub mod signing_laws;
pub mod status_tracker;
pub mod step_laws;
pub mod success_laws;
pub mod text;
pub mod trusted_vsi;
pub mod validation_laws;
pub mod validator;
pub mod validator_laws;
pub mod verifiable_segment_info;
pub mod vsi_laws;
pub mod vsi_signing;
