//! Prehashed trusted signing: the reserved interface.
//!
//! Nothing of it is implemented: the capabilities are empty, and every operation of a session
//! returns [`Error::UnsupportedType`]. Callers must look at [`TrustedVsiCapabilities`] first.

use std::sync::Arc;
use vstd::prelude::*;

use crate::cose::SigningAlg;
use crate::error::Error;

verus! {

/// What a session needs to know of its key.
#[derive(Debug, PartialEq, Eq)]
pub struct VsiSessionConfig {
    pub algorithm: SigningAlg,
    pub kid: Vec<u8>,
    /// The public key as an encoded COSE key.
    pub public_cose_key_cbor: Vec<u8>,
    pub min_sequence_number: u64,
    pub created_at: String,
    pub validity_period_secs: u64,
}

/// The capabilities of prehashed trusted signing, as a bit mask.
#[derive(Clone, Copy, Debug, PartialEq, Eq, Structural)]
pub struct TrustedVsiCapabilities(u64);

impl TrustedVsiCapabilities {
    /// The bit for split initialization-segment UUID signing.
    pub const SPLIT_INIT_UUID_BIT: u64 = 1;

    /// The bit for signing of event messages that the caller composed.
    pub const EXPERT_EMSG_SIG_STRUCTURE_BIT: u64 = 2;

    /// The bit for event messages that the signer composes around a given hash.
    pub const SIGNER_COMPOSED_EMSG_BIT: u64 = 4;

    /// The bit for recovery from signed boxes.
    pub const RECOVERY_BIT: u64 = 8;

    /// The bit for callbacks that receive a [`VsiSigningContextV1`].
    pub const SIGNING_CONTEXT_V1_BIT: u64 = 16;

    /// The bit for signing up to the last 32-bit number.
    pub const FULL_UINT32_EXHAUSTION_BIT: u64 = 32;

    /// The bit mask.
    pub closed spec fn mask(self) -> u64 {
        self.0
    }

    /// The capabilities of this build: none.
    pub fn current() -> (r: Self)
        ensures
            r.mask() == 0,
    {
        TrustedVsiCapabilities(0)
    }

    /// The bit mask.
    pub fn bits(self) -> (r: u64)
        ensures
            r == self.mask(),
    {
        self.0
    }

    /// Whether there is split initialization-segment UUID signing.
    pub fn supports_split_init_uuid(self) -> (r: bool)
        ensures
            r == (self.mask() & Self::SPLIT_INIT_UUID_BIT != 0),
    {
        self.0 & Self::SPLIT_INIT_UUID_BIT != 0
    }

    /// Whether there is signing of event messages that the caller composed.
    pub fn supports_expert_emsg_sig_structure(self) -> (r: bool)
        ensures
            r == (self.mask() & Self::EXPERT_EMSG_SIG_STRUCTURE_BIT != 0),
    {
        self.0 & Self::EXPERT_EMSG_SIG_STRUCTURE_BIT != 0
    }

    /// Whether there are event messages that the signer composes around a given hash.
    pub fn supports_signer_composed_emsg(self) -> (r: bool)
        ensures
            r == (self.mask() & Self::SIGNER_COMPOSED_EMSG_BIT != 0),
    {
        self.0 & Self::SIGNER_COMPOSED_EMSG_BIT != 0
    }

    /// Whether there is recovery from signed boxes.
    pub fn supports_recovery(self) -> (r: bool)
        ensures
            r == (self.mask() & Self::RECOVERY_BIT != 0),
    {
        self.0 & Self::RECOVERY_BIT != 0
    }

    /// Whether there are callbacks that receive a [`VsiSigningContextV1`].
    pub fn supports_signing_context_v1(self) -> (r: bool)
        ensures
            r == (self.mask() & Self::SIGNING_CONTEXT_V1_BIT != 0),
    {
        self.0 & Self::SIGNING_CONTEXT_V1_BIT != 0
    }

    /// Whether there is signing up to the last 32-bit number.
    pub fn supports_full_uint32_exhaustion(self) -> (r: bool)
        ensures
            r == (self.mask() & Self::FULL_UINT32_EXHAUSTION_BIT != 0),
    {
        self.0 & Self::FULL_UINT32_EXHAUSTION_BIT != 0
    }
}

impl Default for TrustedVsiCapabilities {
    fn default() -> (r: Self)
        ensures
            r.mask() == 0,
    {
        TrustedVsiCapabilities(0)
    }
}

/// Why a signature is asked for.
#[derive(Clone, Copy, Debug, PartialEq, Eq, Structural)]
pub enum TrustedVsiSigningPurpose {
    /// To bind the session key to the certificate of the manifest signer.
    SignerBinding,
    /// To sign a media segment.
    Vsi,
}

/// What a signing callback is told.
///
/// Number and event identifier are absent where the signature belongs to no event message.
/// `exhaust_after_sign` says that the signature uses up the last identifier.
#[derive(Clone, Copy, Debug, PartialEq, Eq, Structural)]
pub struct VsiSigningContextV1 {
    purpose: TrustedVsiSigningPurpose,
    sequence_number: Option<u32>,
    event_id: Option<u32>,
    exhaust_after_sign: bool,
}

/// What a [`VsiSigningContextV1`] says.
pub struct SigningContextView {
    pub purpose: TrustedVsiSigningPurpose,
    pub sequence_number: Option<u32>,
    pub event_id: Option<u32>,
    pub exhaust_after_sign: bool,
}

impl View for VsiSigningContextV1 {
    type V = SigningContextView;

    closed spec fn view(&self) -> SigningContextView {
        SigningContextView {
            purpose: self.purpose,
            sequence_number: self.sequence_number,
            event_id: self.event_id,
            exhaust_after_sign: self.exhaust_after_sign,
        }
    }
}

impl VsiSigningContextV1 {
    /// Why the signature is asked for.
    pub fn purpose(&self) -> (r: TrustedVsiSigningPurpose)
        ensures
            r == self@.purpose,
    {
        self.purpose
    }

    /// The number of the media segment, if it is one.
    pub fn sequence_number(&self) -> (r: Option<u32>)
        ensures
            r == self@.sequence_number,
    {
        self.sequence_number
    }

    /// The event identifier, if one is reserved.
    pub fn event_id(&self) -> (r: Option<u32>)
        ensures
            r == self@.event_id,
    {
        self.event_id
    }

    /// Whether the signature uses up the last identifier.
    pub fn exhaust_after_sign(&self) -> (r: bool)
        ensures
            r == self@.exhaust_after_sign,
    {
        self.exhaust_after_sign
    }
}

/// A reserved initialization UUID box and the identifier of its manifest.
#[derive(Debug, PartialEq, Eq)]
pub struct TrustedVsiInitUuidReservation {
    bytes: Vec<u8>,
    manifest_id: String,
}

impl TrustedVsiInitUuidReservation {
    /// The reserved bytes.
    pub closed spec fn reserved(&self) -> Seq<u8> {
        self.bytes@
    }

    /// The identifier of the manifest.
    pub closed spec fn identifier(&self) -> Seq<char> {
        self.manifest_id@
    }

    /// The reserved bytes.
    pub fn bytes(&self) -> (r: &[u8])
        ensures
            r@ == self.reserved(),
    {
        self.bytes.as_slice()
    }

    /// The identifier of the manifest.
    pub fn manifest_id(&self) -> (r: &str)
        ensures
            r@ == self.identifier(),
    {
        self.manifest_id.as_str()
    }
}

/// A reserved event message and what it will say.
#[derive(Debug, PartialEq, Eq)]
pub struct TrustedVsiMediaEmsgReservation {
    bytes: Vec<u8>,
    signing_time_unix_seconds: i64,
    timescale: u32,
    event_duration: u32,
    signing_context: VsiSigningContextV1,
}

/// What a [`TrustedVsiMediaEmsgReservation`] holds.
pub struct EmsgReservationView {
    pub bytes: Seq<u8>,
    pub signing_time_unix_seconds: i64,
    pub timescale: u32,
    pub event_duration: u32,
    pub signing_context: VsiSigningContextV1,
}

impl View for TrustedVsiMediaEmsgReservation {
    type V = EmsgReservationView;

    closed spec fn view(&self) -> EmsgReservationView {
        EmsgReservationView {
            bytes: self.bytes@,
            signing_time_unix_seconds: self.signing_time_unix_seconds,
            timescale: self.timescale,
            event_duration: self.event_duration,
            signing_context: self.signing_context,
        }
    }
}

/// Why a session came to its end.
#[derive(Clone, Copy, Debug, PartialEq, Eq, Structural)]
pub enum TrustedVsiExhaustionReason {
    /// The last number was used.
    SequenceMax,
    /// The last event identifier was used.
    EventIdMax,
    /// A migrated session stopped at the number that used to mark its end.
    LegacySentinel,
}

impl TrustedVsiMediaEmsgReservation {
    /// The reserved bytes.
    pub fn bytes(&self) -> (r: &[u8])
        ensures
            r@ == self@.bytes,
    {
        self.bytes.as_slice()
    }

    /// The claimed time of signing.
    pub fn signing_time_unix_seconds(&self) -> (r: i64)
        ensures
            r == self@.signing_time_unix_seconds,
    {
        self.signing_time_unix_seconds
    }

    /// The timescale of the event message.
    pub fn timescale(&self) -> (r: u32)
        ensures
            r == self@.timescale,
    {
        self.timescale
    }

    /// The duration of the event message.
    pub fn event_duration(&self) -> (r: u32)
        ensures
            r == self@.event_duration,
    {
        self.event_duration
    }

    /// What the signing callback will be told.
    pub fn signing_context(&self) -> (r: &VsiSigningContextV1)
        ensures
            *r == self@.signing_context,
    {
        &self.signing_context
    }
}

/// The public state of a session.
#[derive(Debug, PartialEq, Eq)]
pub struct TrustedVsiStatus {
    init_uuid_committed: bool,
    init_uuid_pending: bool,
    media_emsg_pending: bool,
    next_sequence_number: Option<u32>,
    next_event_id: Option<u32>,
    exhausted: bool,
    exhaustion_reason: Option<TrustedVsiExhaustionReason>,
}

/// What a [`TrustedVsiStatus`] holds.
pub struct StatusView {
    pub init_uuid_committed: bool,
    pub init_uuid_pending: bool,
    pub media_emsg_pending: bool,
    pub next_sequence_number: Option<u32>,
    pub next_event_id: Option<u32>,
    pub exhausted: bool,
    pub exhaustion_reason: Option<TrustedVsiExhaustionReason>,
}

impl View for TrustedVsiStatus {
    type V = StatusView;

    closed spec fn view(&self) -> StatusView {
        StatusView {
            init_uuid_committed: self.init_uuid_committed,
            init_uuid_pending: self.init_uuid_pending,
            media_emsg_pending: self.media_emsg_pending,
            next_sequence_number: self.next_sequence_number,
            next_event_id: self.next_event_id,
            exhausted: self.exhausted,
            exhaustion_reason: self.exhaustion_reason,
        }
    }
}

impl TrustedVsiStatus {
    /// Whether the initialization UUID box has been committed as published.
    pub fn init_uuid_committed(&self) -> (r: bool)
        ensures
            r == self@.init_uuid_committed,
    {
        self.init_uuid_committed
    }

    /// Whether a reservation of the initialization UUID box is pending.
    pub fn init_uuid_pending(&self) -> (r: bool)
        ensures
            r == self@.init_uuid_pending,
    {
        self.init_uuid_pending
    }

    /// Whether a reservation of an event message is pending.
    pub fn media_emsg_pending(&self) -> (r: bool)
        ensures
            r == self@.media_emsg_pending,
    {
        self.media_emsg_pending
    }

    /// The next number, or none at the end.
    pub fn next_sequence_number(&self) -> (r: Option<u32>)
        ensures
            r == self@.next_sequence_number,
    {
        self.next_sequence_number
    }

    /// The next event identifier, or none at the end.
    pub fn next_event_id(&self) -> (r: Option<u32>)
        ensures
            r == self@.next_event_id,
    {
        self.next_event_id
    }

    /// Whether no identifier is left.
    pub fn exhausted(&self) -> (r: bool)
        ensures
            r == self@.exhausted,
    {
        self.exhausted
    }

    /// Why the session came to its end, if it did.
    pub fn exhaustion_reason(&self) -> (r: Option<TrustedVsiExhaustionReason>)
        ensures
            r == self@.exhaustion_reason,
    {
        self.exhaustion_reason
    }
}

/// A session of prehashed trusted signing.
///
/// The callback is to receive the exact bytes to be signed, and a [`VsiSigningContextV1`].
pub struct TrustedVsiPrehashedSession {
    /// Holds nothing until the interface is implemented.
    pub reserved: (),
}

impl TrustedVsiPrehashedSession {
    /// The capabilities of this build: none.
    pub fn capabilities() -> (r: TrustedVsiCapabilities)
        ensures
            r.mask() == 0,
    {
        TrustedVsiCapabilities::current()
    }

    /// Creates a session with a signing callback, in the context of the caller.
    ///
    /// No argument is looked at, and the callback is not called.
    pub fn from_shared_context_with_callback<C, F>(
        _context: &Arc<C>,
        _manifest_json: &str,
        _config: VsiSessionConfig,
        _callback: F,
    ) -> (r: Result<Self, Error>) where
        F: Fn(&VsiSigningContextV1, &[u8]) -> Result<Vec<u8>, Error>,

        ensures
            r == Err::<Self, Error>(Error::UnsupportedType),
    {
        Err(Error::UnsupportedType)
    }

    /// Reserves an initialization-segment UUID box for a format.
    pub fn reserve_init_uuid(&mut self, _format: &str) -> (r: Result<
        TrustedVsiInitUuidReservation,
        Error,
    >)
        ensures
            r == Err::<TrustedVsiInitUuidReservation, Error>(Error::UnsupportedType),
            *final(self) == *old(self),
    {
        Err(Error::UnsupportedType)
    }

    /// Returns the manifest identifier of the pending initialization reservation.
    pub fn reserved_manifest_id(&self) -> (r: Result<&str, Error>)
        ensures
            r == Err::<&str, Error>(Error::UnsupportedType),
    {
        Err(Error::UnsupportedType)
    }

    /// Finalizes the pending UUID box with a hash that the caller computed.
    pub fn finalize_init_uuid(&mut self, _canonical_bmff_hash: &[u8]) -> (r: Result<Vec<u8>, Error>)
        ensures
            r == Err::<Vec<u8>, Error>(Error::UnsupportedType),
            *final(self) == *old(self),
    {
        Err(Error::UnsupportedType)
    }

    /// Commits the finalized UUID box as published.
    pub fn commit_init_uuid(&mut self) -> (r: Result<(), Error>)
        ensures
            r == Err::<(), Error>(Error::UnsupportedType),
            *final(self) == *old(self),
    {
        Err(Error::UnsupportedType)
    }

    /// Signs an event message and the exact bytes to be signed, both composed by the caller.
    pub fn sign_emsg_sig_structure(
        &mut self,
        _emsg_skeleton: &[u8],
        _sig_structure: &[u8],
    ) -> (r: Result<Vec<u8>, Error>)
        ensures
            r == Err::<Vec<u8>, Error>(Error::UnsupportedType),
            *final(self) == *old(self),
    {
        Err(Error::UnsupportedType)
    }

    /// Reserves an event message that the signer composes, at an explicit time.
    pub fn reserve_media_emsg_at(
        &mut self,
        _signing_time_unix_seconds: i64,
        _timescale: u32,
        _event_duration: u32,
    ) -> (r: Result<TrustedVsiMediaEmsgReservation, Error>)
        ensures
            r == Err::<TrustedVsiMediaEmsgReservation, Error>(Error::UnsupportedType),
            *final(self) == *old(self),
    {
        Err(Error::UnsupportedType)
    }

    /// Finalizes the pending event message with a hash that the caller computed.
    pub fn finalize_media_emsg(&mut self, _canonical_bmff_hash: &[u8]) -> (r: Result<
        Vec<u8>,
        Error,
    >)
        ensures
            r == Err::<Vec<u8>, Error>(Error::UnsupportedType),
            *final(self) == *old(self),
    {
        Err(Error::UnsupportedType)
    }

    /// Recovers the state from a signed UUID box and, if there is one, the event message signed last.
    pub fn recover(
        &mut self,
        _signed_uuid_box: &[u8],
        _previous_signed_emsg: Option<&[u8]>,
    ) -> (r: Result<(), Error>)
        ensures
            r == Err::<(), Error>(Error::UnsupportedType),
            *final(self) == *old(self),
    {
        Err(Error::UnsupportedType)
    }

    /// Returns the public state.
    pub fn status(&self) -> (r: Result<TrustedVsiStatus, Error>)
        ensures
            r == Err::<TrustedVsiStatus, Error>(Error::UnsupportedType),
    {
        Err(Error::UnsupportedType)
    }
}

} // verus!
