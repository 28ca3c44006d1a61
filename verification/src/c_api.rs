//! What the C interface decides, apart from pointers and handles.

use vstd::prelude::*;
use vstd::slice::slice_subrange;
use vstd::string::StringExecFns;

use crate::bmff::{media_sequence_number, moof_sequence_number};
use crate::bytes::to_vec;
use crate::cose::SigningAlg;
use crate::error::{agrees, bad_param, bad_param_with, Error, Failure};
use crate::text::{decimal, decimal_text, signed_decimal, signed_decimal_text};

verus! {

/// Why a signing callback is called.
#[derive(Clone, Copy, Debug, PartialEq, Eq, Structural)]
pub enum C2paLiveVideoVsiSigningPurpose {
    /// To sign the certificate of the manifest signer.
    SignerBinding,
    /// To sign a media segment.
    Vsi,
}

impl C2paLiveVideoVsiSigningPurpose {
    /// The number of the purpose.
    pub open spec fn number(self) -> u32 {
        match self {
            C2paLiveVideoVsiSigningPurpose::SignerBinding => 0,
            C2paLiveVideoVsiSigningPurpose::Vsi => 1,
        }
    }

    /// The number of the purpose.
    pub fn code(self) -> (r: u32)
        ensures
            r == self.number(),
    {
        match self {
            C2paLiveVideoVsiSigningPurpose::SignerBinding => 0,
            C2paLiveVideoVsiSigningPurpose::Vsi => 1,
        }
    }
}

/// The sequence number that a callback is given where there is none.
pub const C2PA_LIVE_VIDEO_VSI_NO_SEQUENCE: u64 = 0xffff_ffff_ffff_ffff;

/// The purpose of a trusted callback which binds the session key.
pub const C2PA_LIVE_VIDEO_TRUSTED_VSI_PURPOSE_SIGNER_BINDING: u32 = 0;

/// The purpose of a trusted callback which signs a media segment.
pub const C2PA_LIVE_VIDEO_TRUSTED_VSI_PURPOSE_VSI: u32 = 1;

/// A session has not come to its end.
pub const C2PA_LIVE_VIDEO_TRUSTED_VSI_EXHAUSTION_REASON_NONE: u32 = 0;

/// The last number was used.
pub const C2PA_LIVE_VIDEO_TRUSTED_VSI_EXHAUSTION_REASON_SEQUENCE_MAX: u32 = 1;

/// The last event identifier was used.
pub const C2PA_LIVE_VIDEO_TRUSTED_VSI_EXHAUSTION_REASON_EVENT_ID_MAX: u32 = 2;

/// A migrated session stopped at the number that used to mark its end.
pub const C2PA_LIVE_VIDEO_TRUSTED_VSI_EXHAUSTION_REASON_LEGACY_SENTINEL: u32 = 3;

/// Why the session key is to sign something.
#[derive(Clone, Copy, Debug, PartialEq, Eq, Structural)]
pub enum VsiSigningPurpose {
    /// To sign the certificate of the manifest signer.
    SignerBinding,
    /// To sign the media segment with the given number.
    Vsi { sequence_number: u64 },
}

/// The purpose and the sequence number that a callback is given.
pub open spec fn callback_arguments(purpose: VsiSigningPurpose) -> (
    C2paLiveVideoVsiSigningPurpose,
    u64,
) {
    match purpose {
        VsiSigningPurpose::SignerBinding => (
            C2paLiveVideoVsiSigningPurpose::SignerBinding,
            C2PA_LIVE_VIDEO_VSI_NO_SEQUENCE,
        ),
        VsiSigningPurpose::Vsi { sequence_number } => (
            C2paLiveVideoVsiSigningPurpose::Vsi,
            sequence_number,
        ),
    }
}

/// The number of bytes that a callback can write.
pub const CALLBACK_CAPACITY: usize = 64;

/// The signature that a callback wrote, given what it returned and what it left in the buffer.
pub open spec fn callback_signature(written: isize, buffer: Seq<u8>) -> Result<Seq<u8>, Failure> {
    if written < 0 {
        Err(
            Failure::BadParam(
                "VSI signing callback returned error code "@ + signed_decimal(written as int),
            ),
        )
    } else if written > buffer.len() {
        Err(
            Failure::BadParam(
                "VSI signing callback reported "@ + decimal(written as nat)
                    + " bytes, exceeding output capacity "@ + decimal(buffer.len()),
            ),
        )
    } else {
        Ok(buffer.take(written as int))
    }
}

/// Says which purpose and sequence number a callback is given.
pub fn callback_purpose(purpose: VsiSigningPurpose) -> (r: (C2paLiveVideoVsiSigningPurpose, u64))
    ensures
        r == callback_arguments(purpose),
{
    match purpose {
        VsiSigningPurpose::SignerBinding => (
            C2paLiveVideoVsiSigningPurpose::SignerBinding,
            C2PA_LIVE_VIDEO_VSI_NO_SEQUENCE,
        ),
        VsiSigningPurpose::Vsi { sequence_number } => (
            C2paLiveVideoVsiSigningPurpose::Vsi,
            sequence_number,
        ),
    }
}

/// Takes the signature that a callback wrote.
pub fn take_callback_signature(written: isize, buffer: &[u8]) -> (r: Result<Vec<u8>, Error>)
    ensures
        match callback_signature(written, buffer@) {
            Err(failure) => r matches Err(e) && e@ == failure,
            Ok(signature) => r matches Ok(v) && v@ == signature,
        },
{
    if written < 0 {
        return Err(
            bad_param_with(
                "VSI signing callback returned error code ",
                signed_decimal_text(written).as_str(),
            ),
        );
    }
    let count: usize = written as usize;
    if count > buffer.len() {
        let mut text: String = "VSI signing callback reported ".to_string();
        text.append(decimal_text(count as u64).as_str());
        text.append(" bytes, exceeding output capacity ");
        text.append(decimal_text(buffer.len() as u64).as_str());
        return Err(Error::BadParam(text));
    }
    let signature: &[u8] = slice_subrange(buffer, 0, count);
    assert(signature@ =~= buffer@.take(written as int));
    Ok(to_vec(signature))
}

/// Signs with a callback, which returns what it reports and what it left in its buffer.
pub fn sign_with_callback<
    F: Fn(C2paLiveVideoVsiSigningPurpose, u64, &[u8]) -> (isize, [u8; CALLBACK_CAPACITY]),
>(purpose: VsiSigningPurpose, tbs: &[u8], callback: F) -> (r: Result<Vec<u8>, Error>)
    requires
        forall|p: C2paLiveVideoVsiSigningPurpose, n: u64, data: &[u8]|
            call_requires(callback, (p, n, data)),
    ensures
        exists|data: &[u8], output: (isize, [u8; CALLBACK_CAPACITY])| #[trigger]
            call_ensures(
                callback,
                (callback_arguments(purpose).0, callback_arguments(purpose).1, data),
                output,
            ) && data@ == tbs@ && match callback_signature(output.0, output.1@) {
                Err(failure) => r matches Err(e) && e@ == failure,
                Ok(signature) => r matches Ok(v) && v@ == signature,
            },
{
    let (code, sequence_number) = callback_purpose(purpose);
    let (written, buffer) = callback(code, sequence_number, tbs);
    take_callback_signature(written, &buffer)
}

/// The session seed in a buffer.
pub open spec fn seed_of(bytes: Seq<u8>) -> Result<Seq<u8>, Failure> {
    if bytes.len() == 32 {
        Ok(bytes)
    } else {
        Err(
            Failure::BadParam(
                "Ed25519 seed must contain exactly 32 bytes, got "@ + decimal(bytes.len()),
            ),
        )
    }
}

/// Takes a session seed from a buffer.
pub fn seed_from_slice(bytes: &[u8]) -> (r: Result<[u8; 32], Error>)
    ensures
        match seed_of(bytes@) {
            Err(failure) => r matches Err(e) && e@ == failure,
            Ok(seed) => r matches Ok(a) && a@ == seed,
        },
{
    if bytes.len() != 32 {
        return Err(
            bad_param_with(
                "Ed25519 seed must contain exactly 32 bytes, got ",
                decimal_text(bytes.len() as u64).as_str(),
            ),
        );
    }
    let mut seed: [u8; 32] = [0u8; 32];
    let mut i: usize = 0;
    while i < 32
        invariant
            i <= 32,
            bytes@.len() == 32,
            forall|j: int| 0 <= j < i ==> seed@[j] == bytes@[j],
        decreases 32 - i,
    {
        seed[i] = bytes[i];
        i = i + 1;
    }
    assert(seed@ =~= bytes@);
    Ok(seed)
}

/// Whether a callback can sign with an algorithm.
pub open spec fn callback_algorithm(algorithm: SigningAlg) -> Result<(), Failure> {
    if algorithm == SigningAlg::Ed25519 || algorithm == SigningAlg::Es256 {
        Ok(())
    } else {
        Err(Failure::BadParam("VSI callback signing supports only Ed25519 and ES256"@))
    }
}

/// Checks that a callback can sign with an algorithm.
pub fn check_callback_algorithm(algorithm: SigningAlg) -> (r: Result<(), Error>)
    ensures
        agrees(r, callback_algorithm(algorithm)),
{
    if algorithm == SigningAlg::Ed25519 || algorithm == SigningAlg::Es256 {
        Ok(())
    } else {
        Err(bad_param("VSI callback signing supports only Ed25519 and ES256"))
    }
}

/// Reads the number of a media segment, or says why there is none.
pub fn probe_moof_sequence_number(media_segment: &[u8]) -> (r: Result<u32, Error>)
    ensures
        match media_sequence_number(media_segment@) {
            Some(number) => r == Ok::<u32, Error>(number),
            None => r matches Err(e) && e@ == Failure::BadParam(
                "media segment must contain exactly one moof/traf and a valid mfhd"@,
            ),
        },
{
    match moof_sequence_number(media_segment) {
        Some(number) => Ok(number),
        None => Err(bad_param("media segment must contain exactly one moof/traf and a valid mfhd")),
    }
}

/// The length of a signed segment as it is returned, or the given complaint.
pub fn returned_length(length: usize, complaint: &str) -> (r: Result<i64, Error>)
    ensures
        if length <= i64::MAX {
            r matches Ok(n) && n == length
        } else {
            r matches Err(e) && e@ == Failure::BadParam(complaint@)
        },
{
    if length as u64 > i64::MAX as u64 {
        return Err(bad_param(complaint));
    }
    Ok(length as i64)
}

/// What a trusted signing callback is told.
///
/// `has_sequence_number` and `has_event_id` tell absent values from zero.
#[derive(Clone, Copy, Debug, PartialEq, Eq, Structural)]
pub struct C2paLiveVideoTrustedVsiSigningContextV1 {
    pub purpose: u32,
    pub sequence_number: u32,
    pub has_sequence_number: bool,
    pub event_id: u32,
    pub has_event_id: bool,
    pub exhaust_after_sign: bool,
}

impl C2paLiveVideoTrustedVsiSigningContextV1 {
    /// A context that says nothing.
    pub fn empty() -> (r: Self)
        ensures
            r == (C2paLiveVideoTrustedVsiSigningContextV1 {
                purpose: C2PA_LIVE_VIDEO_TRUSTED_VSI_PURPOSE_SIGNER_BINDING,
                sequence_number: 0,
                has_sequence_number: false,
                event_id: 0,
                has_event_id: false,
                exhaust_after_sign: false,
            }),
    {
        C2paLiveVideoTrustedVsiSigningContextV1 {
            purpose: C2PA_LIVE_VIDEO_TRUSTED_VSI_PURPOSE_SIGNER_BINDING,
            sequence_number: 0,
            has_sequence_number: false,
            event_id: 0,
            has_event_id: false,
            exhaust_after_sign: false,
        }
    }
}

/// The public state of a trusted session.
#[derive(Clone, Copy, Debug, PartialEq, Eq, Structural)]
pub struct C2paLiveVideoTrustedVsiStatusV1 {
    pub init_uuid_committed: bool,
    pub init_uuid_pending: bool,
    pub media_emsg_pending: bool,
    pub has_next_sequence_number: bool,
    pub next_sequence_number: u32,
    pub has_next_event_id: bool,
    pub next_event_id: u32,
    pub exhausted: bool,
    pub has_exhaustion_reason: bool,
    pub exhaustion_reason: u32,
}

impl Default for C2paLiveVideoTrustedVsiStatusV1 {
    fn default() -> (r: Self)
        ensures
            r == (C2paLiveVideoTrustedVsiStatusV1 {
                init_uuid_committed: false,
                init_uuid_pending: false,
                media_emsg_pending: false,
                has_next_sequence_number: false,
                next_sequence_number: 0,
                has_next_event_id: false,
                next_event_id: 0,
                exhausted: false,
                has_exhaustion_reason: false,
                exhaustion_reason: C2PA_LIVE_VIDEO_TRUSTED_VSI_EXHAUSTION_REASON_NONE,
            }),
    {
        C2paLiveVideoTrustedVsiStatusV1 {
            init_uuid_committed: false,
            init_uuid_pending: false,
            media_emsg_pending: false,
            has_next_sequence_number: false,
            next_sequence_number: 0,
            has_next_event_id: false,
            next_event_id: 0,
            exhausted: false,
            has_exhaustion_reason: false,
            exhaustion_reason: C2PA_LIVE_VIDEO_TRUSTED_VSI_EXHAUSTION_REASON_NONE,
        }
    }
}

/// A trusted session, which is reserved.
pub struct C2paLiveVideoTrustedVsiSession {
    /// Holds nothing until the interface is implemented.
    pub reserved: (),
}

} // verus!
