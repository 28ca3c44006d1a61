//! Session keys: what an initialization manifest publishes of the key that signs its segments.

use vstd::prelude::*;

use crate::bytes::to_vec;
use crate::cbor::{cbor_bytes, cbor_encoding, copy_value, decode_value, encode_bytes, encode_value};
use crate::clock::{parse_utc_seconds, utc_seconds, DateT};
use crate::cose::{
    decode_sign1, decoded_sign1, eddsa_message, encode_header, encode_sign1,
    encode_signature_input, encoded, header_map, message_alg, sign1_bytes, signature_input,
    signing_alg_from_sign1, Sign1, Sign1View, SigningAlg, ALG_EDDSA,
};
use crate::ed25519::{
    ed25519_check, ed25519_signature, neutral_point, signature_from_slice, Ed25519SessionKey,
    SIGNATURE_LENGTH,
};
use crate::error::{agrees, bad_param, bad_param_with, Error, Failure};

verus! {

/// What the library reads of a COSE key.
#[derive(Debug, PartialEq, Eq)]
pub struct CoseKey {
    /// The key identifier.
    pub kid: Option<Vec<u8>>,
    /// The signature algorithm, where it is supported and fits the key.
    pub alg: Option<SigningAlg>,
    /// The public key, where it is well-formed.
    pub public_key: Option<Vec<u8>>,
}

/// What a [`CoseKey`] holds.
pub struct CoseKeyView {
    pub kid: Option<Seq<u8>>,
    pub alg: Option<SigningAlg>,
    pub public_key: Option<Seq<u8>>,
}

/// What an optional byte vector stands for.
pub open spec fn bytes_view(bytes: Option<Vec<u8>>) -> Option<Seq<u8>> {
    match bytes {
        Some(b) => Some(b@),
        None => None,
    }
}

impl View for CoseKey {
    type V = CoseKeyView;

    open spec fn view(&self) -> CoseKeyView {
        CoseKeyView {
            kid: bytes_view(self.kid),
            alg: self.alg,
            public_key: bytes_view(self.public_key),
        }
    }
}

/// A session key as a manifest publishes it.
pub struct SessionKey {
    pub key: CoseKey,
    /// The first sequence number for which the key is valid.
    pub min_sequence_number: u64,
    pub created_at: DateT,
    /// For how many seconds the key is valid.
    pub validity_period: u64,
    /// The `COSE_Sign1` by which the key signs the certificate of the manifest signer.
    pub signer_binding: c2pa_cbor::Value,
}

/// What a [`SessionKey`] holds.
pub struct SessionKeyView {
    pub key: CoseKeyView,
    pub min_sequence_number: u64,
    pub created_at: Seq<char>,
    pub validity_period: u64,
    pub signer_binding: Seq<u8>,
}

impl View for SessionKey {
    type V = SessionKeyView;

    open spec fn view(&self) -> SessionKeyView {
        SessionKeyView {
            key: self.key@,
            min_sequence_number: self.min_sequence_number,
            created_at: self.created_at.0@,
            validity_period: self.validity_period,
            signer_binding: cbor_encoding(self.signer_binding),
        }
    }
}

/// The `c2pa.session-keys` assertion.
pub struct SessionKeys {
    pub keys: Vec<SessionKey>,
}

/// The label of the assertion that publishes session keys.
pub const SESSION_KEYS_LABEL: &'static str = "c2pa.session-keys";

/// What a vector of session keys stands for.
pub open spec fn key_views(keys: Seq<SessionKey>) -> Seq<SessionKeyView> {
    Seq::new(keys.len(), |i: int| keys[i]@)
}

/// Copies bytes that may be absent.
pub fn copy_bytes(bytes: &Option<Vec<u8>>) -> (r: Option<Vec<u8>>)
    ensures
        bytes_view(r) == bytes_view(*bytes),
{
    match bytes {
        Some(b) => Some(to_vec(b.as_slice())),
        None => None,
    }
}

impl CoseKey {
    /// Copies the key.
    pub fn copy(&self) -> (r: CoseKey)
        ensures
            r@ == self@,
    {
        CoseKey {
            kid: copy_bytes(&self.kid),
            alg: self.alg,
            public_key: copy_bytes(&self.public_key),
        }
    }
}

impl SessionKey {
    /// Copies the key.
    pub fn copy(&self) -> (r: SessionKey)
        ensures
            r@ == self@,
    {
        SessionKey {
            key: self.key.copy(),
            min_sequence_number: self.min_sequence_number,
            created_at: DateT(self.created_at.0.clone()),
            validity_period: self.validity_period,
            signer_binding: copy_value(&self.signer_binding),
        }
    }
}

/// The COSE key of an Ed25519 session key.
pub open spec fn ed25519_cose_key(public_key: Seq<u8>, kid: Seq<u8>) -> CoseKeyView {
    CoseKeyView { kid: Some(kid), alg: Some(SigningAlg::Ed25519), public_key: Some(public_key) }
}

/// The COSE key of an Ed25519 session key.
pub fn build_ed25519_cose_key(public_key: Vec<u8>, kid: Vec<u8>) -> (r: CoseKey)
    ensures
        r@ == ed25519_cose_key(public_key@, kid@),
{
    CoseKey { kid: Some(kid), alg: Some(SigningAlg::Ed25519), public_key: Some(public_key) }
}

// Validity.

/// When a key is valid: from its creation, for its validity period.
pub open spec fn validity_end(created: i64, validity_period: u64) -> Result<i64, Failure> {
    if validity_period > i64::MAX {
        Err(Failure::BadParam("session key validityPeriod overflow"@))
    } else if created + validity_period > i64::MAX {
        Err(Failure::BadParam("session key validity window overflow"@))
    } else {
        Ok((created + validity_period) as i64)
    }
}

/// Whether a key is valid at a time, given when it was created.
pub open spec fn valid_at(created: Option<i64>, validity_period: u64, time: i64) -> Result<
    (),
    Failure,
> {
    match created {
        None => Err(
            Failure::BadParam("session key createdAt is not a valid RFC 3339 datetime"@),
        ),
        Some(created) => match validity_end(created, validity_period) {
            Err(e) => Err(e),
            Ok(end) => if time < created || time > end {
                Err(Failure::BadParam("session key is outside its published validity period"@))
            } else {
                Ok(())
            },
        },
    }
}

/// Whether a key is valid at a time.
pub open spec fn key_valid_at(created_at: Seq<char>, validity_period: u64, time: i64) -> Result<
    (),
    Failure,
> {
    valid_at(utc_seconds(created_at), validity_period, time)
}

/// Whether what a key publishes of its validity makes sense, given when it was created.
pub open spec fn dated_metadata(key: SessionKeyView, created: Option<i64>) -> Result<(), Failure> {
    if key.validity_period == 0 {
        Err(Failure::BadParam("signed initialization session key has zero validityPeriod"@))
    } else if key.min_sequence_number > u32::MAX {
        Err(Failure::BadParam("signed initialization minSequenceNumber does not fit mfhd"@))
    } else {
        match created {
            None => Err(Failure::BadParam("session key createdAt is invalid"@)),
            Some(created) => match validity_end(created, key.validity_period) {
                Err(e) => Err(e),
                Ok(_) => Ok(()),
            },
        }
    }
}

/// Whether what a key publishes of its validity makes sense.
pub open spec fn key_metadata(key: SessionKeyView) -> Result<(), Failure> {
    dated_metadata(key, utc_seconds(key.created_at))
}

fn find_validity_end(created: i64, validity_period: u64) -> (r: Result<i64, Error>)
    ensures
        agrees(r, validity_end(created, validity_period)),
{
    if validity_period > i64::MAX as u64 {
        return Err(bad_param("session key validityPeriod overflow"));
    }
    let validity: i64 = validity_period as i64;
    if created > i64::MAX - validity {
        return Err(bad_param("session key validity window overflow"));
    }
    Ok(created + validity)
}

/// Checks that a key is valid at a time, given when it was created.
pub fn ensure_valid_at(created: Option<i64>, validity_period: u64, time: i64) -> (r: Result<
    (),
    Error,
>)
    ensures
        agrees(r, valid_at(created, validity_period, time)),
{
    let start: i64 = match created {
        Some(start) => start,
        None => {
            return Err(bad_param("session key createdAt is not a valid RFC 3339 datetime"));
        },
    };
    let end: i64 = find_validity_end(start, validity_period)?;
    if time < start || time > end {
        return Err(bad_param("session key is outside its published validity period"));
    }
    Ok(())
}

/// Checks that a key is valid at a time.
pub fn ensure_key_valid_at(created_at: &DateT, validity_period: u64, time: i64) -> (r: Result<
    (),
    Error,
>)
    ensures
        agrees(r, key_valid_at(created_at.0@, validity_period, time)),
{
    ensure_valid_at(parse_utc_seconds(created_at.0.as_str()), validity_period, time)
}

/// Checks what a key publishes of its validity.
pub fn validate_session_key_metadata(key: &SessionKey) -> (r: Result<(), Error>)
    ensures
        agrees(r, key_metadata(key@)),
{
    validate_dated_metadata(key, parse_utc_seconds(key.created_at.0.as_str()))
}

/// Checks what a key publishes of its validity, given when it was created.
pub fn validate_dated_metadata(key: &SessionKey, created: Option<i64>) -> (r: Result<(), Error>)
    ensures
        agrees(r, dated_metadata(key@, created)),
{
    if key.validity_period == 0 {
        return Err(bad_param("signed initialization session key has zero validityPeriod"));
    }
    if key.min_sequence_number > u32::MAX as u64 {
        return Err(bad_param("signed initialization minSequenceNumber does not fit mfhd"));
    }
    match created {
        None => Err(bad_param("session key createdAt is invalid")),
        Some(created) => {
            let _end: i64 = find_validity_end(created, key.validity_period)?;
            Ok(())
        },
    }
}

// The binding to the manifest signer.

/// The protected header of a binding: the algorithm alone.
pub open spec fn binding_header() -> Seq<u8> {
    header_map(ALG_EDDSA as int, None)
}

/// The bytes that a binding signs: the certificate, as a byte string outside the message.
pub open spec fn binding_input(protected: Seq<u8>, cert: Seq<u8>) -> Seq<u8> {
    signature_input(protected, seq![], cbor_bytes(cert))
}

/// The binding of a session key to a certificate: a detached message that the session key signs.
pub open spec fn binding_message(seed: Seq<u8>, cert: Seq<u8>) -> Sign1View {
    eddsa_message(
        None,
        seq![],
        None,
        ed25519_signature(seed, binding_input(binding_header(), cert)),
    )
}

/// Builds the tagged message that binds a session key to a certificate.
fn build_binding_bytes(cert: &[u8], key: &Ed25519SessionKey) -> (r: Result<Vec<u8>, Error>)
    ensures
        r matches Ok(v) && v@ == encoded(binding_message(key.seed@, cert@)),
        binding_message(key.seed@, cert@).signature.len() == SIGNATURE_LENGTH,
{
    let payload: Vec<u8> = match encode_bytes(cert) {
        Ok(bytes) => bytes,
        Err(words) => {
            return Err(bad_param_with("failed to CBOR-encode EE certificate: ", words.as_str()));
        },
    };
    let protected: Vec<u8> = match encode_header(ALG_EDDSA, None) {
        Ok(bytes) => bytes,
        Err(words) => {
            return Err(bad_param_with("failed to encode signer binding: ", words.as_str()));
        },
    };
    let nothing: Vec<u8> = Vec::new();
    assert(nothing@ =~= seq![]);
    let input: Vec<u8> = encode_signature_input(
        protected.as_slice(),
        nothing.as_slice(),
        payload.as_slice(),
    );
    let signature: Vec<u8> = key.sign(input.as_slice());
    match encode_sign1(protected.as_slice(), nothing.as_slice(), None, signature.as_slice()) {
        Ok(bytes) => Ok(bytes),
        Err(words) => Err(bad_param_with("failed to encode signer binding: ", words.as_str())),
    }
}

/// Builds the binding of a session key to a certificate, to be published in a manifest: the tagged
/// message as a CBOR value, not as a byte string.
pub fn build_signer_binding(cert: &[u8], key: &Ed25519SessionKey) -> (r: Result<
    c2pa_cbor::Value,
    Error,
>)
    ensures
        r matches Ok(v) && cbor_encoding(v) == encoded(binding_message(key.seed@, cert@)),
{
    let bytes: Vec<u8> = build_binding_bytes(cert, key)?;
    proof {
        let message = binding_message(key.seed@, cert@);
        assert(message.protected.len() == 3);
        assert(bytes@ == sign1_bytes(
            message.protected,
            message.key_id,
            message.payload,
            message.signature,
        ));
    }
    match decode_value(bytes.as_slice()) {
        Ok(value) => Ok(value),
        Err(words) => Err(
            bad_param_with("failed to decode signer binding as CBOR Value: ", words.as_str()),
        ),
    }
}

/// Whether a message that was read is a binding of the session key to a certificate.
pub open spec fn checked_binding(message: Sign1View, seed: Seq<u8>, cert: Seq<u8>) -> Result<
    (),
    Failure,
> {
    if message.payload is Some || message.unprotected_alg {
        Err(Failure::BadParam("signerBinding must be detached and use protected EdDSA"@))
    } else if message_alg(message) is None {
        Err(Failure::BadParam("signerBinding has invalid protected alg"@))
    } else if message_alg(message) != Some(SigningAlg::Ed25519) {
        Err(Failure::BadParam("signerBinding must be detached and use protected EdDSA"@))
    } else if message.signature.len() != SIGNATURE_LENGTH {
        Err(Failure::BadParam("invalid signerBinding signature: "@ + "signature error"@))
    } else {
        match ed25519_check(seed, binding_input(message.protected, cert), message.signature) {
            Err(words) => Err(
                Failure::BadParam("signerBinding verification failed: "@ + words),
            ),
            Ok(_) => Ok(()),
        }
    }
}

/// Whether tagged bytes are a binding of the session key to a certificate.
pub open spec fn restored_binding(binding: Seq<u8>, seed: Seq<u8>, cert: Seq<u8>) -> Result<
    (),
    Failure,
> {
    match decoded_sign1(binding) {
        Err(words) => Err(Failure::BadParam("invalid signerBinding COSE_Sign1: "@ + words)),
        Ok(message) => checked_binding(message, seed, cert),
    }
}

/// Checks that a message binds the session key to a certificate.
pub fn check_signer_binding(message: &Sign1, key: &Ed25519SessionKey, cert: &[u8]) -> (r: Result<
    (),
    Error,
>)
    ensures
        agrees(r, checked_binding(message@, key.seed@, cert@)),
        message@ == binding_message(key.seed@, cert@) && message@.signature.take(32)
            != neutral_point() && message@.signature.len() == SIGNATURE_LENGTH ==> r is Ok,
{
    if message.payload.is_some() || message.unprotected_alg {
        return Err(bad_param("signerBinding must be detached and use protected EdDSA"));
    }
    match signing_alg_from_sign1(message) {
        None => {
            return Err(bad_param("signerBinding has invalid protected alg"));
        },
        Some(alg) => {
            if alg != SigningAlg::Ed25519 {
                return Err(bad_param("signerBinding must be detached and use protected EdDSA"));
            }
        },
    }
    let payload: Vec<u8> = match encode_bytes(cert) {
        Ok(bytes) => bytes,
        Err(words) => {
            return Err(
                bad_param_with("failed to encode signerBinding certificate: ", words.as_str()),
            );
        },
    };
    let signature: [u8; 64] = match signature_from_slice(message.signature.as_slice()) {
        Ok(signature) => signature,
        Err(words) => {
            return Err(bad_param_with("invalid signerBinding signature: ", words.as_str()));
        },
    };
    let nothing: Vec<u8> = Vec::new();
    assert(nothing@ =~= seq![]);
    let input: Vec<u8> = encode_signature_input(
        message.protected.as_slice(),
        nothing.as_slice(),
        payload.as_slice(),
    );
    match key.verify_strict(input.as_slice(), &signature) {
        Ok(_) => Ok(()),
        Err(words) => Err(bad_param_with("signerBinding verification failed: ", words.as_str())),
    }
}

/// Checks that a published value binds the session key to a certificate.
///
/// The binding that was built for the key and the certificate is accepted, unless the first half of
/// its signature is the encoding of the neutral point.
pub fn verify_restored_signer_binding(
    signer_binding: &c2pa_cbor::Value,
    key: &Ed25519SessionKey,
    cert: &[u8],
) -> (r: Result<(), Error>)
    ensures
        agrees(r, restored_binding(cbor_encoding(*signer_binding), key.seed@, cert@)),
        cbor_encoding(*signer_binding) == encoded(binding_message(key.seed@, cert@))
            && binding_message(key.seed@, cert@).signature.len() == SIGNATURE_LENGTH
            && binding_message(key.seed@, cert@).signature.take(32) != neutral_point() ==> r is Ok,
{
    let bytes: Vec<u8> = match encode_value(signer_binding) {
        Ok(bytes) => bytes,
        Err(_) => {
            return Err(bad_param("session key signerBinding is malformed"));
        },
    };
    match decode_sign1(bytes.as_slice()) {
        Err(words) => Err(bad_param_with("invalid signerBinding COSE_Sign1: ", words.as_str())),
        Ok(message) => check_signer_binding(&message, key, cert),
    }
}

} // verus!
