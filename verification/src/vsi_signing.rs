//! Signing with Verifiable Segment Info.
//!
//! Each media segment carries a `COSE_Sign1` in an `emsg` box that a session key signs. The
//! initialization segment publishes the session key in a `c2pa.session-keys` assertion; the
//! `signerBinding` of the key is a detached `COSE_Sign1` by which the session key signs the
//! certificate of the manifest signer.
//!
//! Manifests, segment hashes and the encoding of the segment info map come from the host.

use vstd::prelude::*;
use vstd::string::StringExecFns;

use crate::bmff::{
    init_info, media_info, parse_init_segment, parse_media_segment, InitSegmentInfo,
    MediaSegmentInfo,
};
use crate::bytes::{push_bytes, same_bytes, to_vec};
use crate::cbor::{cbor_encoding, copy_value};
use crate::certificates::{byte_views, parse_pem_contents, pem_contents};
use crate::clock::{current_date, current_seconds, DateT};
use crate::cose::{
    claimed_time, eddsa_message, encode_header, encode_sign1, encode_signature_input, encoded,
    header_map, message_alg, protected_iat, signature_input, signing_alg_from_sign1, Sign1,
    Sign1View, SigningAlg, ALG_EDDSA, IAT_LABEL,
};
use crate::ed25519::{
    ed25519_check, ed25519_public_key, ed25519_signature, neutral_point, signature_from_slice,
    Ed25519SessionKey, SIGNATURE_LENGTH,
};
use crate::error::{agrees, bad_param, bad_param_with, Error, Failure};
use crate::live_manifest::{live_manifest_text, prepare_live_manifest_json};
use crate::manifest_report::{
    check_c2pa_urn, find_integrity_failure, first_integrity_failure, is_c2pa_urn, status_views,
    text_view, ReportedStatus,
};
use crate::segment_info::{
    build_segment_bmff_hash, build_segment_bmff_hash_placeholder, hash_outcome, hashing_outcome,
    parse_vsi, placeholder_outcome, verify_segment_bmff_hash, vsi_outcome, BmffHash, ParsedVsi,
    SegmentInfo, SegmentInfoMap,
};
use crate::session_keys::{
    binding_message, build_ed25519_cose_key, build_signer_binding, bytes_view, ed25519_cose_key,
    key_metadata, key_valid_at, key_views, restored_binding, validate_session_key_metadata,
    verify_restored_signer_binding, CoseKey, CoseKeyView, SessionKey, SessionKeyView, SessionKeys,
};
use crate::text::{decimal, decimal_text, same_text};
use crate::verifiable_segment_info::{
    build_emsg_box, built_emsg_box, contains_c2pa_vsi_scheme, extract_vsi_emsg_from_segment,
    segment_event, vsi_candidates, vsi_event, EmsgEvent, VsiEmsg,
};

verus! {

// The message of a media segment.

/// The protected header of the message of a media segment: the algorithm and the claimed time of
/// signing.
pub open spec fn vsi_header(iat: i64) -> Seq<u8> {
    header_map(ALG_EDDSA as int, Some((IAT_LABEL@, iat as int)))
}

/// The message of a media segment.
pub open spec fn vsi_message(
    iat: i64,
    kid: Seq<u8>,
    payload: Seq<u8>,
    signature: Seq<u8>,
) -> Sign1View {
    eddsa_message(Some((IAT_LABEL@, iat)), kid, Some(payload), signature)
}

/// The signature of the message of a media segment.
pub open spec fn vsi_signature(seed: Seq<u8>, iat: i64, payload: Seq<u8>) -> Seq<u8> {
    ed25519_signature(seed, signature_input(vsi_header(iat), seq![], payload))
}

/// As many zeros as a signature has bytes.
pub open spec fn blank_signature() -> Seq<u8> {
    Seq::new(SIGNATURE_LENGTH as nat, |i: int| 0u8)
}

fn encode_vsi_header(iat: i64) -> (r: Result<Vec<u8>, Error>)
    ensures
        r matches Ok(v) && v@ == vsi_header(iat),
{
    match encode_header(ALG_EDDSA, Some((IAT_LABEL, iat))) {
        Ok(bytes) => Ok(bytes),
        Err(words) => Err(bad_param_with("failed to encode COSE_Sign1: ", words.as_str())),
    }
}

/// Builds the message of a media segment with the given signature.
pub fn seal_vsi_cose_sign1(payload: &[u8], kid: &[u8], iat: i64, signature: &[u8]) -> (r: Result<
    Vec<u8>,
    Error,
>)
    ensures
        r matches Ok(v) && v@ == encoded(vsi_message(iat, kid@, payload@, signature@)),
{
    let protected: Vec<u8> = encode_vsi_header(iat)?;
    match encode_sign1(protected.as_slice(), kid, Some(payload), signature) {
        Ok(bytes) => Ok(bytes),
        Err(words) => Err(bad_param_with("failed to encode COSE_Sign1: ", words.as_str())),
    }
}

/// Builds the signed message of a media segment.
pub fn build_vsi_cose_sign1(payload: &[u8], key: &Ed25519SessionKey, kid: &[u8], iat: i64) -> (r:
    Result<Vec<u8>, Error>)
    ensures
        r matches Ok(v) && v@ == encoded(
            vsi_message(iat, kid@, payload@, vsi_signature(key.seed@, iat, payload@)),
        ),
        vsi_signature(key.seed@, iat, payload@).len() == SIGNATURE_LENGTH,
{
    let protected: Vec<u8> = encode_vsi_header(iat)?;
    let nothing: Vec<u8> = Vec::new();
    assert(nothing@ =~= seq![]);
    let input: Vec<u8> = encode_signature_input(protected.as_slice(), nothing.as_slice(), payload);
    let signature: Vec<u8> = key.sign(input.as_slice());
    seal_vsi_cose_sign1(payload, kid, iat, signature.as_slice())
}

/// Builds the message of a media segment with zeros in place of the signature.
pub fn build_vsi_cose_sign1_dummy(payload: &[u8], kid: &[u8], iat: i64) -> (r: Result<
    Vec<u8>,
    Error,
>)
    ensures
        r matches Ok(v) && v@ == encoded(vsi_message(iat, kid@, payload@, blank_signature())),
{
    let signature: [u8; 64] = [0u8; 64];
    assert(signature@ =~= blank_signature());
    seal_vsi_cose_sign1(payload, kid, iat, &signature)
}

// The signer.

/// Signs live video segments with Verifiable Segment Info.
pub struct LiveVideoVsiSigner {
    session_signing_key: Ed25519SessionKey,
    session_cose_key: CoseKey,
    kid: Vec<u8>,
    signer_binding: c2pa_cbor::Value,
    manifest_signer_ee_cert_der: Vec<u8>,
    min_sequence_number: u64,
    created_at: DateT,
    validity_period: u64,
    next_sequence_number: u64,
    next_event_id: u32,
    base_manifest_json: String,
    active_manifest_id: Option<String>,
    track_id: Option<u32>,
    track_timescale: Option<u32>,
    default_sample_duration: Option<u32>,
}

/// The state of a [`LiveVideoVsiSigner`].
pub struct Session {
    /// The private key.
    pub seed: Seq<u8>,
    /// What is published of the key.
    pub cose_key: CoseKeyView,
    /// The key identifier.
    pub kid: Seq<u8>,
    /// The data item of the binding to the manifest signer.
    pub signer_binding: Seq<u8>,
    /// The certificate of the manifest signer.
    pub cert: Seq<u8>,
    /// The first number for which the key is valid.
    pub min_sequence_number: u64,
    pub created_at: Seq<char>,
    pub validity_period: u64,
    /// The number of the next media segment.
    pub next_sequence_number: u64,
    /// The event identifier of the next media segment.
    pub next_event_id: u32,
    pub base_manifest_json: Seq<char>,
    /// The identifier of the initialization manifest, once it is known.
    pub active_manifest_id: Option<Seq<char>>,
    /// The track and its timing, once the initialization segment is known.
    pub track_id: Option<u32>,
    pub track_timescale: Option<u32>,
    pub default_sample_duration: Option<u32>,
}

impl View for LiveVideoVsiSigner {
    type V = Session;

    closed spec fn view(&self) -> Session {
        Session {
            seed: self.session_signing_key.seed@,
            cose_key: self.session_cose_key@,
            kid: self.kid@,
            signer_binding: cbor_encoding(self.signer_binding),
            cert: self.manifest_signer_ee_cert_der@,
            min_sequence_number: self.min_sequence_number,
            created_at: self.created_at.0@,
            validity_period: self.validity_period,
            next_sequence_number: self.next_sequence_number,
            next_event_id: self.next_event_id,
            base_manifest_json: self.base_manifest_json@,
            active_manifest_id: text_view(self.active_manifest_id),
            track_id: self.track_id,
            track_timescale: self.track_timescale,
            default_sample_duration: self.default_sample_duration,
        }
    }
}

impl Session {
    /// What holds in every state: what is published of the key belongs to the private key, the key
    /// has an identifier and a validity period, event identifiers are not zero, and numbers do not
    /// fall below the first for which the key is valid, which fits a movie fragment header.
    pub open spec fn valid(self) -> bool {
        &&& self.cose_key == ed25519_cose_key(ed25519_public_key(self.seed), self.kid)
        &&& self.kid.len() > 0
        &&& self.validity_period > 0
        &&& self.next_event_id >= 1
        &&& self.min_sequence_number <= u32::MAX
        &&& self.min_sequence_number <= self.next_sequence_number
    }
}

/// The first certificate of the manifest signer, or why there is none.
pub open spec fn first_certificate(certs: Result<Seq<Seq<u8>>, Seq<char>>) -> Result<
    Seq<u8>,
    Failure,
> {
    match certs {
        Err(words) => Err(Failure::OtherError(words)),
        Ok(list) => if list.len() == 0 {
            Err(Failure::BadParam("manifest signer has no certificates"@))
        } else {
            Ok(list[0])
        },
    }
}

/// What the certificates of a manifest signer stand for.
pub open spec fn certs_view(certs: Result<Vec<Vec<u8>>, String>) -> Result<
    Seq<Seq<u8>>,
    Seq<char>,
> {
    match certs {
        Ok(list) => Ok(byte_views(list@)),
        Err(words) => Err(words@),
    }
}

fn take_first_certificate(certs: &Result<Vec<Vec<u8>>, String>) -> (r: Result<Vec<u8>, Error>)
    ensures
        match first_certificate(certs_view(*certs)) {
            Err(failure) => r matches Err(e) && e@ == failure,
            Ok(cert) => r matches Ok(v) && v@ == cert,
        },
{
    match certs {
        Err(words) => Err(Error::OtherError(words.clone())),
        Ok(list) => if list.len() == 0 {
            Err(bad_param("manifest signer has no certificates"))
        } else {
            Ok(to_vec(list[0].as_slice()))
        },
    }
}

/// The state of a new signer.
pub open spec fn new_session(
    manifest_json: Seq<char>,
    certs: Result<Seq<Seq<u8>>, Seq<char>>,
    seed: Seq<u8>,
    kid: Seq<u8>,
    min_sequence_number: u64,
    validity_period: u64,
    created_at: Seq<char>,
) -> Result<Session, Failure> {
    if kid.len() == 0 {
        Err(Failure::BadParam("VSI session key kid must not be empty"@))
    } else if validity_period == 0 {
        Err(Failure::BadParam("VSI session key validity period must be greater than zero"@))
    } else if min_sequence_number > u32::MAX {
        Err(
            Failure::BadParam(
                "VSI min sequence number must fit the BMFF mfhd sequence_number field"@,
            ),
        )
    } else {
        match live_manifest_text(manifest_json) {
            Err(e) => Err(e),
            Ok(base_manifest_json) => match first_certificate(certs) {
                Err(e) => Err(e),
                Ok(cert) => Ok(
                    Session {
                        seed,
                        cose_key: ed25519_cose_key(ed25519_public_key(seed), kid),
                        kid,
                        signer_binding: encoded(binding_message(seed, cert)),
                        cert,
                        min_sequence_number,
                        created_at,
                        validity_period,
                        next_sequence_number: min_sequence_number,
                        next_event_id: 1,
                        base_manifest_json,
                        active_manifest_id: None,
                        track_id: None,
                        track_timescale: None,
                        default_sample_duration: None,
                    },
                ),
            },
        }
    }
}

impl LiveVideoVsiSigner {
    /// Creates a signer with a session key that was created now.
    ///
    /// - `manifest_json` is the manifest definition without a `c2pa.session-keys` assertion.
    /// - `certs` are the certificates of the manifest signer, whose first is bound to the session
    ///   key.
    /// - `min_sequence_number` is the first number for which the key is valid.
    /// - `validity_period_secs` says how long the key is valid.
    pub fn from_signing_key(
        manifest_json: &str,
        certs: &Result<Vec<Vec<u8>>, String>,
        signing_key: Ed25519SessionKey,
        kid: Vec<u8>,
        min_sequence_number: u64,
        validity_period_secs: u64,
    ) -> (r: Result<Self, Error>)
        ensures
            exists|created_at: Seq<char>|
                match #[trigger] new_session(
                    manifest_json@,
                    certs_view(*certs),
                    signing_key.seed@,
                    kid@,
                    min_sequence_number,
                    validity_period_secs,
                    created_at,
                ) {
                    Err(failure) => r matches Err(e) && e@ == failure,
                    Ok(session) => r matches Ok(s) && s@ == session && s@.valid(),
                },
    {
        let created_at: String = current_date();
        let ghost time = created_at@;
        let r = Self::from_parts(
            manifest_json,
            certs,
            signing_key,
            kid,
            min_sequence_number,
            validity_period_secs,
            created_at,
        );
        proof {
            let _ = new_session(
                manifest_json@,
                certs_view(*certs),
                signing_key.seed@,
                kid@,
                min_sequence_number,
                validity_period_secs,
                time,
            );
        }
        r
    }

    /// Creates a signer with a session key that was created at the given time.
    pub fn from_parts(
        manifest_json: &str,
        certs: &Result<Vec<Vec<u8>>, String>,
        signing_key: Ed25519SessionKey,
        kid: Vec<u8>,
        min_sequence_number: u64,
        validity_period_secs: u64,
        created_at: String,
    ) -> (r: Result<Self, Error>)
        ensures
            match new_session(
                manifest_json@,
                certs_view(*certs),
                signing_key.seed@,
                kid@,
                min_sequence_number,
                validity_period_secs,
                created_at@,
            ) {
                Err(failure) => r matches Err(e) && e@ == failure,
                Ok(session) => r matches Ok(s) && s@ == session && s@.valid(),
            },
    {
        if kid.len() == 0 {
            return Err(bad_param("VSI session key kid must not be empty"));
        }
        if validity_period_secs == 0 {
            return Err(bad_param("VSI session key validity period must be greater than zero"));
        }
        if min_sequence_number > u32::MAX as u64 {
            return Err(
                bad_param("VSI min sequence number must fit the BMFF mfhd sequence_number field"),
            );
        }
        let base_manifest_json: String = prepare_live_manifest_json(manifest_json)?;
        let session_cose_key: CoseKey = build_ed25519_cose_key(
            signing_key.public_key(),
            to_vec(kid.as_slice()),
        );
        let cert: Vec<u8> = take_first_certificate(certs)?;
        let signer_binding = build_signer_binding(cert.as_slice(), &signing_key)?;
        Ok(
            LiveVideoVsiSigner {
                session_signing_key: signing_key,
                session_cose_key,
                kid,
                signer_binding,
                manifest_signer_ee_cert_der: cert,
                min_sequence_number,
                created_at: DateT(created_at),
                validity_period: validity_period_secs,
                next_sequence_number: min_sequence_number,
                next_event_id: 1,
                base_manifest_json,
                active_manifest_id: None,
                track_id: None,
                track_timescale: None,
                default_sample_duration: None,
            },
        )
    }
}

// The initialization manifest.

/// What was read back of a signed initialization segment.
pub struct InitManifestReport {
    /// The statuses of its validation.
    pub statuses: Vec<ReportedStatus>,
    /// Its active manifest, if it has one.
    pub manifest: Option<InitManifest>,
}

/// What was read back of the active manifest of a signed initialization segment.
pub struct InitManifest {
    pub label: Option<String>,
    /// The `c2pa.session-keys` assertion, if there is one that can be read.
    pub session_keys: Option<SessionKeys>,
    /// The certificate chain of the signature, as PEM text.
    pub cert_chain: Option<String>,
}

/// What an [`InitManifestReport`] says.
pub struct InitReportView {
    pub statuses: Seq<(Seq<char>, bool)>,
    pub manifest: Option<InitManifestView>,
}

/// What an [`InitManifest`] says.
pub struct InitManifestView {
    pub label: Option<Seq<char>>,
    pub session_keys: Option<Seq<SessionKeyView>>,
    pub cert_chain: Option<Seq<char>>,
}

impl View for InitManifest {
    type V = InitManifestView;

    open spec fn view(&self) -> InitManifestView {
        InitManifestView {
            label: text_view(self.label),
            session_keys: match self.session_keys {
                Some(keys) => Some(key_views(keys.keys@)),
                None => None,
            },
            cert_chain: text_view(self.cert_chain),
        }
    }
}

impl View for InitManifestReport {
    type V = InitReportView;

    open spec fn view(&self) -> InitReportView {
        InitReportView {
            statuses: status_views(self.statuses@),
            manifest: match self.manifest {
                Some(manifest) => Some(manifest@),
                None => None,
            },
        }
    }
}

/// The identifier of an initialization manifest.
pub open spec fn init_manifest_id(report: InitReportView) -> Result<
    (Seq<char>, InitManifestView),
    Failure,
> {
    match first_integrity_failure(report.statuses) {
        Some(code) => Err(
            Failure::BadParam(
                "signed initialization manifest failed integrity validation: "@ + code,
            ),
        ),
        None => match report.manifest {
            None => Err(
                Failure::BadParam("signed initialization segment has no active manifest"@),
            ),
            Some(manifest) => match manifest.label {
                None => Err(Failure::BadParam("signed initialization manifest has no label"@)),
                Some(label) => if is_c2pa_urn(label) {
                    Ok((label, manifest))
                } else {
                    Err(
                        Failure::BadParam(
                            "signed initialization manifest label must be a non-empty urn:c2pa: identifier"@,
                        ),
                    )
                },
            },
        },
    }
}

/// The session key that an initialization manifest publishes, which must be the key of the session.
pub open spec fn published_key(session: Session, published: Option<Seq<SessionKeyView>>) -> Result<
    SessionKeyView,
    Failure,
> {
    match published {
        None => Err(
            Failure::BadParam("signed initialization manifest has no c2pa.session-keys assertion"@),
        ),
        Some(keys) => if keys.len() != 1 {
            Err(
                Failure::BadParam(
                    "Milestone 1 signed initialization manifest must contain exactly one session key"@,
                ),
            )
        } else if keys[0].key.kid != Some(session.kid) || keys[0].key.alg != Some(
            SigningAlg::Ed25519,
        ) || keys[0].key.public_key != session.cose_key.public_key {
            Err(
                Failure::BadParam(
                    "signed initialization session kid, algorithm, or public key does not match the configured Ed25519 session key"@,
                ),
            )
        } else {
            Ok(keys[0])
        },
    }
}

/// The first certificate of a chain that was read, or why there is none.
pub open spec fn chain_certificate(chain: Result<Seq<Seq<u8>>, Seq<char>>) -> Result<
    Seq<u8>,
    Failure,
> {
    match chain {
        Err(words) => Err(
            Failure::BadParam("signed initialization certificate chain is invalid: "@ + words),
        ),
        Ok(certs) => if certs.len() == 0 {
            Err(
                Failure::BadParam("signed initialization manifest has no end-entity certificate"@),
            )
        } else {
            Ok(certs[0])
        },
    }
}

/// The certificate that signed an initialization manifest, given its chain as PEM text.
pub open spec fn manifest_certificate(chain: Option<Seq<char>>) -> Result<Seq<u8>, Failure> {
    match chain {
        None => Err(Failure::BadParam("signed initialization manifest has no signature info"@)),
        Some(text) => chain_certificate(pem_contents(text)),
    }
}

/// The key and the binding of an initialization manifest, as they must be for a session.
pub open spec fn checked_key(session: Session, manifest: InitManifestView) -> Result<
    SessionKeyView,
    Failure,
> {
    match published_key(session, manifest.session_keys) {
        Err(e) => Err(e),
        Ok(key) => match manifest_certificate(manifest.cert_chain) {
            Err(e) => Err(e),
            Ok(cert) => if cert != session.cert {
                Err(
                    Failure::BadParam(
                        "restored initialization manifest signer does not match the configured claim signer"@,
                    ),
                )
            } else {
                match restored_binding(key.signer_binding, session.seed, cert) {
                    Err(e) => Err(e),
                    Ok(_) => match key_metadata(key) {
                        Err(e) => Err(e),
                        Ok(_) => Ok(key),
                    },
                }
            },
        },
    }
}

/// The identifier and the session key of an initialization manifest, as they must be for a session.
pub open spec fn checked_init_manifest(session: Session, report: InitReportView) -> Result<
    (Seq<char>, SessionKeyView),
    Failure,
> {
    match init_manifest_id(report) {
        Err(e) => Err(e),
        Ok((label, manifest)) => match checked_key(session, manifest) {
            Err(e) => Err(e),
            Ok(key) => Ok((label, key)),
        },
    }
}

/// The session once its initialization segment is known.
pub open spec fn with_init(
    session: Session,
    manifest_id: Seq<char>,
    key: SessionKeyView,
    info: InitSegmentInfo,
) -> Session {
    Session {
        active_manifest_id: Some(manifest_id),
        min_sequence_number: key.min_sequence_number,
        created_at: key.created_at,
        validity_period: key.validity_period,
        signer_binding: key.signer_binding,
        next_sequence_number: if session.next_sequence_number < key.min_sequence_number {
            key.min_sequence_number
        } else {
            session.next_sequence_number
        },
        track_id: Some(info.track_id),
        track_timescale: Some(info.timescale),
        default_sample_duration: info.default_sample_duration,
        ..session
    }
}

/// The session once its initialization segment has been read back.
pub open spec fn completed_init(
    session: Session,
    info: InitSegmentInfo,
    report: InitReportView,
) -> Result<Session, Failure> {
    match checked_init_manifest(session, report) {
        Err(e) => Err(e),
        Ok((label, key)) => Ok(with_init(session, label, key, info)),
    }
}

/// The track timing of an initialization segment that the manifest signer may sign.
pub open spec fn begun_init(
    session: Session,
    segment: Seq<u8>,
    certs: Result<Seq<Seq<u8>>, Seq<char>>,
) -> Result<InitSegmentInfo, Failure> {
    match init_info(segment) {
        Err(e) => Err(e),
        Ok(info) => match first_certificate(certs) {
            Err(e) => Err(e),
            Ok(cert) => if cert != session.cert {
                Err(
                    Failure::BadParam(
                        "initialization manifest signer does not match the certificate bound by the session key"@,
                    ),
                )
            } else {
                Ok(info)
            },
        },
    }
}

/// What a session publishes of its key.
pub open spec fn session_key(session: Session) -> SessionKeyView {
    SessionKeyView {
        key: session.cose_key,
        min_sequence_number: session.min_sequence_number,
        created_at: session.created_at,
        validity_period: session.validity_period,
        signer_binding: session.signer_binding,
    }
}

/// What may come of embedding a manifest in an initialization segment with `sign`.
pub open spec fn init_embedding_outcome<
    S: Fn(&str, &SessionKeys, &[u8]) -> Result<Vec<u8>, Error>,
>(session: Session, segment: Seq<u8>, sign: S, signed: Result<Vec<u8>, Error>) -> bool {
    exists|definition: &str, keys: &SessionKeys, data: &[u8]| #[trigger]
        call_ensures(sign, (definition, keys, data), signed) && definition@
            == session.base_manifest_json && key_views(keys.keys@) == seq![session_key(session)]
            && data@ == segment
}

/// What may come of reading the manifest of a signed initialization segment with `read`.
pub open spec fn init_reading_outcome<R: Fn(&[u8]) -> Result<InitManifestReport, Error>>(
    signed: Seq<u8>,
    read: R,
    report: Result<InitManifestReport, Error>,
) -> bool {
    exists|data: &[u8]| #[trigger] call_ensures(read, (data,), report) && data@ == signed
}

/// What may come of signing an initialization segment.
pub open spec fn init_signing_outcome<
    S: Fn(&str, &SessionKeys, &[u8]) -> Result<Vec<u8>, Error>,
    R: Fn(&[u8]) -> Result<InitManifestReport, Error>,
>(
    session: Session,
    segment: Seq<u8>,
    certs: Result<Seq<Seq<u8>>, Seq<char>>,
    sign: S,
    read: R,
    after: Session,
    r: Result<Vec<u8>, Error>,
) -> bool {
    match begun_init(session, segment, certs) {
        Err(failure) => r matches Err(e) && e@ == failure && after == session,
        Ok(info) => exists|signed: Result<Vec<u8>, Error>| #[trigger]
            init_embedding_outcome(session, segment, sign, signed) && match signed {
                Err(e) => r == Err::<Vec<u8>, Error>(e) && after == session,
                Ok(bytes) => exists|report: Result<InitManifestReport, Error>| #[trigger]
                    init_reading_outcome(bytes@, read, report) && match report {
                        Err(e) => r == Err::<Vec<u8>, Error>(e) && after == session,
                        Ok(found) => match completed_init(session, info, found@) {
                            Err(failure) => r matches Err(e) && e@ == failure && after == session,
                            Ok(next) => r == Ok::<Vec<u8>, Error>(bytes) && after == next,
                        },
                    },
            },
    }
}

/// What may come of restoring the state of a session from its signed initialization segment.
#[verifier::opaque]
pub open spec fn restoring_outcome<R: Fn(&[u8]) -> Result<InitManifestReport, Error>>(
    session: Session,
    init: Seq<u8>,
    read: R,
    after: Session,
    r: Result<(), Error>,
) -> bool {
    match init_info(init) {
        Err(failure) => r matches Err(e) && e@ == failure && after == session,
        Ok(info) => exists|report: Result<InitManifestReport, Error>| #[trigger]
            init_reading_outcome(init, read, report) && match report {
                Err(e) => r == Err::<(), Error>(e) && after == session,
                Ok(found) => match completed_init(session, info, found@) {
                    Err(failure) => r matches Err(e) && e@ == failure && after == session,
                    Ok(next) => r is Ok && after == next,
                },
            },
    }
}

/// Takes the first certificate of a chain that was read.
pub fn take_chain_certificate(chain: Result<Vec<Vec<u8>>, String>) -> (r: Result<Vec<u8>, Error>)
    ensures
        match chain_certificate(certs_view(chain)) {
            Err(failure) => r matches Err(e) && e@ == failure,
            Ok(cert) => r matches Ok(v) && v@ == cert,
        },
{
    let mut certs: Vec<Vec<u8>> = match chain {
        Ok(certs) => certs,
        Err(words) => {
            return Err(
                bad_param_with(
                    "signed initialization certificate chain is invalid: ",
                    words.as_str(),
                ),
            );
        },
    };
    assert(byte_views(certs@).len() == certs@.len());
    if certs.len() == 0 {
        return Err(bad_param("signed initialization manifest has no end-entity certificate"));
    }
    assert(byte_views(certs@)[0] == certs@[0]@);
    Ok(certs.remove(0))
}

/// Takes the certificate that signed an initialization manifest from its chain as PEM text.
fn take_manifest_certificate(chain: &Option<String>) -> (r: Result<Vec<u8>, Error>)
    ensures
        match manifest_certificate(text_view(*chain)) {
            Err(failure) => r matches Err(e) && e@ == failure,
            Ok(cert) => r matches Ok(v) && v@ == cert,
        },
{
    match chain {
        None => Err(bad_param("signed initialization manifest has no signature info")),
        Some(text) => take_chain_certificate(parse_pem_contents(text.as_str())),
    }
}

/// Whether two optional byte vectors hold the same.
fn same_optional_bytes(a: &Option<Vec<u8>>, b: &Option<Vec<u8>>) -> (r: bool)
    ensures
        r == (bytes_view(*a) == bytes_view(*b)),
{
    match a {
        None => b.is_none(),
        Some(x) => match b {
            None => false,
            Some(y) => same_bytes(x.as_slice(), y.as_slice()),
        },
    }
}

impl LiveVideoVsiSigner {
    /// Takes the session key that an initialization manifest publishes.
    pub fn take_published_key(&self, published: Option<SessionKeys>) -> (r: Result<
        SessionKey,
        Error,
    >)
        ensures
            match published_key(
                self@,
                match published {
                    Some(keys) => Some(key_views(keys.keys@)),
                    None => None,
                },
            ) {
                Err(failure) => r matches Err(e) && e@ == failure,
                Ok(key) => r matches Ok(k) && k@ == key,
            },
    {
        let mut keys: SessionKeys = match published {
            Some(keys) => keys,
            None => {
                return Err(
                    bad_param("signed initialization manifest has no c2pa.session-keys assertion"),
                );
            },
        };
        assert(key_views(keys.keys@).len() == keys.keys@.len());
        if keys.keys.len() != 1 {
            return Err(
                bad_param(
                    "Milestone 1 signed initialization manifest must contain exactly one session key",
                ),
            );
        }
        let key = &keys.keys[0].key;
        assert(key_views(keys.keys@)[0] == keys.keys@[0]@);
        let same_kid: bool = match &key.kid {
            None => false,
            Some(kid) => same_bytes(kid.as_slice(), self.kid.as_slice()),
        };
        let same_alg: bool = match key.alg {
            None => false,
            Some(alg) => alg == SigningAlg::Ed25519,
        };
        if !same_kid || !same_alg || !same_optional_bytes(
            &key.public_key,
            &self.session_cose_key.public_key,
        ) {
            return Err(
                bad_param(
                    "signed initialization session kid, algorithm, or public key does not match the configured Ed25519 session key",
                ),
            );
        }
        Ok(keys.keys.remove(0))
    }

    /// Checks what was read back of a signed initialization segment and takes its identifier and
    /// its session key.
    pub fn read_and_validate_init_manifest(&self, report: InitManifestReport) -> (r: Result<
        (String, SessionKey),
        Error,
    >)
        ensures
            match checked_init_manifest(self@, report@) {
                Err(failure) => r matches Err(e) && e@ == failure,
                Ok((label, key)) => r matches Ok((l, k)) && l@ == label && k@ == key,
            },
    {
        match find_integrity_failure(&report.statuses) {
            Some(code) => {
                return Err(
                    bad_param_with(
                        "signed initialization manifest failed integrity validation: ",
                        code.as_str(),
                    ),
                );
            },
            None => {},
        }
        let manifest: InitManifest = match report.manifest {
            Some(manifest) => manifest,
            None => {
                return Err(bad_param("signed initialization segment has no active manifest"));
            },
        };
        let label: String = match manifest.label {
            Some(label) => label,
            None => {
                return Err(bad_param("signed initialization manifest has no label"));
            },
        };
        if !check_c2pa_urn(label.as_str()) {
            return Err(
                bad_param(
                    "signed initialization manifest label must be a non-empty urn:c2pa: identifier",
                ),
            );
        }
        let session_key: SessionKey = self.take_published_key(manifest.session_keys)?;
        let cert: Vec<u8> = take_manifest_certificate(&manifest.cert_chain)?;
        if !same_bytes(cert.as_slice(), self.manifest_signer_ee_cert_der.as_slice()) {
            return Err(
                bad_param(
                    "restored initialization manifest signer does not match the configured claim signer",
                ),
            );
        }
        verify_restored_signer_binding(
            &session_key.signer_binding,
            &self.session_signing_key,
            cert.as_slice(),
        )?;
        validate_session_key_metadata(&session_key)?;
        Ok((label, session_key))
    }

    /// Checks that the manifest signer may sign an initialization segment of this session, and
    /// reads the track timing of the segment.
    pub fn begin_init_segment(
        &self,
        segment_data: &[u8],
        certs: &Result<Vec<Vec<u8>>, String>,
    ) -> (r: Result<InitSegmentInfo, Error>)
        ensures
            agrees(r, begun_init(self@, segment_data@, certs_view(*certs))),
    {
        let info: InitSegmentInfo = parse_init_segment(segment_data)?;
        let cert: Vec<u8> = take_first_certificate(certs)?;
        if !same_bytes(cert.as_slice(), self.manifest_signer_ee_cert_der.as_slice()) {
            return Err(
                bad_param(
                    "initialization manifest signer does not match the certificate bound by the session key",
                ),
            );
        }
        Ok(info)
    }

    /// Takes up an initialization segment that was read back.
    pub fn complete_init_segment(&mut self, info: InitSegmentInfo, report: InitManifestReport) -> (r:
        Result<(), Error>)
        ensures
            match completed_init(old(self)@, info, report@) {
                Err(failure) => r matches Err(e) && e@ == failure && final(self)@ == old(self)@,
                Ok(session) => r is Ok && final(self)@ == session,
            },
            old(self)@.valid() ==> final(self)@.valid(),
    {
        let (manifest_id, session_key) = self.read_and_validate_init_manifest(report)?;
        self.take_up_init(info, manifest_id, session_key);
        Ok(())
    }

    /// Takes over what an initialization segment and its manifest say.
    pub fn take_up_init(
        &mut self,
        info: InitSegmentInfo,
        manifest_id: String,
        session_key: SessionKey,
    )
        ensures
            final(self)@ == with_init(old(self)@, manifest_id@, session_key@, info),
            old(self)@.valid() && session_key.validity_period > 0 && session_key.min_sequence_number
                <= u32::MAX ==> final(self)@.valid(),
    {
        self.active_manifest_id = Some(manifest_id);
        self.apply_session_key_metadata(session_key);
        self.track_id = Some(info.track_id);
        self.track_timescale = Some(info.timescale);
        self.default_sample_duration = info.default_sample_duration;
    }

    /// Takes over what a session key publishes of its validity.
    fn apply_session_key_metadata(&mut self, session_key: SessionKey)
        ensures
            final(self)@ == (Session {
                min_sequence_number: session_key@.min_sequence_number,
                created_at: session_key@.created_at,
                validity_period: session_key@.validity_period,
                signer_binding: session_key@.signer_binding,
                next_sequence_number: if old(self)@.next_sequence_number
                    < session_key@.min_sequence_number {
                    session_key@.min_sequence_number
                } else {
                    old(self)@.next_sequence_number
                },
                ..old(self)@
            }),
    {
        self.min_sequence_number = session_key.min_sequence_number;
        self.created_at = session_key.created_at;
        self.validity_period = session_key.validity_period;
        self.signer_binding = session_key.signer_binding;
        if self.next_sequence_number < self.min_sequence_number {
            self.next_sequence_number = self.min_sequence_number;
        }
    }

    /// Signs an initialization segment, with a `c2pa.session-keys` assertion.
    ///
    /// `certs` are the certificates of the manifest signer. `sign` embeds a manifest with the given
    /// definition and session keys in a segment; `read` reads the manifest of a signed segment back.
    pub fn sign_init_segment<S, R>(
        &mut self,
        segment_data: &[u8],
        certs: &Result<Vec<Vec<u8>>, String>,
        sign: S,
        read: R,
    ) -> (r: Result<Vec<u8>, Error>) where
        S: Fn(&str, &SessionKeys, &[u8]) -> Result<Vec<u8>, Error>,
        R: Fn(&[u8]) -> Result<InitManifestReport, Error>,

        requires
            forall|definition: &str, keys: &SessionKeys, data: &[u8]|
                call_requires(sign, (definition, keys, data)),
            forall|data: &[u8]| call_requires(read, (data,)),
        ensures
            init_signing_outcome(
                old(self)@,
                segment_data@,
                certs_view(*certs),
                sign,
                read,
                final(self)@,
                r,
            ),
            r is Err ==> final(self)@ == old(self)@,
            old(self)@.valid() ==> final(self)@.valid(),
    {
        let info: InitSegmentInfo = self.begin_init_segment(segment_data, certs)?;
        let session_keys: SessionKeys = self.build_session_keys_assertion();
        let signed: Result<Vec<u8>, Error> = sign(
            self.base_manifest_json.as_str(),
            &session_keys,
            segment_data,
        );
        assert(init_embedding_outcome(old(self)@, segment_data@, sign, signed));
        let bytes: Vec<u8> = signed?;
        let report: Result<InitManifestReport, Error> = read(bytes.as_slice());
        assert(init_reading_outcome(bytes@, read, report));
        self.complete_init_segment(info, report?)?;
        Ok(bytes)
    }

    /// Restores the state of a session from its signed initialization segment.
    ///
    /// Signing the initialization segment again would give it another identifier and break the
    /// chain. `read` reads the manifest of a signed segment.
    pub fn restore_manifest_id_from_signed_init<R: Fn(&[u8]) -> Result<InitManifestReport, Error>>(
        &mut self,
        signed_init_data: &[u8],
        read: R,
    ) -> (r: Result<(), Error>)
        requires
            forall|data: &[u8]| call_requires(read, (data,)),
        ensures
            restoring_outcome(old(self)@, signed_init_data@, read, final(self)@, r),
            r is Err ==> final(self)@ == old(self)@,
            old(self)@.valid() ==> final(self)@.valid(),
    {
        proof {
            reveal(restoring_outcome);
        }
        let info: InitSegmentInfo = parse_init_segment(signed_init_data)?;
        let report: Result<InitManifestReport, Error> = read(signed_init_data);
        assert(init_reading_outcome(signed_init_data@, read, report));
        self.complete_init_segment(info, report?)
    }

    fn build_session_keys_assertion(&self) -> (r: SessionKeys)
        ensures
            key_views(r.keys@) == seq![session_key(self@)],
    {
        let key = SessionKey {
            key: self.session_cose_key.copy(),
            min_sequence_number: self.min_sequence_number,
            created_at: DateT(self.created_at.0.clone()),
            validity_period: self.validity_period,
            signer_binding: copy_value(&self.signer_binding),
        };
        let mut keys: Vec<SessionKey> = Vec::new();
        keys.push(key);
        assert(key_views(keys@) =~= seq![session_key(self@)]);
        SessionKeys { keys }
    }

    /// The number of the next media segment.
    pub fn next_sequence_number(&self) -> (r: u64)
        ensures
            r == self@.next_sequence_number,
    {
        self.next_sequence_number
    }

    /// The identifier of the initialization manifest, once it is known.
    pub fn active_manifest_id(&self) -> (r: Option<&str>)
        ensures
            match self@.active_manifest_id {
                Some(id) => r matches Some(s) && s@ == id,
                None => r is None,
            },
    {
        match &self.active_manifest_id {
            Some(id) => Some(id.as_str()),
            None => None,
        }
    }
}

// Media segments.

/// What the event message of a media segment is to say.
pub struct MediaPlan {
    pub sequence_number: u64,
    pub manifest_id: String,
    pub timescale: u32,
    pub event_duration: u32,
    pub id: u32,
    /// The claimed time of signing.
    pub iat: i64,
}

/// What a [`MediaPlan`] says.
pub struct MediaPlanView {
    pub sequence_number: u64,
    pub manifest_id: Seq<char>,
    pub timescale: u32,
    pub event_duration: u32,
    pub id: u32,
    pub iat: i64,
}

impl View for MediaPlan {
    type V = MediaPlanView;

    open spec fn view(&self) -> MediaPlanView {
        MediaPlanView {
            sequence_number: self.sequence_number,
            manifest_id: self.manifest_id@,
            timescale: self.timescale,
            event_duration: self.event_duration,
            id: self.id,
            iat: self.iat,
        }
    }
}

/// The refusal of a segment whose number is not the next.
pub open spec fn drifted(expected: u64, found: u32) -> Failure {
    Failure::BadParam(
        "VSI sequenceNumber ("@ + decimal(expected as nat)
            + ") does not match the segment's own moof/mfhd.sequence_number ("@ + decimal(
            found as nat,
        ) + "); the signer's sequence counter has drifted"@,
    )
}

/// The refusal of a segment of another track.
pub open spec fn other_track(found: u32, expected: u32) -> Failure {
    Failure::BadParam(
        "media segment tfhd track_ID ("@ + decimal(found as nat)
            + ") does not match initialization track_ID ("@ + decimal(expected as nat) + ")"@,
    )
}

/// The plan for a media segment whose timing is known, the validity of the key left aside.
pub open spec fn timed_plan(
    session: Session,
    manifest_id: Seq<char>,
    track_id: u32,
    timescale: u32,
    info: MediaSegmentInfo,
    iat: i64,
) -> Result<MediaPlanView, Failure> {
    if info.sequence_number != session.next_sequence_number {
        Err(drifted(session.next_sequence_number, info.sequence_number))
    } else if info.track_id != track_id {
        Err(other_track(info.track_id, track_id))
    } else if session.next_event_id == u32::MAX {
        Err(Failure::BadParam("VSI emsg id cannot advance past u32::MAX"@))
    } else {
        Ok(
            MediaPlanView {
                sequence_number: session.next_sequence_number,
                manifest_id,
                timescale,
                event_duration: info.duration_ticks,
                id: session.next_event_id,
                iat,
            },
        )
    }
}

/// The plan for a media segment that is to be signed at `iat`, the validity of the key left aside.
pub open spec fn outlined(session: Session, segment: Seq<u8>, iat: i64) -> Result<
    MediaPlanView,
    Failure,
> {
    if vsi_candidates(segment).len() > 0 {
        Err(Failure::BadParam("media segment already contains a C2PA VSI emsg box"@))
    } else {
        match session.active_manifest_id {
            None => Err(
                Failure::BadParam(
                    "a valid signed initialization segment must establish manifestId before media signing"@,
                ),
            ),
            Some(manifest_id) => if !is_c2pa_urn(manifest_id) {
                Err(
                    Failure::BadParam(
                        "active live manifestId must be a non-empty urn:c2pa: identifier"@,
                    ),
                )
            } else {
                match (session.track_id, session.track_timescale) {
                    (None, _) => Err(
                        Failure::BadParam(
                            "a valid signed initialization segment must establish a media track before signing"@,
                        ),
                    ),
                    (Some(_), None) => Err(
                        Failure::BadParam(
                            "a valid signed initialization segment must establish a non-zero track timescale before signing"@,
                        ),
                    ),
                    (Some(track_id), Some(timescale)) => match media_info(
                        segment,
                        session.default_sample_duration,
                    ) {
                        Err(e) => Err(e),
                        Ok(info) => timed_plan(
                            session,
                            manifest_id,
                            track_id,
                            timescale,
                            info,
                            iat,
                        ),
                    },
                }
            },
        }
    }
}

/// The plan for a media segment that is to be signed at `iat`.
pub open spec fn planned(session: Session, segment: Seq<u8>, iat: i64) -> Result<
    MediaPlanView,
    Failure,
> {
    match outlined(session, segment, iat) {
        Err(e) => Err(e),
        Ok(plan) => match key_valid_at(session.created_at, session.validity_period, iat) {
            Err(e) => Err(e),
            Ok(_) => Ok(plan),
        },
    }
}

/// What the segment info map of a planned segment says.
pub open spec fn planned_info(plan: MediaPlanView, bmff_hash: Seq<u8>) -> SegmentInfo {
    SegmentInfo {
        sequence_number: plan.sequence_number,
        bmff_hash,
        manifest_id: plan.manifest_id,
        manifest_uri: None,
    }
}

/// The event message of a planned segment, with the given message.
pub open spec fn planned_event(plan: MediaPlanView, message: Sign1View) -> EmsgEvent {
    segment_event(encoded(message), plan.timescale, plan.event_duration, plan.id)
}

/// The message of a planned segment with zeros in place of the signature.
pub open spec fn draft_message(kid: Seq<u8>, plan: MediaPlanView, payload: Seq<u8>) -> Sign1View {
    vsi_message(plan.iat, kid, payload, blank_signature())
}

/// The message of a planned segment.
pub open spec fn final_message(
    session: Session,
    plan: MediaPlanView,
    payload: Seq<u8>,
) -> Sign1View {
    vsi_message(
        plan.iat,
        session.kid,
        payload,
        vsi_signature(session.seed, plan.iat, payload),
    )
}

/// The session once a planned segment has been signed.
pub open spec fn after_segment(session: Session, plan: MediaPlanView) -> Session {
    Session {
        next_sequence_number: (plan.sequence_number + 1) as u64,
        next_event_id: (plan.id + 1) as u32,
        ..session
    }
}

/// A planned segment with the event message of a given message in front, given the size of the
/// draft.
pub open spec fn framed_segment(
    plan: MediaPlanView,
    draft_size: nat,
    message_bytes: Seq<u8>,
    segment: Seq<u8>,
) -> Result<Seq<u8>, Failure> {
    match built_emsg_box(
        segment_event(message_bytes, plan.timescale, plan.event_duration, plan.id),
    ) {
        Err(e) => Err(e),
        Ok(emsg) => if emsg.len() != draft_size {
            Err(
                Failure::BadParam(
                    "draft and final VSI emsg boxes differ in size; the c2pa.hash.bmff.v3 offset-prefix scheme would be computed against the wrong box offsets"@,
                ),
            )
        } else {
            Ok(emsg + segment)
        },
    }
}

/// A planned segment with its signed event message in front, given the size of the draft.
pub open spec fn signed_segment(
    session: Session,
    plan: MediaPlanView,
    draft_size: nat,
    payload: Seq<u8>,
    segment: Seq<u8>,
) -> Result<Seq<u8>, Failure> {
    framed_segment(plan, draft_size, encoded(final_message(session, plan, payload)), segment)
}

/// What may come of encoding the segment info map of a planned segment with `encode`.
pub open spec fn payload_outcome<M: Fn(&SegmentInfoMap) -> Result<Vec<u8>, String>>(
    plan: MediaPlanView,
    bmff_hash: c2pa_cbor::Value,
    encode: M,
    r: Result<Vec<u8>, Error>,
) -> bool {
    exists|info: &SegmentInfoMap, bytes: Result<Vec<u8>, String>| #[trigger]
        call_ensures(encode, (info,), bytes) && info@ == planned_info(
            plan,
            cbor_encoding(bmff_hash),
        ) && match bytes {
            Err(words) => r matches Err(e) && e@ == Failure::BadParam(
                "failed to encode SegmentInfoMap: "@ + words@,
            ),
            Ok(payload) => r == Ok::<Vec<u8>, Error>(payload),
        }
}

/// What may come of drafting the event message of a planned segment.
pub open spec fn draft_outcome<
    M: Fn(&SegmentInfoMap) -> Result<Vec<u8>, String>,
    E: Fn(&BmffHash) -> Result<c2pa_cbor::Value, String>,
>(kid: Seq<u8>, plan: MediaPlanView, encode: M, encode_hash: E, r: Result<Vec<u8>, Error>) -> bool {
    exists|hash: Result<c2pa_cbor::Value, Error>| #[trigger]
        placeholder_outcome(encode_hash, hash) && match hash {
            Err(e) => r == Err::<Vec<u8>, Error>(e),
            Ok(value) => exists|payload: Result<Vec<u8>, Error>| #[trigger]
                payload_outcome(plan, value, encode, payload) && match payload {
                    Err(e) => r == Err::<Vec<u8>, Error>(e),
                    Ok(bytes) => match built_emsg_box(
                        planned_event(plan, draft_message(kid, plan, bytes@)),
                    ) {
                        Err(failure) => r matches Err(e) && e@ == failure,
                        Ok(emsg) => r matches Ok(v) && v@ == emsg,
                    },
                },
        }
}

/// What may come of hashing a planned segment behind its draft event message.
pub open spec fn sealed_payload_outcome<
    M: Fn(&SegmentInfoMap) -> Result<Vec<u8>, String>,
    G: Fn(&BmffHash, &[u8]) -> Result<Vec<u8>, String>,
    E: Fn(&BmffHash) -> Result<c2pa_cbor::Value, String>,
>(
    plan: MediaPlanView,
    draft_segment: Seq<u8>,
    encode: M,
    digest: G,
    encode_hash: E,
    r: Result<Vec<u8>, Error>,
) -> bool {
    exists|hash: Result<c2pa_cbor::Value, Error>| #[trigger]
        hashing_outcome(draft_segment, digest, encode_hash, hash) && match hash {
            Err(e) => r == Err::<Vec<u8>, Error>(e),
            Ok(value) => payload_outcome(plan, value, encode, r),
        }
}

/// What may come of signing a media segment at `iat`.
pub open spec fn signing_outcome<
    M: Fn(&SegmentInfoMap) -> Result<Vec<u8>, String>,
    G: Fn(&BmffHash, &[u8]) -> Result<Vec<u8>, String>,
    E: Fn(&BmffHash) -> Result<c2pa_cbor::Value, String>,
>(
    session: Session,
    segment: Seq<u8>,
    iat: i64,
    encode: M,
    digest: G,
    encode_hash: E,
    r: Result<Vec<u8>, Error>,
) -> bool {
    match planned(session, segment, iat) {
        Err(failure) => r matches Err(e) && e@ == failure,
        Ok(plan) => exists|draft: Result<Vec<u8>, Error>| #[trigger]
            draft_outcome(session.kid, plan, encode, encode_hash, draft) && match draft {
                Err(e) => r == Err::<Vec<u8>, Error>(e),
                Ok(emsg) => exists|payload: Result<Vec<u8>, Error>| #[trigger]
                    sealed_payload_outcome(
                        plan,
                        emsg@ + segment,
                        encode,
                        digest,
                        encode_hash,
                        payload,
                    ) && match payload {
                        Err(e) => r == Err::<Vec<u8>, Error>(e),
                        Ok(bytes) => match signed_segment(
                            session,
                            plan,
                            emsg@.len(),
                            bytes@,
                            segment,
                        ) {
                            Err(failure) => r matches Err(e) && e@ == failure,
                            Ok(signed) => r matches Ok(v) && v@ == signed,
                        },
                    },
            },
    }
}

fn drifted_error(expected: u64, found: u32) -> (e: Error)
    ensures
        e@ == drifted(expected, found),
{
    let mut text: String = "VSI sequenceNumber (".to_string();
    text.append(decimal_text(expected).as_str());
    text.append(") does not match the segment's own moof/mfhd.sequence_number (");
    text.append(decimal_text(found as u64).as_str());
    text.append("); the signer's sequence counter has drifted");
    Error::BadParam(text)
}

fn other_track_error(found: u32, expected: u32) -> (e: Error)
    ensures
        e@ == other_track(found, expected),
{
    let mut text: String = "media segment tfhd track_ID (".to_string();
    text.append(decimal_text(found as u64).as_str());
    text.append(") does not match initialization track_ID (");
    text.append(decimal_text(expected as u64).as_str());
    text.append(")");
    Error::BadParam(text)
}

/// Encodes the segment info map of a planned segment.
fn build_payload<M: Fn(&SegmentInfoMap) -> Result<Vec<u8>, String>>(
    plan: &MediaPlan,
    bmff_hash: c2pa_cbor::Value,
    encode: &M,
) -> (r: Result<Vec<u8>, Error>)
    requires
        forall|info: &SegmentInfoMap| call_requires(*encode, (info,)),
    ensures
        payload_outcome(plan@, bmff_hash, *encode, r),
{
    let info = SegmentInfoMap {
        sequence_number: plan.sequence_number,
        bmff_hash,
        manifest_id: plan.manifest_id.clone(),
        manifest_uri: None,
    };
    assert(info@ == planned_info(plan@, cbor_encoding(bmff_hash)));
    match encode(&info) {
        Ok(bytes) => Ok(bytes),
        Err(words) => Err(bad_param_with("failed to encode SegmentInfoMap: ", words.as_str())),
    }
}

/// Builds the event message of a planned segment with zeros in place of the digest and the
/// signature, which has the size of the final one.
fn draft_emsg<
    M: Fn(&SegmentInfoMap) -> Result<Vec<u8>, String>,
    E: Fn(&BmffHash) -> Result<c2pa_cbor::Value, String>,
>(kid: &[u8], plan: &MediaPlan, encode: &M, encode_hash: &E) -> (r: Result<Vec<u8>, Error>)
    requires
        forall|info: &SegmentInfoMap| call_requires(*encode, (info,)),
        forall|hash: &BmffHash| call_requires(*encode_hash, (hash,)),
    ensures
        draft_outcome(kid@, plan@, *encode, *encode_hash, r),
{
    let hash: Result<c2pa_cbor::Value, Error> = build_segment_bmff_hash_placeholder(encode_hash);
    let value = hash?;
    let payload: Vec<u8> = build_payload(plan, value, encode)?;
    let cose: Vec<u8> = build_vsi_cose_sign1_dummy(payload.as_slice(), kid, plan.iat)?;
    build_emsg_box(cose.as_slice(), plan.timescale, plan.event_duration, plan.id)
}

/// Hashes a planned segment behind its draft event message and encodes its segment info map.
fn seal_payload<
    M: Fn(&SegmentInfoMap) -> Result<Vec<u8>, String>,
    G: Fn(&BmffHash, &[u8]) -> Result<Vec<u8>, String>,
    E: Fn(&BmffHash) -> Result<c2pa_cbor::Value, String>,
>(
    plan: &MediaPlan,
    draft_segment: &[u8],
    encode: &M,
    digest: &G,
    encode_hash: &E,
) -> (r: Result<Vec<u8>, Error>)
    requires
        forall|info: &SegmentInfoMap| call_requires(*encode, (info,)),
        forall|hash: &BmffHash, data: &[u8]| call_requires(*digest, (hash, data)),
        forall|hash: &BmffHash| call_requires(*encode_hash, (hash,)),
    ensures
        sealed_payload_outcome(plan@, draft_segment@, *encode, *digest, *encode_hash, r),
{
    let hash: Result<c2pa_cbor::Value, Error> = build_segment_bmff_hash(
        draft_segment,
        digest,
        encode_hash,
    );
    let value = hash?;
    build_payload(plan, value, encode)
}

impl LiveVideoVsiSigner {
    /// Checks a media segment that is to be signed at `iat`, and says what its event message is to
    /// say.
    pub fn plan_media_segment(&self, segment_data: &[u8], iat: i64) -> (r: Result<MediaPlan, Error>)
        ensures
            match planned(self@, segment_data@, iat) {
                Err(failure) => r matches Err(e) && e@ == failure,
                Ok(plan) => r matches Ok(p) && p@ == plan,
            },
    {
        let plan: MediaPlan = self.outline_media_segment(segment_data, iat)?;
        self.ensure_key_valid_at(iat)?;
        Ok(plan)
    }

    /// Checks a media segment that is to be signed at `iat`, but for the validity of the key.
    pub fn outline_media_segment(&self, segment_data: &[u8], iat: i64) -> (r: Result<
        MediaPlan,
        Error,
    >)
        ensures
            match outlined(self@, segment_data@, iat) {
                Err(failure) => r matches Err(e) && e@ == failure,
                Ok(plan) => r matches Ok(p) && p@ == plan,
            },
    {
        if contains_c2pa_vsi_scheme(segment_data) {
            return Err(bad_param("media segment already contains a C2PA VSI emsg box"));
        }
        let manifest_id: String = match &self.active_manifest_id {
            Some(id) => id.clone(),
            None => {
                return Err(
                    bad_param(
                        "a valid signed initialization segment must establish manifestId before media signing",
                    ),
                );
            },
        };
        if !check_c2pa_urn(manifest_id.as_str()) {
            return Err(
                bad_param("active live manifestId must be a non-empty urn:c2pa: identifier"),
            );
        }
        let track_id: u32 = match self.track_id {
            Some(track_id) => track_id,
            None => {
                return Err(
                    bad_param(
                        "a valid signed initialization segment must establish a media track before signing",
                    ),
                );
            },
        };
        let timescale: u32 = match self.track_timescale {
            Some(timescale) => timescale,
            None => {
                return Err(
                    bad_param(
                        "a valid signed initialization segment must establish a non-zero track timescale before signing",
                    ),
                );
            },
        };
        let info: MediaSegmentInfo = parse_media_segment(
            segment_data,
            self.default_sample_duration,
        )?;
        if info.sequence_number as u64 != self.next_sequence_number {
            return Err(drifted_error(self.next_sequence_number, info.sequence_number));
        }
        if info.track_id != track_id {
            return Err(other_track_error(info.track_id, track_id));
        }
        if self.next_event_id == u32::MAX {
            return Err(bad_param("VSI emsg id cannot advance past u32::MAX"));
        }
        Ok(
            MediaPlan {
                sequence_number: self.next_sequence_number,
                manifest_id,
                timescale,
                event_duration: info.duration_ticks,
                id: self.next_event_id,
                iat,
            },
        )
    }

    /// Checks that the session key is valid at a time.
    pub fn ensure_key_valid_at(&self, unix_seconds: i64) -> (r: Result<(), Error>)
        ensures
            agrees(r, key_valid_at(self@.created_at, self@.validity_period, unix_seconds)),
    {
        crate::session_keys::ensure_key_valid_at(
            &self.created_at,
            self.validity_period,
            unix_seconds,
        )
    }

    /// Signs the payload of a planned segment, puts the event message in front of the segment, and
    /// advances the session.
    pub fn finish_media_segment(
        &mut self,
        plan: &MediaPlan,
        draft_size: usize,
        payload: &[u8],
        segment_data: &[u8],
    ) -> (r: Result<Vec<u8>, Error>)
        requires
            planned(old(self)@, segment_data@, plan.iat) == Ok::<MediaPlanView, Failure>(plan@),
        ensures
            match signed_segment(old(self)@, plan@, draft_size as nat, payload@, segment_data@) {
                Err(failure) => r matches Err(e) && e@ == failure && final(self)@ == old(self)@,
                Ok(signed) => r matches Ok(v) && v@ == signed && final(self)@ == after_segment(
                    old(self)@,
                    plan@,
                ),
            },
            old(self)@.valid() ==> final(self)@.valid(),
    {
        let cose: Vec<u8> = build_vsi_cose_sign1(
            payload,
            &self.session_signing_key,
            self.kid.as_slice(),
            plan.iat,
        )?;
        self.frame_media_segment(plan, draft_size, cose.as_slice(), segment_data)
    }

    /// Puts the event message of a given message in front of a planned segment, and advances the
    /// session.
    pub fn frame_media_segment(
        &mut self,
        plan: &MediaPlan,
        draft_size: usize,
        message_bytes: &[u8],
        segment_data: &[u8],
    ) -> (r: Result<Vec<u8>, Error>)
        requires
            plan.sequence_number < u64::MAX,
            plan.id < u32::MAX,
        ensures
            match framed_segment(plan@, draft_size as nat, message_bytes@, segment_data@) {
                Err(failure) => r matches Err(e) && e@ == failure && final(self)@ == old(self)@,
                Ok(signed) => r matches Ok(v) && v@ == signed && final(self)@ == after_segment(
                    old(self)@,
                    plan@,
                ),
            },
            old(self)@.valid() && old(self)@.min_sequence_number <= plan.sequence_number
                ==> final(self)@.valid(),
    {
        let emsg: Vec<u8> = build_emsg_box(
            message_bytes,
            plan.timescale,
            plan.event_duration,
            plan.id,
        )?;
        if emsg.len() != draft_size {
            return Err(
                bad_param(
                    "draft and final VSI emsg boxes differ in size; the c2pa.hash.bmff.v3 offset-prefix scheme would be computed against the wrong box offsets",
                ),
            );
        }
        let mut signed: Vec<u8> = emsg;
        push_bytes(&mut signed, segment_data);
        self.next_sequence_number = plan.sequence_number + 1;
        self.next_event_id = plan.id + 1;
        Ok(signed)
    }

    /// Signs a media segment at the given time by putting its event message in front of it.
    ///
    /// The offsets that enter the hash are those of the finished segment, which begins with an event
    /// message that holds the hash. So the hash is taken behind a draft of the same size, with zeros
    /// in place of the digest and the signature.
    ///
    /// `encode` encodes a segment info map, `digest` computes the digest that a hash asks for, and
    /// `encode_hash` encodes a hash.
    pub fn sign_media_segment_at<
        M: Fn(&SegmentInfoMap) -> Result<Vec<u8>, String>,
        G: Fn(&BmffHash, &[u8]) -> Result<Vec<u8>, String>,
        E: Fn(&BmffHash) -> Result<c2pa_cbor::Value, String>,
    >(&mut self, segment_data: &[u8], iat: i64, encode: &M, digest: &G, encode_hash: &E) -> (r:
        Result<Vec<u8>, Error>)
        requires
            forall|info: &SegmentInfoMap| call_requires(*encode, (info,)),
            forall|hash: &BmffHash, data: &[u8]| call_requires(*digest, (hash, data)),
            forall|hash: &BmffHash| call_requires(*encode_hash, (hash,)),
        ensures
            signing_outcome(
                old(self)@,
                segment_data@,
                iat,
                *encode,
                *digest,
                *encode_hash,
                r,
            ),
            r is Err ==> final(self)@ == old(self)@,
            r is Ok ==> (planned(old(self)@, segment_data@, iat) matches Ok(plan) && final(self)@
                == after_segment(old(self)@, plan)),
            old(self)@.valid() ==> final(self)@.valid(),
    {
        let plan: MediaPlan = self.plan_media_segment(segment_data, iat)?;
        let draft: Result<Vec<u8>, Error> = draft_emsg(
            self.kid.as_slice(),
            &plan,
            encode,
            encode_hash,
        );
        assert(draft_outcome(old(self)@.kid, plan@, *encode, *encode_hash, draft));
        let emsg: Vec<u8> = draft?;
        let size: usize = emsg.len();
        let mut draft_segment: Vec<u8> = emsg;
        let ghost front = draft_segment@;
        push_bytes(&mut draft_segment, segment_data);
        let sealed: Result<Vec<u8>, Error> = seal_payload(
            &plan,
            draft_segment.as_slice(),
            encode,
            digest,
            encode_hash,
        );
        assert(sealed_payload_outcome(
            plan@,
            front + segment_data@,
            *encode,
            *digest,
            *encode_hash,
            sealed,
        ));
        let payload: Vec<u8> = sealed?;
        self.finish_media_segment(&plan, size, payload.as_slice(), segment_data)
    }

    /// Signs a media segment now by putting its event message in front of it.
    ///
    /// The arguments are those of [`sign_media_segment_at`].
    ///
    /// [`sign_media_segment_at`]: LiveVideoVsiSigner::sign_media_segment_at
    pub fn sign_media_segment<
        M: Fn(&SegmentInfoMap) -> Result<Vec<u8>, String>,
        G: Fn(&BmffHash, &[u8]) -> Result<Vec<u8>, String>,
        E: Fn(&BmffHash) -> Result<c2pa_cbor::Value, String>,
    >(&mut self, segment_data: &[u8], encode: &M, digest: &G, encode_hash: &E) -> (r: Result<
        Vec<u8>,
        Error,
    >)
        requires
            forall|info: &SegmentInfoMap| call_requires(*encode, (info,)),
            forall|hash: &BmffHash, data: &[u8]| call_requires(*digest, (hash, data)),
            forall|hash: &BmffHash| call_requires(*encode_hash, (hash,)),
        ensures
            exists|iat: i64|
                #![trigger planned(old(self)@, segment_data@, iat)]
                signing_outcome(
                    old(self)@,
                    segment_data@,
                    iat,
                    *encode,
                    *digest,
                    *encode_hash,
                    r,
                ) && (r is Ok ==> (planned(old(self)@, segment_data@, iat) matches Ok(plan)
                    && final(self)@ == after_segment(old(self)@, plan))),
            r is Err ==> final(self)@ == old(self)@,
            old(self)@.valid() ==> final(self)@.valid(),
    {
        let iat: i64 = current_seconds();
        let r = self.sign_media_segment_at(segment_data, iat, encode, digest, encode_hash);
        proof {
            let _ = planned(old(self)@, segment_data@, iat);
        }
        r
    }
}

// Resuming.

/// Whether the signature of a resumed message is that of the session key, and its key was valid
/// when it claims to have been signed.
pub open spec fn checked_signature(session: Session, message: Sign1View) -> Result<(), Failure> {
    match message_alg(message) {
        None => Err(Failure::BadParam("resumed VSI has no supported protected alg"@)),
        Some(alg) => if alg != SigningAlg::Ed25519 {
            Err(
                Failure::BadParam(
                    "resumed VSI protected alg does not match the Ed25519 session key"@,
                ),
            )
        } else if message.unprotected_alg {
            Err(
                Failure::BadParam("resumed VSI alg must not appear in the unprotected header"@),
            )
        } else if message.signature.len() != SIGNATURE_LENGTH {
            Err(Failure::BadParam("invalid resumed Ed25519 signature: "@ + "signature error"@))
        } else {
            match ed25519_check(session.seed, message_input(message), message.signature) {
                Err(words) => Err(
                    Failure::BadParam("resumed VSI signature is invalid: "@ + words),
                ),
                Ok(_) => match claimed_time(message.entries) {
                    Err(e) => Err(e),
                    Ok(iat) => key_valid_at(session.created_at, session.validity_period, iat),
                },
            }
        },
    }
}

/// The bytes that the signature of a message with an embedded payload covers.
pub open spec fn message_input(message: Sign1View) -> Seq<u8> {
    signature_input(
        message.protected,
        seq![],
        match message.payload {
            Some(payload) => payload,
            None => seq![],
        },
    )
}

/// Whether a resumed segment fits the session: its number, key, manifest, track and timing.
pub open spec fn checked_fit(
    session: Session,
    manifest_id: Seq<char>,
    media: MediaSegmentInfo,
    event: EmsgEvent,
    message: Sign1View,
    info: SegmentInfo,
) -> Result<(), Failure> {
    if info.sequence_number != media.sequence_number {
        Err(
            Failure::BadParam(
                "resumed VSI sequenceNumber does not match moof/mfhd.sequence_number"@,
            ),
        )
    } else if message.key_id != session.kid {
        Err(Failure::BadParam("resumed VSI kid does not match the configured session key"@))
    } else if info.manifest_id != manifest_id {
        Err(
            Failure::BadParam(
                "resumed VSI manifestId does not match the restored initialization manifest"@,
            ),
        )
    } else if session.track_id != Some(media.track_id) {
        Err(
            Failure::BadParam(
                "resumed VSI media track does not match the restored initialization track"@,
            ),
        )
    } else if event.presentation_time_delta != 0 || session.track_timescale != Some(event.timescale)
        || event.event_duration != media.duration_ticks || event.id == 0 {
        Err(
            Failure::BadParam(
                "resumed VSI emsg timing or id does not match the restored init and media segment"@,
            ),
        )
    } else {
        Ok(())
    }
}

/// Whether a resumed segment belongs to the session, its hash left aside.
pub open spec fn checked_resume(
    session: Session,
    segment: Seq<u8>,
    event: EmsgEvent,
    message: Sign1View,
    info: SegmentInfo,
) -> Result<(), Failure> {
    match session.active_manifest_id {
        None => Err(
            Failure::BadParam(
                "restore_manifest_id_from_signed_init must be called before resume_from_segment"@,
            ),
        ),
        Some(manifest_id) => match media_info(segment, session.default_sample_duration) {
            Err(e) => Err(e),
            Ok(media) => match checked_fit(session, manifest_id, media, event, message, info) {
                Err(e) => Err(e),
                Ok(_) => match checked_signature(session, message) {
                    Err(e) => Err(e),
                    Ok(_) => if info.sequence_number < session.min_sequence_number {
                        Err(
                            Failure::BadParam(
                                "resumed VSI sequenceNumber is below the session key minSequenceNumber"@,
                            ),
                        )
                    } else {
                        Ok(())
                    },
                },
            },
        },
    }
}

/// The session behind a resumed segment, and whether it can go on.
///
/// Past the last event identifier it cannot, but the number has then been taken over.
pub open spec fn resumed(session: Session, sequence_number: u64, id: u32) -> (
    Session,
    Result<(), Failure>,
) {
    let numbered = Session { next_sequence_number: (sequence_number + 1) as u64, ..session };
    if sequence_number == u64::MAX {
        (session, Err(Failure::BadParam("resumed VSI sequenceNumber overflow"@)))
    } else if id == u32::MAX {
        (numbered, Err(Failure::BadParam("resumed VSI emsg id overflow"@)))
    } else {
        (Session { next_event_id: (id + 1) as u32, ..numbered }, Ok(()))
    }
}

/// What may come of resuming behind a segment whose event and message are known.
pub open spec fn parsed_resume_outcome<
    H: Fn(&c2pa_cbor::Value) -> Result<BmffHash, String>,
    V: Fn(&[u8], &c2pa_cbor::Value, u64) -> Result<(), String>,
>(
    session: Session,
    segment: Seq<u8>,
    event: EmsgEvent,
    parsed: ParsedVsi,
    decode_hash: H,
    verify: V,
    after: Session,
    r: Result<(), Error>,
) -> bool {
    match checked_resume(session, segment, event, parsed.sign1@, parsed.segment_info_map@) {
        Err(failure) => r matches Err(e) && e@ == failure && after == session,
        Ok(_) => exists|compared: Result<(), Error>| #[trigger]
            hash_outcome(
                segment,
                parsed.segment_info_map.bmff_hash,
                decode_hash,
                verify,
                compared,
            ) && match compared {
                Err(e) => r == Err::<(), Error>(e) && after == session,
                Ok(_) => {
                    let next = resumed(
                        session,
                        parsed.segment_info_map.sequence_number,
                        event.id,
                    );
                    after == next.0 && match next.1 {
                        Err(failure) => r matches Err(e) && e@ == failure,
                        Ok(_) => r is Ok,
                    }
                },
            },
    }
}

/// What may come of resuming behind a segment.
#[verifier::opaque]
pub open spec fn resume_outcome<
    D: Fn(&[u8]) -> Result<SegmentInfoMap, String>,
    H: Fn(&c2pa_cbor::Value) -> Result<BmffHash, String>,
    V: Fn(&[u8], &c2pa_cbor::Value, u64) -> Result<(), String>,
>(
    session: Session,
    segment: Seq<u8>,
    decode: D,
    decode_hash: H,
    verify: V,
    after: Session,
    r: Result<(), Error>,
) -> bool {
    match vsi_event(segment) {
        Err(failure) => r matches Err(e) && e@ == failure && after == session,
        Ok(None) => r matches Err(e) && e@ == Failure::BadParam(
            "previous segment does not contain a VSI emsg box"@,
        ) && after == session,
        Ok(Some(event)) => exists|parsed: Result<ParsedVsi, Error>| #[trigger]
            vsi_outcome(event.message_data, decode, parsed) && match parsed {
                Err(e) => r == Err::<(), Error>(e) && after == session,
                Ok(p) => parsed_resume_outcome(
                    session,
                    segment,
                    event,
                    p,
                    decode_hash,
                    verify,
                    after,
                    r,
                ),
            },
    }
}

impl LiveVideoVsiSigner {
    /// Checks that a resumed segment fits the session: its number, key, manifest, track and timing.
    pub fn check_fit(
        &self,
        manifest_id: &str,
        media: &MediaSegmentInfo,
        event: &VsiEmsg,
        parsed: &ParsedVsi,
    ) -> (r: Result<(), Error>)
        ensures
            agrees(
                r,
                checked_fit(
                    self@,
                    manifest_id@,
                    *media,
                    event@,
                    parsed.sign1@,
                    parsed.segment_info_map@,
                ),
            ),
    {
        if parsed.segment_info_map.sequence_number != media.sequence_number as u64 {
            return Err(
                bad_param("resumed VSI sequenceNumber does not match moof/mfhd.sequence_number"),
            );
        }
        if !same_bytes(parsed.sign1.key_id.as_slice(), self.kid.as_slice()) {
            return Err(bad_param("resumed VSI kid does not match the configured session key"));
        }
        if !same_text(parsed.segment_info_map.manifest_id.as_str(), manifest_id) {
            return Err(
                bad_param(
                    "resumed VSI manifestId does not match the restored initialization manifest",
                ),
            );
        }
        let same_track: bool = match self.track_id {
            Some(track_id) => track_id == media.track_id,
            None => false,
        };
        if !same_track {
            return Err(
                bad_param(
                    "resumed VSI media track does not match the restored initialization track",
                ),
            );
        }
        let same_timescale: bool = match self.track_timescale {
            Some(timescale) => timescale == event.timescale,
            None => false,
        };
        if event.presentation_time_delta != 0 || !same_timescale || event.event_duration
            != media.duration_ticks || event.id == 0 {
            return Err(
                bad_param(
                    "resumed VSI emsg timing or id does not match the restored init and media segment",
                ),
            );
        }
        Ok(())
    }

    /// Checks the signature of a resumed message, and that its key was valid.
    ///
    /// A signature that the session key made is accepted, unless its first half is the encoding of
    /// the neutral point.
    pub fn check_resumed_signature(&self, message: &Sign1) -> (r: Result<(), Error>)
        ensures
            agrees(r, checked_signature(self@, message@)),
            message_alg(message@) == Some(SigningAlg::Ed25519) && !message@.unprotected_alg
                && message@.signature == ed25519_signature(self@.seed, message_input(message@))
                && message@.signature.len() == SIGNATURE_LENGTH && message@.signature.take(32)
                != neutral_point() ==> ed25519_check(
                self@.seed,
                message_input(message@),
                message@.signature,
            ) is Ok,
    {
        match signing_alg_from_sign1(message) {
            None => {
                return Err(bad_param("resumed VSI has no supported protected alg"));
            },
            Some(alg) => {
                if alg != SigningAlg::Ed25519 {
                    return Err(
                        bad_param(
                            "resumed VSI protected alg does not match the Ed25519 session key",
                        ),
                    );
                }
            },
        }
        if message.unprotected_alg {
            return Err(bad_param("resumed VSI alg must not appear in the unprotected header"));
        }
        let signature: [u8; 64] = match signature_from_slice(message.signature.as_slice()) {
            Ok(signature) => signature,
            Err(words) => {
                return Err(bad_param_with("invalid resumed Ed25519 signature: ", words.as_str()));
            },
        };
        let nothing: Vec<u8> = Vec::new();
        assert(nothing@ =~= seq![]);
        let payload: &[u8] = match &message.payload {
            Some(payload) => payload.as_slice(),
            None => nothing.as_slice(),
        };
        let input: Vec<u8> = encode_signature_input(
            message.protected.as_slice(),
            nothing.as_slice(),
            payload,
        );
        assert(input@ == message_input(message@));
        match self.session_signing_key.verify_strict(input.as_slice(), &signature) {
            Ok(_) => {},
            Err(words) => {
                return Err(bad_param_with("resumed VSI signature is invalid: ", words.as_str()));
            },
        }
        let iat: i64 = protected_iat(message)?;
        self.ensure_key_valid_at(iat)
    }

    /// Checks that a resumed segment belongs to the session, its hash left aside.
    pub fn check_resumed_segment(
        &self,
        segment_data: &[u8],
        event: &VsiEmsg,
        parsed: &ParsedVsi,
    ) -> (r: Result<(), Error>)
        ensures
            agrees(
                r,
                checked_resume(
                    self@,
                    segment_data@,
                    event@,
                    parsed.sign1@,
                    parsed.segment_info_map@,
                ),
            ),
    {
        let manifest_id: &str = match &self.active_manifest_id {
            Some(id) => id.as_str(),
            None => {
                return Err(
                    bad_param(
                        "restore_manifest_id_from_signed_init must be called before resume_from_segment",
                    ),
                );
            },
        };
        let media: MediaSegmentInfo = parse_media_segment(
            segment_data,
            self.default_sample_duration,
        )?;
        self.check_fit(manifest_id, &media, event, parsed)?;
        self.check_resumed_signature(&parsed.sign1)?;
        if parsed.segment_info_map.sequence_number < self.min_sequence_number {
            return Err(
                bad_param("resumed VSI sequenceNumber is below the session key minSequenceNumber"),
            );
        }
        Ok(())
    }

    /// Goes on behind a segment with the given number and event identifier.
    pub fn resume_behind(&mut self, sequence_number: u64, id: u32) -> (r: Result<(), Error>)
        ensures
            final(self)@ == resumed(old(self)@, sequence_number, id).0,
            agrees(r, resumed(old(self)@, sequence_number, id).1),
            old(self)@.valid() && old(self)@.min_sequence_number <= sequence_number
                ==> final(self)@.valid(),
    {
        if sequence_number == u64::MAX {
            return Err(bad_param("resumed VSI sequenceNumber overflow"));
        }
        self.next_sequence_number = sequence_number + 1;
        if id == u32::MAX {
            return Err(bad_param("resumed VSI emsg id overflow"));
        }
        self.next_event_id = id + 1;
        Ok(())
    }

    /// Resumes behind a segment that this session signed.
    ///
    /// The initialization segment must have been restored before. `decode` decodes a segment info
    /// map, `decode_hash` a hash; `verify` compares a hash with the segment.
    pub fn resume_from_segment<
        D: Fn(&[u8]) -> Result<SegmentInfoMap, String>,
        H: Fn(&c2pa_cbor::Value) -> Result<BmffHash, String>,
        V: Fn(&[u8], &c2pa_cbor::Value, u64) -> Result<(), String>,
    >(&mut self, segment_data: &[u8], decode: D, decode_hash: H, verify: V) -> (r: Result<
        (),
        Error,
    >)
        requires
            forall|payload: &[u8]| call_requires(decode, (payload,)),
            forall|value: &c2pa_cbor::Value| call_requires(decode_hash, (value,)),
            forall|data: &[u8], value: &c2pa_cbor::Value, version: u64|
                call_requires(verify, (data, value, version)),
        ensures
            resume_outcome(
                old(self)@,
                segment_data@,
                decode,
                decode_hash,
                verify,
                final(self)@,
                r,
            ),
            old(self)@.valid() ==> final(self)@.valid(),
    {
        proof {
            reveal(resume_outcome);
        }
        let event: VsiEmsg = match extract_vsi_emsg_from_segment(segment_data)? {
            Some(event) => event,
            None => {
                return Err(bad_param("previous segment does not contain a VSI emsg box"));
            },
        };
        let outcome: Result<ParsedVsi, Error> = parse_vsi(event.message_data.as_slice(), &decode);
        assert(vsi_outcome(event@.message_data, decode, outcome));
        let parsed: ParsedVsi = outcome?;
        self.check_resumed_segment(segment_data, &event, &parsed)?;
        let compared: Result<(), Error> = verify_segment_bmff_hash(
            segment_data,
            &parsed.segment_info_map.bmff_hash,
            decode_hash,
            verify,
        );
        assert(hash_outcome(
            segment_data@,
            parsed.segment_info_map.bmff_hash,
            decode_hash,
            verify,
            compared,
        ));
        compared?;
        self.resume_behind(parsed.segment_info_map.sequence_number, event.id)
    }
}

// Recovery.

/// What may come of recovering a session from its initialization segment and, if there is one, the
/// media segment that was published last.
pub open spec fn recovery_outcome<
    R: Fn(&[u8]) -> Result<InitManifestReport, Error>,
    D: Fn(&[u8]) -> Result<SegmentInfoMap, String>,
    H: Fn(&c2pa_cbor::Value) -> Result<BmffHash, String>,
    V: Fn(&[u8], &c2pa_cbor::Value, u64) -> Result<(), String>,
>(
    session: Session,
    init: Seq<u8>,
    read: R,
    previous: Option<Seq<u8>>,
    decode: D,
    decode_hash: H,
    verify: V,
    after: Session,
    r: Result<(), Error>,
) -> bool {
    exists|restored: Session, first: Result<(), Error>| #[trigger]
        restoring_outcome(session, init, read, restored, first) && match first {
            Err(e) => r == Err::<(), Error>(e) && after == session,
            Ok(_) => match previous {
                None => r is Ok && after == restored,
                Some(segment) => exists|next: Session| #[trigger]
                    resume_outcome(restored, segment, decode, decode_hash, verify, next, r) && after
                        == if r is Ok {
                        next
                    } else {
                        session
                    },
            },
        }
}

impl LiveVideoVsiSigner {
    /// Copies the signer.
    fn copy(&self) -> (r: Self)
        ensures
            r@ == self@,
    {
        LiveVideoVsiSigner {
            session_signing_key: Ed25519SessionKey { seed: self.session_signing_key.seed },
            session_cose_key: self.session_cose_key.copy(),
            kid: to_vec(self.kid.as_slice()),
            signer_binding: copy_value(&self.signer_binding),
            manifest_signer_ee_cert_der: to_vec(self.manifest_signer_ee_cert_der.as_slice()),
            min_sequence_number: self.min_sequence_number,
            created_at: DateT(self.created_at.0.clone()),
            validity_period: self.validity_period,
            next_sequence_number: self.next_sequence_number,
            next_event_id: self.next_event_id,
            base_manifest_json: self.base_manifest_json.clone(),
            active_manifest_id: match &self.active_manifest_id {
                Some(id) => Some(id.clone()),
                None => None,
            },
            track_id: self.track_id,
            track_timescale: self.track_timescale,
            default_sample_duration: self.default_sample_duration,
        }
    }

    /// Recovers the session from what was published: its signed initialization segment, and the
    /// media segment that was published last.
    ///
    /// Nothing is taken over unless all of it is accepted. Recovery without a media segment is right
    /// only where none has been published. The arguments are those of
    /// [`restore_manifest_id_from_signed_init`] and [`resume_from_segment`].
    ///
    /// [`restore_manifest_id_from_signed_init`]: LiveVideoVsiSigner::restore_manifest_id_from_signed_init
    /// [`resume_from_segment`]: LiveVideoVsiSigner::resume_from_segment
    pub fn recover_from_artifacts<
        R: Fn(&[u8]) -> Result<InitManifestReport, Error>,
        D: Fn(&[u8]) -> Result<SegmentInfoMap, String>,
        H: Fn(&c2pa_cbor::Value) -> Result<BmffHash, String>,
        V: Fn(&[u8], &c2pa_cbor::Value, u64) -> Result<(), String>,
    >(
        &mut self,
        signed_init_segment: &[u8],
        read: R,
        previous_media_segment: Option<&[u8]>,
        decode: D,
        decode_hash: H,
        verify: V,
    ) -> (r: Result<(), Error>)
        requires
            forall|data: &[u8]| call_requires(read, (data,)),
            forall|payload: &[u8]| call_requires(decode, (payload,)),
            forall|value: &c2pa_cbor::Value| call_requires(decode_hash, (value,)),
            forall|data: &[u8], value: &c2pa_cbor::Value, version: u64|
                call_requires(verify, (data, value, version)),
        ensures
            recovery_outcome(
                old(self)@,
                signed_init_segment@,
                read,
                match previous_media_segment {
                    Some(segment) => Some(segment@),
                    None => None,
                },
                decode,
                decode_hash,
                verify,
                final(self)@,
                r,
            ),
            r is Err ==> final(self)@ == old(self)@,
            old(self)@.valid() ==> final(self)@.valid(),
    {
        let mut recovered: LiveVideoVsiSigner = self.copy();
        let first: Result<(), Error> = recovered.restore_manifest_id_from_signed_init(
            signed_init_segment,
            read,
        );
        let ghost restored = recovered@;
        assert(restoring_outcome(old(self)@, signed_init_segment@, read, restored, first));
        first?;
        let r: Result<(), Error> = match previous_media_segment {
            None => Ok(()),
            Some(segment) => recovered.resume_from_segment(segment, decode, decode_hash, verify),
        };
        let ghost next = recovered@;
        if r.is_ok() {
            *self = recovered;
        }
        proof {
            let previous = match previous_media_segment {
                Some(segment) => Some(segment@),
                None => None,
            };
            if previous is Some {
                assert(resume_outcome(
                    restored,
                    previous->Some_0,
                    decode,
                    decode_hash,
                    verify,
                    next,
                    r,
                ));
            }
            assert(recovery_outcome(
                old(self)@,
                signed_init_segment@,
                read,
                previous,
                decode,
                decode_hash,
                verify,
                self@,
                r,
            ));
        }
        r
    }
}

} // verus!
