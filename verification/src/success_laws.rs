//! That signing, restoring and recovering succeed wherever the input is in order and the host does its
//! part.

use vstd::prelude::*;

use crate::bmff::{init_info, media_info, media_sequence_number};
use crate::certificates::byte_views;
use crate::cose::{decoded_sign1, eddsa_message, encoded};
use crate::definition_laws::{report_is_sound_or_not, sound_report};
use crate::ed25519::ed25519_signature;
use crate::error::{Error, Failure};
use crate::manifest_report::ManifestReport;
use crate::segment_info::{
    encoding_outcome, hash_outcome, hashing_outcome, vsi_outcome, BmffHash, ParsedVsi,
    SegmentInfoMap,
};
use crate::session_keys::{SessionKeyView, SessionKeys};
use crate::session_laws::{
    belongs_to, checks_accept_what_belongs, checks_accept_what_publishes, covers_the_segment,
    hash_with, publishes_the_session_key, taken_up_from, within_validity,
};
use crate::signing::{
    init_embedding_outcome, media_embedding_outcome, reading_outcome, LiveVideoSegment,
    LiveVideoSigner,
};
use crate::verifiable_segment_info::{vsi_candidates, vsi_event, EmsgEvent};
use crate::vsi_signing::{
    draft_outcome, init_reading_outcome, payload_outcome, planned, restoring_outcome,
    resume_outcome, sealed_payload_outcome, InitManifestReport, LiveVideoVsiSigner, MediaPlanView,
    Session,
};

verus! {

// Chains of manifests.

/// Whether whatever is read of a segment with `read` names a sound manifest with the given identifier.
pub open spec fn reads_sound<R: Fn(&[u8]) -> Result<ManifestReport, Error>>(
    read: R,
    id: Seq<char>,
) -> bool {
    forall|data: &[u8], report: Result<ManifestReport, Error>| #[trigger]
        call_ensures(read, (data,), report) ==> report is Ok && sound_report(report->Ok_0, id)
}

proof fn sound_reading_gives_the_identifier<R: Fn(&[u8]) -> Result<ManifestReport, Error>>(
    read: R,
    id: Seq<char>,
)
    requires
        reads_sound(read, id),
    ensures
        forall|bytes: Seq<u8>, report: Result<ManifestReport, Error>| #[trigger]
            reading_outcome(bytes, read, report) ==> report is Ok && report->Ok_0.manifest_id()
                == Ok::<Seq<char>, Failure>(id),
{
    assert forall|bytes: Seq<u8>, report: Result<ManifestReport, Error>| #[trigger]
        reading_outcome(bytes, read, report) implies report is Ok && report->Ok_0.manifest_id()
        == Ok::<Seq<char>, Failure>(id) by {
        let data = choose|data: &[u8]| #[trigger]
            call_ensures(read, (data,), report) && data@ == bytes;
        assert(sound_report(report->Ok_0, id));
        report_is_sound_or_not(report->Ok_0);
    }
}

/// An initialization segment whose timing can be read is signed where the host signs it and then reads
/// a sound manifest of it, which becomes the link.
pub proof fn readable_init_is_signed<
    S: Fn(&str, &[u8]) -> Result<Vec<u8>, Error>,
    R: Fn(&[u8]) -> Result<ManifestReport, Error>,
>(
    signer: &mut LiveVideoSigner,
    segment: &[u8],
    sign: S,
    read: R,
    r: Result<Vec<u8>, Error>,
    id: Seq<char>,
)
    requires
        call_ensures(
            LiveVideoSigner::sign_init_segment::<S, R>,
            (signer, segment, sign, read),
            r,
        ),
        init_info(segment@) is Ok,
        forall|text: &str, data: &[u8], signed: Result<Vec<u8>, Error>| #[trigger]
            call_ensures(sign, (text, data), signed) ==> signed is Ok,
        reads_sound(read, id),
    ensures
        r is Ok,
        final(signer)@.previous_manifest_id == Some(id),
{
    sound_reading_gives_the_identifier(read, id);
    assert forall|signed: Result<Vec<u8>, Error>| #[trigger]
        init_embedding_outcome(
            old(signer)@.base_manifest_json,
            segment@,
            sign,
            signed,
        ) implies signed is Ok by {}
}

/// A signed initialization segment whose timing can be read is taken up where the host reads a sound
/// manifest of it, which becomes the link.
pub proof fn readable_init_is_restored<R: Fn(&[u8]) -> Result<ManifestReport, Error>>(
    signer: &mut LiveVideoSigner,
    segment: &[u8],
    read: R,
    r: Result<(), Error>,
    id: Seq<char>,
)
    requires
        call_ensures(LiveVideoSigner::restore_init_segment::<R>, (signer, segment, read), r),
        init_info(segment@) is Ok,
        reads_sound(read, id),
    ensures
        r is Ok,
        final(signer)@.previous_manifest_id == Some(id),
{
    sound_reading_gives_the_identifier(read, id);
}

/// The next media segment is signed where the host signs it and then reads a sound manifest of it, which
/// becomes the link; the number advances past that of the segment.
pub proof fn next_segment_is_signed<
    S: Fn(&str, &LiveVideoSegment, &[u8]) -> Result<Vec<u8>, Error>,
    R: Fn(&[u8]) -> Result<ManifestReport, Error>,
>(
    signer: &mut LiveVideoSigner,
    segment: &[u8],
    sign: S,
    read: R,
    r: Result<Vec<u8>, Error>,
    id: Seq<char>,
)
    requires
        call_ensures(
            LiveVideoSigner::sign_media_segment::<S, R>,
            (signer, segment, sign, read),
            r,
        ),
        media_sequence_number(segment@) is Some,
        old(signer)@.previous_manifest_id is Some,
        old(signer)@.sequence_number_configured ==> old(signer)@.next_sequence_number
            == media_sequence_number(segment@)->Some_0,
        forall|text: &str, claim: &LiveVideoSegment, data: &[u8], signed: Result<Vec<u8>, Error>|
            #[trigger]
            call_ensures(sign, (text, claim, data), signed) ==> signed is Ok,
        reads_sound(read, id),
    ensures
        r is Ok,
        final(signer)@.previous_manifest_id == Some(id),
        final(signer)@.next_sequence_number == media_sequence_number(segment@)->Some_0 + 1,
{
    sound_reading_gives_the_identifier(read, id);
    let claim = crate::signing::begun(old(signer)@, segment@).1->Ok_0;
    assert forall|signed: Result<Vec<u8>, Error>| #[trigger]
        media_embedding_outcome(
            old(signer)@.base_manifest_json,
            claim,
            segment@,
            sign,
            signed,
        ) implies signed is Ok by {}
}

// Sessions.

/// Whether whatever is read of a segment with `read` publishes the key of a session.
pub open spec fn reads_published<R: Fn(&[u8]) -> Result<InitManifestReport, Error>>(
    session: Session,
    read: R,
    id: Seq<char>,
    key: SessionKeyView,
) -> bool {
    forall|data: &[u8], report: Result<InitManifestReport, Error>| #[trigger]
        call_ensures(read, (data,), report) ==> report is Ok && publishes_the_session_key(
            session,
            report->Ok_0,
            id,
            key,
        )
}

proof fn published_reading_gives_the_key<R: Fn(&[u8]) -> Result<InitManifestReport, Error>>(
    session: Session,
    read: R,
    id: Seq<char>,
    key: SessionKeyView,
)
    requires
        reads_published(session, read, id, key),
    ensures
        forall|bytes: Seq<u8>, report: Result<InitManifestReport, Error>| #[trigger]
            init_reading_outcome(bytes, read, report) ==> report is Ok
                && crate::vsi_signing::checked_init_manifest(session, report->Ok_0@) == Ok::<
                (Seq<char>, SessionKeyView),
                Failure,
            >((id, key)),
{
    assert forall|bytes: Seq<u8>, report: Result<InitManifestReport, Error>| #[trigger]
        init_reading_outcome(bytes, read, report) implies report is Ok
        && crate::vsi_signing::checked_init_manifest(session, report->Ok_0@) == Ok::<
        (Seq<char>, SessionKeyView),
        Failure,
    >((id, key)) by {
        let data = choose|data: &[u8]| #[trigger]
            call_ensures(read, (data,), report) && data@ == bytes;
        assert(publishes_the_session_key(session, report->Ok_0, id, key));
        checks_accept_what_publishes(session, report->Ok_0);
    }
}

/// An initialization segment whose timing can be read is signed with the certificate that the session key
/// is bound to, where the host signs it and then reads that it publishes the key; the session takes it
/// up.
pub proof fn readable_init_is_signed_for_the_session<
    S: Fn(&str, &SessionKeys, &[u8]) -> Result<Vec<u8>, Error>,
    R: Fn(&[u8]) -> Result<InitManifestReport, Error>,
>(
    signer: &mut LiveVideoVsiSigner,
    segment: &[u8],
    certs: &Result<Vec<Vec<u8>>, String>,
    sign: S,
    read: R,
    r: Result<Vec<u8>, Error>,
    id: Seq<char>,
    key: SessionKeyView,
)
    requires
        call_ensures(
            LiveVideoVsiSigner::sign_init_segment::<S, R>,
            (signer, segment, certs, sign, read),
            r,
        ),
        init_info(segment@) is Ok,
        certs is Ok,
        certs->Ok_0@.len() > 0,
        certs->Ok_0@[0]@ == old(signer)@.cert,
        forall|text: &str, keys: &SessionKeys, data: &[u8], signed: Result<Vec<u8>, Error>|
            #[trigger]
            call_ensures(sign, (text, keys, data), signed) ==> signed is Ok,
        reads_published(old(signer)@, read, id, key),
    ensures
        r is Ok,
        taken_up_from(old(signer)@, final(signer)@, init_info(segment@)->Ok_0, id, key),
{
    published_reading_gives_the_key(old(signer)@, read, id, key);
    assert(byte_views(certs->Ok_0@).len() == certs->Ok_0@.len());
    assert(byte_views(certs->Ok_0@)[0] == certs->Ok_0@[0]@);
    assert forall|signed: Result<Vec<u8>, Error>| #[trigger]
        crate::vsi_signing::init_embedding_outcome(
            old(signer)@,
            segment@,
            sign,
            signed,
        ) implies signed is Ok by {}
}

/// A session recovers from its initialization segment alone wherever it can take the segment up.
pub proof fn session_recovers_from_its_init<
    R: Fn(&[u8]) -> Result<InitManifestReport, Error>,
    D: Fn(&[u8]) -> Result<SegmentInfoMap, String>,
    H: Fn(&c2pa_cbor::Value) -> Result<BmffHash, String>,
    V: Fn(&[u8], &c2pa_cbor::Value, u64) -> Result<(), String>,
>(
    signer: &mut LiveVideoVsiSigner,
    init: &[u8],
    read: R,
    decode: D,
    decode_hash: H,
    verify: V,
    r: Result<(), Error>,
    id: Seq<char>,
    key: SessionKeyView,
)
    requires
        call_ensures(
            LiveVideoVsiSigner::recover_from_artifacts::<R, D, H, V>,
            (signer, init, read, None::<&[u8]>, decode, decode_hash, verify),
            r,
        ),
        init_info(init@) is Ok,
        reads_published(old(signer)@, read, id, key),
    ensures
        r is Ok,
        taken_up_from(old(signer)@, final(signer)@, init_info(init@)->Ok_0, id, key),
{
    reveal(restoring_outcome);
    published_reading_gives_the_key(old(signer)@, read, id, key);
}

/// A session recovers from its initialization segment and the media segment published last wherever it
/// can take up the first and then resume behind the second.
pub proof fn session_recovers_from_its_segments<
    R: Fn(&[u8]) -> Result<InitManifestReport, Error>,
    D: Fn(&[u8]) -> Result<SegmentInfoMap, String>,
    H: Fn(&c2pa_cbor::Value) -> Result<BmffHash, String>,
    V: Fn(&[u8], &c2pa_cbor::Value, u64) -> Result<(), String>,
>(
    signer: &mut LiveVideoVsiSigner,
    init: &[u8],
    read: R,
    previous: &[u8],
    decode: D,
    decode_hash: H,
    verify: V,
    r: Result<(), Error>,
    id: Seq<char>,
    key: SessionKeyView,
    event: EmsgEvent,
)
    requires
        call_ensures(
            LiveVideoVsiSigner::recover_from_artifacts::<R, D, H, V>,
            (signer, init, read, Some(previous), decode, decode_hash, verify),
            r,
        ),
        init_info(init@) is Ok,
        reads_published(old(signer)@, read, id, key),
        vsi_event(previous@) == Ok::<Option<EmsgEvent>, Failure>(Some(event)),
        event.id < u32::MAX,
        media_info(previous@, init_info(init@)->Ok_0.default_sample_duration) is Ok,
        forall|restored: Session, parsed: Result<ParsedVsi, Error>|
            #[trigger] taken_up_from(
                old(signer)@,
                restored,
                init_info(init@)->Ok_0,
                id,
                key,
            ) && #[trigger] vsi_outcome(event.message_data, decode, parsed) ==> parsed is Ok
                && belongs_to(
                restored,
                media_info(previous@, init_info(init@)->Ok_0.default_sample_duration)->Ok_0,
                event,
                parsed->Ok_0,
            ),
        forall|value: &c2pa_cbor::Value, decoded: Result<BmffHash, String>| #[trigger]
            call_ensures(decode_hash, (value,), decoded) ==> decoded is Ok && covers_the_segment(
                decoded->Ok_0@,
            ),
        forall|data: &[u8], value: &c2pa_cbor::Value, compared: Result<(), String>| #[trigger]
            call_ensures(verify, (data, value, 3u64), compared) ==> compared is Ok,
    ensures
        r is Ok,
        final(signer)@.active_manifest_id == Some(id),
        final(signer)@.next_sequence_number == media_info(
            previous@,
            init_info(init@)->Ok_0.default_sample_duration,
        )->Ok_0.sequence_number + 1,
        final(signer)@.next_event_id == event.id + 1,
{
    reveal(restoring_outcome);
    reveal(resume_outcome);
    let session = old(signer)@;
    let info = init_info(init@)->Ok_0;
    published_reading_gives_the_key(session, read, id, key);
    let restored = crate::vsi_signing::with_init(session, id, key, info);
    assert(taken_up_from(session, restored, info, id, key));
    assert forall|parsed: Result<ParsedVsi, Error>| #[trigger]
        vsi_outcome(event.message_data, decode, parsed) implies parsed is Ok
        && crate::vsi_signing::checked_resume(
        restored,
        previous@,
        event,
        parsed->Ok_0.sign1@,
        parsed->Ok_0.segment_info_map@,
    ) is Ok && parsed->Ok_0.segment_info_map.sequence_number == media_info(
        previous@,
        info.default_sample_duration,
    )->Ok_0.sequence_number by {
        assert(taken_up_from(session, restored, info, id, key));
        checks_accept_what_belongs(restored, previous@, event, parsed->Ok_0);
    }
    assert forall|value: c2pa_cbor::Value, compared: Result<(), Error>| #[trigger]
        hash_outcome(previous@, value, decode_hash, verify, compared) implies compared is Ok by {
        matching_hash_is_accepted(previous@, value, decode_hash, verify, compared);
    }
}

// Hashes and messages.

/// A hash that covers the segment and matches it is accepted.
pub proof fn matching_hash_is_accepted<
    H: Fn(&c2pa_cbor::Value) -> Result<BmffHash, String>,
    V: Fn(&[u8], &c2pa_cbor::Value, u64) -> Result<(), String>,
>(segment: Seq<u8>, value: c2pa_cbor::Value, decode: H, verify: V, compared: Result<(), Error>)
    requires
        hash_outcome(segment, value, decode, verify, compared),
        forall|decoded: Result<BmffHash, String>| #[trigger]
            call_ensures(decode, (&value,), decoded) ==> decoded is Ok && covers_the_segment(
                decoded->Ok_0@,
            ),
        forall|data: &[u8], verified: Result<(), String>| #[trigger]
            call_ensures(verify, (data, &value, 3u64), verified) && data@ == segment
                ==> verified is Ok,
    ensures
        compared is Ok,
{
    let decoded = choose|decoded: Result<BmffHash, String>| #[trigger]
        call_ensures(decode, (&value,), decoded) && match decoded {
            Err(words) => compared matches Err(e) && e@ == Failure::BadParam(
                "invalid resumed VSI bmffHash: "@ + words@,
            ),
            Ok(hash) => match crate::segment_info::checked_hash(hash@) {
                Err(failure) => compared matches Err(e) && e@ == failure,
                Ok(_) => crate::segment_info::comparison_outcome(segment, value, verify, compared),
            },
        };
    crate::session_laws::hash_check_accepts_what_covers(decoded->Ok_0@);
}

/// A hash is accepted for a segment wherever the host decodes one that covers the segment and finds that
/// it matches.
pub proof fn hash_of_the_segment_is_accepted<
    H: Fn(&c2pa_cbor::Value) -> Result<BmffHash, String>,
    V: Fn(&[u8], &c2pa_cbor::Value, u64) -> Result<(), String>,
>(segment: &[u8], value: &c2pa_cbor::Value, decode: H, verify: V, r: Result<(), Error>)
    requires
        call_ensures(
            crate::segment_info::verify_segment_bmff_hash::<H, V>,
            (segment, value, decode, verify),
            r,
        ),
        forall|decoded: Result<BmffHash, String>| #[trigger]
            call_ensures(decode, (value,), decoded) ==> decoded is Ok && covers_the_segment(
                decoded->Ok_0@,
            ),
        forall|data: &[u8], verified: Result<(), String>| #[trigger]
            call_ensures(verify, (data, value, 3u64), verified) && data@ == segment@
                ==> verified is Ok,
    ensures
        r is Ok,
{
    matching_hash_is_accepted(segment@, *value, decode, verify, r);
}

/// A segment is hashed wherever the host digests it and encodes the hash.
pub proof fn digested_segment_is_hashed<
    G: Fn(&BmffHash, &[u8]) -> Result<Vec<u8>, String>,
    E: Fn(&BmffHash) -> Result<c2pa_cbor::Value, String>,
>(segment: &[u8], digest: &G, encode: &E, r: Result<c2pa_cbor::Value, Error>)
    requires
        call_ensures(
            crate::segment_info::build_segment_bmff_hash::<G, E>,
            (segment, digest, encode),
            r,
        ),
        forall|hash: &BmffHash, data: &[u8], digested: Result<Vec<u8>, String>| #[trigger]
            call_ensures(*digest, (hash, data), digested) ==> digested is Ok,
        forall|hash: &BmffHash, value: Result<c2pa_cbor::Value, String>| #[trigger]
            call_ensures(*encode, (hash,), value) ==> value is Ok,
    ensures
        r is Ok,
{
    encoding_succeeds(*encode);
}

proof fn encoding_succeeds<E: Fn(&BmffHash) -> Result<c2pa_cbor::Value, String>>(encode: E)
    requires
        forall|hash: &BmffHash, value: Result<c2pa_cbor::Value, String>| #[trigger]
            call_ensures(encode, (hash,), value) ==> value is Ok,
    ensures
        forall|
            hash: crate::segment_info::BmffHashView,
            complaint: Seq<char>,
            r: Result<c2pa_cbor::Value, Error>,
        | #[trigger] encoding_outcome(hash, complaint, encode, r) ==> r is Ok,
{
}

/// The draft of a hash is encoded from as many zeros as a digest has bytes.
pub proof fn drafted_hash_is_blank<E: Fn(&BmffHash) -> Result<c2pa_cbor::Value, String>>(
    encode: &E,
    r: Result<c2pa_cbor::Value, Error>,
)
    requires
        call_ensures(
            crate::segment_info::build_segment_bmff_hash_placeholder::<E>,
            (encode,),
            r,
        ),
    ensures
        exists|hash: &BmffHash, value: Result<c2pa_cbor::Value, String>| #[trigger]
            call_ensures(*encode, (hash,), value) && hash_with(
                hash@,
                Some(Seq::new(32, |i: int| 0u8)),
            ) && (r is Ok <==> value is Ok) && (r is Ok ==> r->Ok_0 == value->Ok_0),
{
    let blank = crate::segment_info::blank_digest();
    assert(blank =~= Seq::new(32, |i: int| 0u8));
    crate::session_laws::segment_hash_is_with(Some(blank));
    let (hash, value) = choose|hash: &BmffHash, value: Result<c2pa_cbor::Value, String>|
        #[trigger]
        call_ensures(*encode, (hash,), value) && hash@ == crate::segment_info::segment_hash(
            Some(blank),
        ) && match value {
            Err(words) => r is Err,
            Ok(v) => r == Ok::<c2pa_cbor::Value, Error>(v),
        };
}

/// A map is read of the bytes of an event wherever they hold a message with a payload that the host can
/// decode.
pub proof fn decodable_map_is_read<D: Fn(&[u8]) -> Result<SegmentInfoMap, String>>(
    bytes: &[u8],
    decode: D,
    r: Result<SegmentInfoMap, Error>,
)
    requires
        call_ensures(crate::segment_info::parse_segment_info_map::<D>, (bytes, decode), r),
        decoded_sign1(bytes@) is Ok,
        decoded_sign1(bytes@)->Ok_0.payload is Some,
        forall|payload: &[u8], decoded: Result<SegmentInfoMap, String>| #[trigger]
            call_ensures(decode, (payload,), decoded) ==> decoded is Ok,
    ensures
        r is Ok,
{
    assert forall|parsed: Result<ParsedVsi, Error>| #[trigger]
        vsi_outcome(bytes@, decode, parsed) implies parsed is Ok by {}
}

// Media segments of a session.

proof fn drafting_succeeds<
    M: Fn(&SegmentInfoMap) -> Result<Vec<u8>, String>,
    E: Fn(&BmffHash) -> Result<c2pa_cbor::Value, String>,
>(kid: Seq<u8>, plan: MediaPlanView, encode: M, encode_hash: E, size: nat)
    requires
        forall|map: &SegmentInfoMap, bytes: Result<Vec<u8>, String>| #[trigger]
            call_ensures(encode, (map,), bytes) ==> bytes is Ok && bytes->Ok_0@.len() == size,
        forall|hash: &BmffHash, value: Result<c2pa_cbor::Value, String>| #[trigger]
            call_ensures(encode_hash, (hash,), value) ==> value is Ok,
        forall|payload: Seq<u8>|
            payload.len() == size ==> 66 + encoded(
                #[trigger] eddsa_message(
                    Some(("iat"@, plan.iat)),
                    kid,
                    Some(payload),
                    crate::vsi_signing::blank_signature(),
                ),
            ).len() <= u32::MAX,
    ensures
        forall|draft: Result<Vec<u8>, Error>| #[trigger]
            draft_outcome(kid, plan, encode, encode_hash, draft) ==> draft is Ok && exists|
                payload: Seq<u8>,
            |
                payload.len() == size && draft->Ok_0@
                    == crate::verifiable_segment_info::built_emsg_box(
                    crate::vsi_signing::planned_event(
                        plan,
                        #[trigger] crate::vsi_signing::draft_message(kid, plan, payload),
                    ),
                )->Ok_0 && crate::verifiable_segment_info::built_emsg_box(
                    crate::vsi_signing::planned_event(
                        plan,
                        crate::vsi_signing::draft_message(kid, plan, payload),
                    ),
                ) is Ok,
{
    encoding_succeeds(encode_hash);
    assert forall|draft: Result<Vec<u8>, Error>| #[trigger]
        draft_outcome(kid, plan, encode, encode_hash, draft) implies draft is Ok && exists|
            payload: Seq<u8>,
        |
            payload.len() == size && draft->Ok_0@ == crate::verifiable_segment_info::built_emsg_box(
                crate::vsi_signing::planned_event(
                    plan,
                    #[trigger] crate::vsi_signing::draft_message(kid, plan, payload),
                ),
            )->Ok_0 && crate::verifiable_segment_info::built_emsg_box(
                crate::vsi_signing::planned_event(
                    plan,
                    crate::vsi_signing::draft_message(kid, plan, payload),
                ),
            ) is Ok by {
        let hash = choose|hash: Result<c2pa_cbor::Value, Error>| #[trigger]
            crate::segment_info::placeholder_outcome(encode_hash, hash) && match hash {
                Err(e) => draft == Err::<Vec<u8>, Error>(e),
                Ok(value) => exists|payload: Result<Vec<u8>, Error>| #[trigger]
                    payload_outcome(plan, value, encode, payload) && match payload {
                        Err(e) => draft == Err::<Vec<u8>, Error>(e),
                        Ok(bytes) => match crate::verifiable_segment_info::built_emsg_box(
                            crate::vsi_signing::planned_event(
                                plan,
                                crate::vsi_signing::draft_message(kid, plan, bytes@),
                            ),
                        ) {
                            Err(failure) => draft matches Err(e) && e@ == failure,
                            Ok(emsg) => draft matches Ok(v) && v@ == emsg,
                        },
                    },
            };
        let value = hash->Ok_0;
        let payload = choose|payload: Result<Vec<u8>, Error>| #[trigger]
            payload_outcome(plan, value, encode, payload) && match payload {
                Err(e) => draft == Err::<Vec<u8>, Error>(e),
                Ok(bytes) => match crate::verifiable_segment_info::built_emsg_box(
                    crate::vsi_signing::planned_event(
                        plan,
                        crate::vsi_signing::draft_message(kid, plan, bytes@),
                    ),
                ) {
                    Err(failure) => draft matches Err(e) && e@ == failure,
                    Ok(emsg) => draft matches Ok(v) && v@ == emsg,
                },
            };
        let bytes = payload->Ok_0@;
        assert(bytes.len() == size);
        let message = crate::vsi_signing::draft_message(kid, plan, bytes);
        assert(message == eddsa_message(
            Some(("iat"@, plan.iat)),
            kid,
            Some(bytes),
            crate::vsi_signing::blank_signature(),
        ));
        crate::event_laws::event_box_is_written(
            encoded(message),
            plan.timescale,
            plan.event_duration,
            plan.id,
        );
    }
}

proof fn sealing_succeeds<
    M: Fn(&SegmentInfoMap) -> Result<Vec<u8>, String>,
    G: Fn(&BmffHash, &[u8]) -> Result<Vec<u8>, String>,
    E: Fn(&BmffHash) -> Result<c2pa_cbor::Value, String>,
>(plan: MediaPlanView, draft: Seq<u8>, encode: M, digest: G, encode_hash: E, size: nat)
    requires
        forall|map: &SegmentInfoMap, bytes: Result<Vec<u8>, String>| #[trigger]
            call_ensures(encode, (map,), bytes) ==> bytes is Ok && bytes->Ok_0@.len() == size,
        forall|hash: &BmffHash, data: &[u8], digested: Result<Vec<u8>, String>| #[trigger]
            call_ensures(digest, (hash, data), digested) ==> digested is Ok,
        forall|hash: &BmffHash, value: Result<c2pa_cbor::Value, String>| #[trigger]
            call_ensures(encode_hash, (hash,), value) ==> value is Ok,
    ensures
        forall|payload: Result<Vec<u8>, Error>| #[trigger]
            sealed_payload_outcome(plan, draft, encode, digest, encode_hash, payload)
                ==> payload is Ok && payload->Ok_0@.len() == size,
{
    encoding_succeeds(encode_hash);
    assert forall|hash: Result<c2pa_cbor::Value, Error>| #[trigger]
        hashing_outcome(draft, digest, encode_hash, hash) implies hash is Ok by {}
}

/// The next media segment of a session is signed at a time at which the key is valid, where the host
/// digests, encodes every map in the same number of bytes, and the event message fits its box.
pub proof fn next_segment_is_signed_for_the_session<
    M: Fn(&SegmentInfoMap) -> Result<Vec<u8>, String>,
    G: Fn(&BmffHash, &[u8]) -> Result<Vec<u8>, String>,
    E: Fn(&BmffHash) -> Result<c2pa_cbor::Value, String>,
>(
    signer: &mut LiveVideoVsiSigner,
    segment: &[u8],
    iat: i64,
    encode: &M,
    digest: &G,
    encode_hash: &E,
    r: Result<Vec<u8>, Error>,
    size: nat,
)
    requires
        call_ensures(
            LiveVideoVsiSigner::sign_media_segment_at::<M, G, E>,
            (signer, segment, iat, encode, digest, encode_hash),
            r,
        ),
        vsi_candidates(segment@).len() == 0,
        old(signer)@.active_manifest_id is Some,
        old(signer)@.active_manifest_id->Some_0.len() > 9,
        old(signer)@.active_manifest_id->Some_0.take(9) == "urn:c2pa:"@,
        old(signer)@.track_timescale is Some,
        media_info(segment@, old(signer)@.default_sample_duration) is Ok,
        media_info(segment@, old(signer)@.default_sample_duration)->Ok_0.sequence_number
            == old(signer)@.next_sequence_number,
        old(signer)@.track_id == Some(
            media_info(segment@, old(signer)@.default_sample_duration)->Ok_0.track_id,
        ),
        old(signer)@.next_event_id < u32::MAX,
        within_validity(old(signer)@.created_at, old(signer)@.validity_period, iat),
        forall|map: &SegmentInfoMap, bytes: Result<Vec<u8>, String>| #[trigger]
            call_ensures(*encode, (map,), bytes) ==> bytes is Ok && bytes->Ok_0@.len() == size,
        forall|hash: &BmffHash, data: &[u8], digested: Result<Vec<u8>, String>| #[trigger]
            call_ensures(*digest, (hash, data), digested) ==> digested is Ok,
        forall|hash: &BmffHash, value: Result<c2pa_cbor::Value, String>| #[trigger]
            call_ensures(*encode_hash, (hash,), value) ==> value is Ok,
        forall|payload: Seq<u8>|
            payload.len() == size ==> 66 + encoded(
                #[trigger] eddsa_message(
                    Some(("iat"@, iat)),
                    old(signer)@.kid,
                    Some(payload),
                    crate::vsi_signing::blank_signature(),
                ),
            ).len() <= u32::MAX,
        forall|input: Seq<u8>| #[trigger]
            ed25519_signature(old(signer)@.seed, input).len() == 64,
    ensures
        r is Ok,
{
    let session = old(signer)@;
    crate::validation_laws::identifier_shape(session.active_manifest_id->Some_0);
    assert(planned(session, segment@, iat) is Ok);
    let plan = planned(session, segment@, iat)->Ok_0;
    assert(plan.iat == iat);
    drafting_succeeds(session.kid, plan, *encode, *encode_hash, size);
    assert forall|draft: Result<Vec<u8>, Error>, payload: Result<Vec<u8>, Error>|
        #[trigger] draft_outcome(session.kid, plan, *encode, *encode_hash, draft)
            && #[trigger] sealed_payload_outcome(
            plan,
            draft->Ok_0@ + segment@,
            *encode,
            *digest,
            *encode_hash,
            payload,
        ) implies draft is Ok && payload is Ok && crate::vsi_signing::signed_segment(
        session,
        plan,
        draft->Ok_0@.len(),
        payload->Ok_0@,
        segment@,
    ) is Ok by {
        let first = choose|first: Seq<u8>|
            first.len() == size && draft->Ok_0@ == crate::verifiable_segment_info::built_emsg_box(
                crate::vsi_signing::planned_event(
                    plan,
                    #[trigger] crate::vsi_signing::draft_message(session.kid, plan, first),
                ),
            )->Ok_0 && crate::verifiable_segment_info::built_emsg_box(
                crate::vsi_signing::planned_event(
                    plan,
                    crate::vsi_signing::draft_message(session.kid, plan, first),
                ),
            ) is Ok;
        sealing_succeeds(plan, draft->Ok_0@ + segment@, *encode, *digest, *encode_hash, size);
        crate::vsi_laws::draft_has_the_final_size(
            session,
            plan,
            first,
            payload->Ok_0@,
            segment@,
        );
    }
    let draft = choose|draft: Result<Vec<u8>, Error>| #[trigger]
        draft_outcome(session.kid, plan, *encode, *encode_hash, draft) && match draft {
            Err(e) => r == Err::<Vec<u8>, Error>(e),
            Ok(emsg) => exists|payload: Result<Vec<u8>, Error>| #[trigger]
                sealed_payload_outcome(
                    plan,
                    emsg@ + segment@,
                    *encode,
                    *digest,
                    *encode_hash,
                    payload,
                ) && match payload {
                    Err(e) => r == Err::<Vec<u8>, Error>(e),
                    Ok(bytes) => match crate::vsi_signing::signed_segment(
                        session,
                        plan,
                        emsg@.len(),
                        bytes@,
                        segment@,
                    ) {
                        Err(failure) => r matches Err(e) && e@ == failure,
                        Ok(signed) => r matches Ok(v) && v@ == signed,
                    },
                },
        };
    assert(draft is Ok);
}

} // verus!
