//! What the messages, the bindings, the logs and the small parts of the library give back of what is
//! handed to them.

use vstd::prelude::*;

use crate::cbor::{cbor_bytes, cbor_encoding};
use crate::cose::{
    decoded_sign1, eddsa_header, eddsa_message, encoded, signature_input, LabelView, Sign1,
    SigningAlg,
};
use crate::ed25519::{
    ed25519_check, ed25519_signature, neutral_point, Ed25519SessionKey, SIGNATURE_LENGTH,
};
use crate::error::{Error, Failure};
use crate::segment_info::{BmffHash, ParsedVsi, SegmentInfoMap};
use crate::session_keys::SessionKey;
use crate::session_laws::{
    accepted_comparison_matches, claims_time, hash_matches, hash_with, hashed_as, within_validity,
};
use crate::status_tracker::{item_views, ErrorBehavior, LogItem, StatusTracker};
use crate::validation_laws::{newly_logged, only_added};

verus! {

// Messages.

/// What is read of the bytes of an event is the message in them, with the map that the host decoded
/// from the payload of that message; it is read exactly if the message can be read, its payload is
/// embedded, and the host can decode it.
pub proof fn parsed_message_is_the_one_in_the_bytes<
    D: Fn(&[u8]) -> Result<SegmentInfoMap, String>,
>(bytes: &[u8], decode: &D, r: Result<ParsedVsi, Error>)
    requires
        call_ensures(crate::segment_info::parse_vsi::<D>, (bytes, decode), r),
    ensures
        r is Ok ==> {
            let message = decoded_sign1(bytes@)->Ok_0;
            &&& decoded_sign1(bytes@) is Ok
            &&& r->Ok_0.sign1@ == message
            &&& message.payload is Some
            &&& exists|payload: &[u8]| #[trigger]
                call_ensures(
                    *decode,
                    (payload,),
                    Ok::<SegmentInfoMap, String>(r->Ok_0.segment_info_map),
                ) && message.payload == Some(payload@)
        },
        r is Err ==> decoded_sign1(bytes@) is Err || decoded_sign1(bytes@)->Ok_0.payload is None
            || exists|payload: &[u8], words: String| #[trigger]
            call_ensures(*decode, (payload,), Err::<SegmentInfoMap, String>(words))
                && decoded_sign1(bytes@)->Ok_0.payload == Some(payload@),
{
    if decoded_sign1(bytes@) is Ok && decoded_sign1(bytes@)->Ok_0.payload is Some {
        let message = decoded_sign1(bytes@)->Ok_0;
        let (payload, decoded) = choose|payload: &[u8], decoded: Result<SegmentInfoMap, String>|
            #[trigger]
            call_ensures(*decode, (payload,), decoded) && message.payload == Some(payload@)
                && match decoded {
                Err(words) => r matches Err(e) && e@ == Failure::BadParam(
                    "invalid SegmentInfoMap CBOR: "@ + words@,
                ),
                Ok(info) => r matches Ok(p) && p.segment_info_map == info && p.sign1@ == message,
            };
        match decoded {
            Ok(info) => {
                assert(decoded == Ok::<SegmentInfoMap, String>(info));
            },
            Err(words) => {
                assert(decoded == Err::<SegmentInfoMap, String>(words));
            },
        }
    }
}

/// The map that is read of the bytes of an event is the one that the host decoded from the payload of
/// the message in them.
pub proof fn parsed_map_is_the_one_in_the_bytes<D: Fn(&[u8]) -> Result<SegmentInfoMap, String>>(
    bytes: &[u8],
    decode: D,
    r: Result<SegmentInfoMap, Error>,
)
    requires
        call_ensures(crate::segment_info::parse_segment_info_map::<D>, (bytes, decode), r),
        r is Ok,
    ensures
        decoded_sign1(bytes@) is Ok,
        exists|payload: &[u8]| #[trigger]
            call_ensures(decode, (payload,), Ok::<SegmentInfoMap, String>(r->Ok_0))
                && decoded_sign1(bytes@)->Ok_0.payload == Some(payload@),
{
    let parsed = choose|parsed: Result<ParsedVsi, Error>| #[trigger]
        crate::segment_info::vsi_outcome(bytes@, decode, parsed) && parsed is Ok && r->Ok_0
            == parsed->Ok_0.segment_info_map;
    let message = decoded_sign1(bytes@)->Ok_0;
    let (payload, decoded) = choose|payload: &[u8], decoded: Result<SegmentInfoMap, String>|
        #[trigger]
        call_ensures(decode, (payload,), decoded) && message.payload == Some(payload@)
            && decoded is Ok && decoded->Ok_0 == parsed->Ok_0.segment_info_map;
    assert(decoded == Ok::<SegmentInfoMap, String>(r->Ok_0));
}

/// A message that was built for a segment is read back with its key identifier, its payload, its time
/// of signing and its signature, which the key made over header and payload.
pub proof fn built_message_is_read_back<D: Fn(&[u8]) -> Result<SegmentInfoMap, String>>(
    payload: &[u8],
    key: &Ed25519SessionKey,
    kid: &[u8],
    iat: i64,
    built: Result<Vec<u8>, Error>,
    bytes: &[u8],
    decode: &D,
    r: Result<ParsedVsi, Error>,
)
    requires
        call_ensures(
            crate::vsi_signing::build_vsi_cose_sign1,
            (payload, key, kid, iat),
            built,
        ),
        built is Ok ==> bytes@ == built->Ok_0@,
        call_ensures(crate::segment_info::parse_vsi::<D>, (bytes, decode), r),
    ensures
        built is Ok,
        r is Ok ==> {
            let message = r->Ok_0.sign1@;
            &&& message.key_id == kid@
            &&& message.payload == Some(payload@)
            &&& message.alg == Some(LabelView::Int(-8i64))
            &&& !message.unprotected_alg
            &&& claims_time(message.entries, iat)
            &&& message.signature == ed25519_signature(
                key.seed@,
                signature_input(message.protected, Seq::empty(), payload@),
            )
            &&& message.signature.len() == 64
        },
{
    let entry = Some(("iat"@, iat));
    let signature = crate::vsi_signing::vsi_signature(key.seed@, iat, payload@);
    let message = eddsa_message(entry, kid@, Some(payload@), signature);
    assert(bytes@ == encoded(message));
    assert(message.entries[0] == (LabelView::Text("iat"@), Some(iat as i128)));
    assert(message.protected == crate::vsi_signing::vsi_header(iat));
}

/// The message that stands in for a signed one while the segment is hashed has the same size, and the
/// same header, key identifier and payload.
pub proof fn draft_message_has_the_size_of_the_signed_one(
    payload: &[u8],
    key: &Ed25519SessionKey,
    kid: &[u8],
    iat: i64,
    signed: Result<Vec<u8>, Error>,
    draft: Result<Vec<u8>, Error>,
)
    requires
        call_ensures(
            crate::vsi_signing::build_vsi_cose_sign1,
            (payload, key, kid, iat),
            signed,
        ),
        call_ensures(
            crate::vsi_signing::build_vsi_cose_sign1_dummy,
            (payload, kid, iat),
            draft,
        ),
    ensures
        signed is Ok,
        draft is Ok,
        signed->Ok_0@.len() == draft->Ok_0@.len(),
        signed->Ok_0@.take(signed->Ok_0@.len() - 64) == draft->Ok_0@.take(
            draft->Ok_0@.len() - 64,
        ),
{
    let front = crate::cbor::cbor_head(6, 18) + crate::cbor::cbor_head(4, 4) + cbor_bytes(
        crate::vsi_signing::vsi_header(iat),
    ) + crate::cose::key_id_map(kid@) + cbor_bytes(payload@) + crate::cbor::cbor_head(2, 64);
    let a = crate::vsi_signing::vsi_signature(key.seed@, iat, payload@);
    let b = crate::vsi_signing::blank_signature();
    assert(signed->Ok_0@ =~= front + a);
    assert(draft->Ok_0@ =~= front + b);
    assert((front + a).take(front.len() as int) =~= front);
    assert((front + b).take(front.len() as int) =~= front);
}

/// The signature algorithm of a message is the one whose number its protected header gives, and none
/// for a number that is not known or a text.
pub proof fn algorithm_is_the_registered_one(message: &Sign1, r: Option<SigningAlg>)
    requires
        call_ensures(crate::cose::signing_alg_from_sign1, (message,), r),
    ensures
        r == Some(SigningAlg::Ed25519) <==> message@.alg == Some(LabelView::Int(-8i64)),
        r == Some(SigningAlg::Es256) <==> message@.alg == Some(LabelView::Int(-7i64)),
        r == Some(SigningAlg::Es384) <==> message@.alg == Some(LabelView::Int(-35i64)),
        r == Some(SigningAlg::Es512) <==> message@.alg == Some(LabelView::Int(-36i64)),
        r == Some(SigningAlg::Ps256) <==> message@.alg == Some(LabelView::Int(-37i64)),
        r == Some(SigningAlg::Ps384) <==> message@.alg == Some(LabelView::Int(-38i64)),
        r == Some(SigningAlg::Ps512) <==> message@.alg == Some(LabelView::Int(-39i64)),
{
}

// Bindings.

/// Whether a message binds a key to a certificate: it is detached, names EdDSA in its protected header
/// alone, and its signature over the certificate passes the strict check with the key.
pub open spec fn binds_key(
    message: crate::cose::Sign1View,
    seed: Seq<u8>,
    cert: Seq<u8>,
) -> bool {
    &&& message.payload is None
    &&& message.alg == Some(LabelView::Int(-8i64))
    &&& !message.unprotected_alg
    &&& message.signature.len() == 64
    &&& ed25519_check(
        seed,
        signature_input(message.protected, Seq::empty(), cbor_bytes(cert)),
        message.signature,
    ) is Ok
}

/// A message is accepted as a binding exactly if it binds the key to the certificate.
pub proof fn binding_is_accepted_exactly_if_it_binds(
    message: &Sign1,
    key: &Ed25519SessionKey,
    cert: &[u8],
    r: Result<(), Error>,
)
    requires
        call_ensures(crate::session_keys::check_signer_binding, (message, key, cert), r),
    ensures
        r is Ok <==> binds_key(message@, key.seed@, cert@),
{
}

/// A published value is accepted as a binding exactly if it is a message that binds the key to the
/// certificate.
pub proof fn published_binding_is_accepted_exactly_if_it_binds(
    binding: &c2pa_cbor::Value,
    key: &Ed25519SessionKey,
    cert: &[u8],
    r: Result<(), Error>,
)
    requires
        call_ensures(
            crate::session_keys::verify_restored_signer_binding,
            (binding, key, cert),
            r,
        ),
    ensures
        r is Ok <==> decoded_sign1(cbor_encoding(*binding)) is Ok && binds_key(
            decoded_sign1(cbor_encoding(*binding))->Ok_0,
            key.seed@,
            cert@,
        ),
{
}

/// The binding that is built for a key and a certificate is accepted for them, unless the first half of
/// its signature is the encoding of the neutral point.
pub proof fn built_binding_is_accepted(
    cert: &[u8],
    key: &Ed25519SessionKey,
    built: Result<c2pa_cbor::Value, Error>,
    binding: &c2pa_cbor::Value,
    r: Result<(), Error>,
    signature: Seq<u8>,
)
    requires
        call_ensures(crate::session_keys::build_signer_binding, (cert, key), built),
        built is Ok ==> *binding == built->Ok_0,
        call_ensures(
            crate::session_keys::verify_restored_signer_binding,
            (binding, key, cert),
            r,
        ),
        signature == ed25519_signature(
            key.seed@,
            signature_input(eddsa_header(None), Seq::empty(), cbor_bytes(cert@)),
        ),
        signature.len() == SIGNATURE_LENGTH,
        signature.take(32) != neutral_point(),
    ensures
        built is Ok,
        r is Ok,
{
    let message = crate::session_keys::binding_message(key.seed@, cert@);
    assert(message.signature == signature);
}

/// What a key publishes of its validity is accepted exactly if the period is not zero, the first number
/// fits a movie fragment header, and there is a time at which the key is valid.
pub proof fn key_metadata_is_accepted_exactly_if_sound(key: &SessionKey, r: Result<(), Error>)
    requires
        call_ensures(crate::session_keys::validate_session_key_metadata, (key,), r),
    ensures
        r is Ok <==> key.validity_period > 0 && key.min_sequence_number <= u32::MAX && exists|
            time: i64,
        | #[trigger] within_validity(key.created_at.0@, key.validity_period, time),
{
    if r is Ok {
        let created = crate::clock::utc_seconds(key.created_at.0@)->Some_0;
        assert(within_validity(key.created_at.0@, key.validity_period, created));
    }
}

// Hashes.

/// The hash that is made for a segment leaves the event message out and holds the digest.
pub proof fn new_hash_holds_the_digest(digest: Option<Vec<u8>>, r: BmffHash)
    requires
        call_ensures(crate::segment_info::new_vsi_bmff_hash, (digest,), r),
    ensures
        hash_with(
            r@,
            match digest {
                Some(bytes) => Some(bytes@),
                None => None,
            },
        ),
{
    let held = match digest {
        Some(bytes) => Some(bytes@),
        None => None,
    };
    crate::session_laws::segment_hash_is_with(held);
}

/// The hash of a segment is encoded from the digest that the host computed over the whole segment.
pub proof fn encoded_hash_is_that_of_the_segment<
    G: Fn(&BmffHash, &[u8]) -> Result<Vec<u8>, String>,
    E: Fn(&BmffHash) -> Result<c2pa_cbor::Value, String>,
>(segment: &[u8], digest: &G, encode: &E, r: Result<c2pa_cbor::Value, Error>)
    requires
        call_ensures(
            crate::segment_info::build_segment_bmff_hash::<G, E>,
            (segment, digest, encode),
            r,
        ),
        r is Ok,
    ensures
        hashed_as(segment@, *digest, *encode, r->Ok_0),
{
    crate::session_laws::hashing_is_hashed(segment@, *digest, *encode, r);
}

/// A hash is accepted for a segment only where the host decoded one that covers the segment, and found
/// that it matches.
pub proof fn accepted_hash_matches<
    H: Fn(&c2pa_cbor::Value) -> Result<BmffHash, String>,
    V: Fn(&[u8], &c2pa_cbor::Value, u64) -> Result<(), String>,
>(segment: &[u8], value: &c2pa_cbor::Value, decode: H, verify: V, r: Result<(), Error>)
    requires
        call_ensures(
            crate::segment_info::verify_segment_bmff_hash::<H, V>,
            (segment, value, decode, verify),
            r,
        ),
        r is Ok,
    ensures
        hash_matches(segment@, *value, decode, verify),
{
    accepted_comparison_matches(segment@, *value, decode, verify, r);
}

// Logs.

/// A log that lets a validation go on gets every failure, in order, and the validation succeeds; one
/// that ends it gets the first alone, and the validation fails with its code. Without failures nothing
/// is logged and the validation succeeds.
pub proof fn failures_are_recorded(
    tracker: &mut StatusTracker,
    failures: &Vec<LogItem>,
    r: Result<(), Error>,
)
    requires
        call_ensures(StatusTracker::record, (tracker, failures), r),
    ensures
        only_added(old(tracker)@, final(tracker)@),
        old(tracker)@.behavior == ErrorBehavior::ContinueWhenPossible || failures@.len() == 0
            ==> r is Ok && newly_logged(old(tracker)@, final(tracker)@) == item_views(failures@),
        old(tracker)@.behavior == ErrorBehavior::StopOnFirstError && failures@.len() > 0 ==> r is Err
            && r->Err_0@ == Failure::BadParam(failures@[0].code@) && newly_logged(
            old(tracker)@,
            final(tracker)@,
        ) == seq![failures@[0]@],
{
    let before = old(tracker)@.failures;
    let after = final(tracker)@.failures;
    let all = item_views(failures@);
    assert(all.len() == failures@.len());
    assert(after.take(before.len() as int) =~= before);
    if failures@.len() > 0 {
        assert(all[0] == failures@[0]@);
    }
    if old(tracker)@.behavior == ErrorBehavior::StopOnFirstError && failures@.len() > 0 {
        assert(after.skip(before.len() as int) =~= seq![failures@[0]@]);
    } else {
        assert(after.skip(before.len() as int) =~= all);
    }
}

// Numbers in words.

/// The number that a decimal digit stands for.
pub open spec fn digit_value(c: char) -> int {
    c as int - '0' as int
}

/// The number that decimal digits stand for.
pub open spec fn value_of(digits: Seq<char>) -> int
    decreases digits.len(),
{
    if digits.len() == 0 {
        0
    } else {
        10 * value_of(digits.drop_last()) + digit_value(digits.last())
    }
}

proof fn digit_has_its_value(d: nat)
    requires
        d < 10,
    ensures
        crate::text::digit(d).len() == 1,
        digit_value(crate::text::digit(d)[0]) == d,
{
    reveal_strlit("0");
    reveal_strlit("1");
    reveal_strlit("2");
    reveal_strlit("3");
    reveal_strlit("4");
    reveal_strlit("5");
    reveal_strlit("6");
    reveal_strlit("7");
    reveal_strlit("8");
    reveal_strlit("9");
}

/// The decimal digits of a number stand for it.
pub proof fn digits_have_their_value(n: nat)
    ensures
        value_of(crate::text::decimal(n)) == n,
        crate::text::decimal(n).len() > 0,
        n > 0 ==> crate::text::decimal(n)[0] != '0',
    decreases n,
{
    reveal_with_fuel(value_of, 2);
    if n < 10 {
        digit_has_its_value(n);
        let text = crate::text::decimal(n);
        assert(text.drop_last() =~= Seq::<char>::empty());
    } else {
        digits_have_their_value(n / 10);
        digit_has_its_value(n % 10);
        let text = crate::text::decimal(n);
        let front = crate::text::decimal(n / 10);
        assert(text.drop_last() =~= front);
        assert(text.last() == crate::text::digit(n % 10)[0]);
        assert(text[0] == front[0]);
    }
}

/// A number is written as the decimal digits that stand for it, without leading zeros.
pub proof fn written_number_has_its_value(n: u64, r: String)
    requires
        call_ensures(crate::text::decimal_text, (n,), r),
    ensures
        value_of(r@) == n,
        r@.len() > 0,
        n > 0 ==> r@[0] != '0',
{
    digits_have_their_value(n as nat);
}

// The C interface.

/// A callback is asked for the purpose and the number of what is to be signed, with its exact bytes;
/// what it wrote, as far as it says, is the signature, unless it reports an error or more than it has
/// room for.
pub proof fn callback_signs_what_is_asked<
    F: Fn(crate::c_api::C2paLiveVideoVsiSigningPurpose, u64, &[u8]) -> (
        isize,
        [u8; crate::c_api::CALLBACK_CAPACITY],
    ),
>(
    purpose: crate::c_api::VsiSigningPurpose,
    tbs: &[u8],
    callback: F,
    r: Result<Vec<u8>, Error>,
)
    requires
        call_ensures(crate::c_api::sign_with_callback::<F>, (purpose, tbs, callback), r),
    ensures
        exists|
            asked: crate::c_api::C2paLiveVideoVsiSigningPurpose,
            number: u64,
            data: &[u8],
            output: (isize, [u8; crate::c_api::CALLBACK_CAPACITY]),
        | #[trigger]
            call_ensures(callback, (asked, number, data), output) && data@ == tbs@ && match purpose {
                crate::c_api::VsiSigningPurpose::SignerBinding => asked
                    is SignerBinding && number == u64::MAX,
                crate::c_api::VsiSigningPurpose::Vsi { sequence_number } => asked is Vsi && number
                    == sequence_number,
            } && (r is Ok <==> 0 <= output.0 <= output.1@.len()) && (r is Ok ==> r->Ok_0@
                == output.1@.take(output.0 as int)),
{
    let arguments = crate::c_api::callback_arguments(purpose);
    let (data, output) = choose|
        data: &[u8],
        output: (isize, [u8; crate::c_api::CALLBACK_CAPACITY]),
    | #[trigger]
        call_ensures(callback, (arguments.0, arguments.1, data), output) && data@ == tbs@
            && match crate::c_api::callback_signature(output.0, output.1@) {
            Err(failure) => r matches Err(e) && e@ == failure,
            Ok(signature) => r matches Ok(v) && v@ == signature,
        };
}

/// A seed is taken from exactly its 32 bytes.
pub proof fn seed_is_its_bytes(bytes: &[u8], r: Result<[u8; 32], Error>)
    requires
        call_ensures(crate::c_api::seed_from_slice, (bytes,), r),
    ensures
        r is Ok <==> bytes@.len() == 32,
        r is Ok ==> r->Ok_0@ == bytes@,
{
}

/// Callbacks sign with Ed25519 and ES256, and with nothing else.
pub proof fn callbacks_sign_with_two_algorithms(algorithm: SigningAlg, r: Result<(), Error>)
    requires
        call_ensures(crate::c_api::check_callback_algorithm, (algorithm,), r),
    ensures
        r is Ok <==> algorithm == SigningAlg::Ed25519 || algorithm == SigningAlg::Es256,
{
}

/// The number that is probed is the one that is read of the segment.
pub proof fn probed_number_is_the_one_that_is_read(
    segment: &[u8],
    read: Option<u32>,
    r: Result<u32, Error>,
)
    requires
        call_ensures(crate::bmff::moof_sequence_number, (segment,), read),
        call_ensures(crate::c_api::probe_moof_sequence_number, (segment,), r),
    ensures
        r is Ok <==> read is Some,
        r is Ok ==> read == Some(r->Ok_0),
{
}

// The reserved interface.

/// This build claims no capability of prehashed trusted signing.
pub proof fn no_capability_is_claimed(
    current: crate::trusted_vsi::TrustedVsiCapabilities,
    split: bool,
    expert: bool,
    composed: bool,
    recovery: bool,
    context: bool,
    exhaustion: bool,
    bits: u64,
)
    requires
        call_ensures(crate::trusted_vsi::TrustedVsiPrehashedSession::capabilities, (), current),
        call_ensures(
            crate::trusted_vsi::TrustedVsiCapabilities::supports_split_init_uuid,
            (current,),
            split,
        ),
        call_ensures(
            crate::trusted_vsi::TrustedVsiCapabilities::supports_expert_emsg_sig_structure,
            (current,),
            expert,
        ),
        call_ensures(
            crate::trusted_vsi::TrustedVsiCapabilities::supports_signer_composed_emsg,
            (current,),
            composed,
        ),
        call_ensures(
            crate::trusted_vsi::TrustedVsiCapabilities::supports_recovery,
            (current,),
            recovery,
        ),
        call_ensures(
            crate::trusted_vsi::TrustedVsiCapabilities::supports_signing_context_v1,
            (current,),
            context,
        ),
        call_ensures(
            crate::trusted_vsi::TrustedVsiCapabilities::supports_full_uint32_exhaustion,
            (current,),
            exhaustion,
        ),
        call_ensures(crate::trusted_vsi::TrustedVsiCapabilities::bits, (current,), bits),
    ensures
        !split && !expert && !composed && !recovery && !context && !exhaustion,
        bits == 0,
{
    assert(0u64 & 1u64 == 0 && 0u64 & 2u64 == 0 && 0u64 & 4u64 == 0 && 0u64 & 8u64 == 0 && 0u64
        & 16u64 == 0 && 0u64 & 32u64 == 0) by (bit_vector);
}

} // verus!
