//! What the single steps of validating and signing decide, and what they keep.

use vstd::prelude::*;
use vstd::std_specs::iter::IteratorSpec;

use crate::bmff::{init_info, media_info, InitSegmentInfo};
use crate::bmff_faults::BoxKind;
use crate::bmff_laws::first_box_is_read;
use crate::bmff_writing::{holds_run, is_run, run_bytes, WrittenBox};
use crate::certificates::byte_views;
use crate::cose::{claimed_time, Sign1, SigningAlg};
use crate::definition_laws::sound_report;
use crate::dynamic_assertion::PartialClaim;
use crate::error::{Error, Failure};
use crate::event_laws::event_payload;
use crate::filter_laws::nothing_is_picked;
use crate::manifest_report::{disqualifies, status_views, ManifestReport, ReportedStatus};
use crate::segment_info::ParsedVsi;
use crate::session_keys::{key_views, SessionKey, SessionKeys};
use crate::session_laws::{
    belongs_to, claimed_time_is_the_only_claim, claims_time, publishes_the_session_key, signed_by,
    taken_up_from, within_validity,
};
use crate::signing::{LiveSignerState, LiveVideoSigner};
use crate::status_tracker::{ErrorBehavior, ItemView, StatusTracker};
use crate::text::has_text_prefix;
use crate::trusted_vsi::TrustedVsiPrehashedSession;
use crate::validation_laws::{newly_logged, only_added, reported};
use crate::validator::LiveVideoValidator;
use crate::verifiable_segment_info::{EmsgEvent, VsiEmsg};
use crate::vsi_signing::{InitManifestReport, LiveVideoVsiSigner, MediaPlan, Session};

verus! {

// Status codes.

/// Whether a code is a name followed by anything.
pub open spec fn begins(code: Seq<char>, name: Seq<char>, rest: Seq<char>) -> bool {
    code == name + rest
}

/// Whether a code belongs to a family: it is the name of the family followed by anything.
pub open spec fn in_family(code: Seq<char>, name: Seq<char>) -> bool {
    exists|rest: Seq<char>| #[trigger] begins(code, name, rest)
}

proof fn prefix_makes_the_family(code: Seq<char>, name: Seq<char>)
    ensures
        has_text_prefix(code, name) <==> in_family(code, name),
{
    if has_text_prefix(code, name) {
        let rest = code.skip(name.len() as int);
        assert(code =~= name + rest);
        assert(begins(code, name, rest));
    }
    if in_family(code, name) {
        let rest = choose|rest: Seq<char>| #[trigger] begins(code, name, rest);
        assert(code.take(name.len() as int) =~= name);
    }
}

/// A failure disqualifies a manifest exactly if it speaks of more than one hard binding, or belongs to
/// the families of the signing credential, the claim signature, the time stamp, the hard bindings and
/// the four kinds of hashes.
pub proof fn disqualifying_codes_are_those_of_integrity(code: &str, r: bool)
    requires
        call_ensures(crate::manifest_report::is_manifest_integrity_failure, (code,), r),
    ensures
        r <==> {
            ||| code@ == "assertion.multipleHardBindings"@
            ||| in_family(code@, "signingCredential."@)
            ||| in_family(code@, "claimSignature."@)
            ||| in_family(code@, "timeStamp."@)
            ||| in_family(code@, "claim.hardBindings."@)
            ||| in_family(code@, "assertion.hashedURI."@)
            ||| in_family(code@, "assertion.dataHash."@)
            ||| in_family(code@, "assertion.bmffHash."@)
            ||| in_family(code@, "assertion.boxesHash."@)
        },
{
    prefix_makes_the_family(code@, "signingCredential."@);
    prefix_makes_the_family(code@, "claimSignature."@);
    prefix_makes_the_family(code@, "timeStamp."@);
    prefix_makes_the_family(code@, "claim.hardBindings."@);
    prefix_makes_the_family(code@, "assertion.hashedURI."@);
    prefix_makes_the_family(code@, "assertion.dataHash."@);
    prefix_makes_the_family(code@, "assertion.bmffHash."@);
    prefix_makes_the_family(code@, "assertion.boxesHash."@);
}

/// Whether a status disqualifies a manifest: it did not pass, and its code is one of those that do.
pub open spec fn status_disqualifies(status: ReportedStatus) -> bool {
    !status.passed && crate::manifest_report::is_integrity_code(status.code@)
}

/// The first status that is picked is the first that disqualifies.
pub proof fn first_picked_is_the_first(views: Seq<(Seq<char>, bool)>)
    requires
        views.filter(disqualifies()).len() > 0,
    ensures
        exists|k: int|
            0 <= k < views.len() && disqualifies()(#[trigger] views[k]) && views[k]
                == views.filter(disqualifies())[0] && forall|j: int|
                0 <= j < k ==> !disqualifies()(#[trigger] views[j]),
    decreases views.len(),
{
    reveal(Seq::filter);
    let test = disqualifies();
    let front = views.drop_last();
    if front.filter(test).len() > 0 {
        first_picked_is_the_first(front);
        let k = choose|k: int|
            0 <= k < front.len() && test(#[trigger] front[k]) && front[k] == front.filter(test)[0]
                && forall|j: int| 0 <= j < k ==> !test(#[trigger] front[j]);
        assert(views[k] == front[k]);
        assert forall|j: int| 0 <= j < k implies !test(#[trigger] views[j]) by {
            assert(!test(front[j]));
        }
        assert(views.filter(test)[0] == front.filter(test)[0]);
    } else {
        nothing_is_picked(front, test);
        let k = views.len() - 1;
        assert(test(views[k]));
        assert forall|j: int| 0 <= j < k implies !test(#[trigger] views[j]) by {
            assert(!test(front[j]));
        }
        assert(views.filter(test) =~= seq![views[k]]);
    }
}

/// The failure that disqualifies a manifest is the first of those that do, and there is none where
/// none does.
pub proof fn first_disqualifying_status_is_found<'a>(
    statuses: &'a Vec<ReportedStatus>,
    r: Option<&'a String>,
)
    requires
        call_ensures(crate::manifest_report::find_integrity_failure, (statuses,), r),
    ensures
        r is None ==> forall|j: int|
            0 <= j < statuses@.len() ==> !status_disqualifies(#[trigger] statuses@[j]),
        r is Some ==> exists|k: int|
            0 <= k < statuses@.len() && status_disqualifies(#[trigger] statuses@[k])
                && r->Some_0@ == statuses@[k].code@ && forall|j: int|
                0 <= j < k ==> !status_disqualifies(#[trigger] statuses@[j]),
{
    let views = status_views(statuses@);
    let test = disqualifies();
    if r is Some {
        first_picked_is_the_first(views);
        let k = choose|k: int|
            0 <= k < views.len() && test(#[trigger] views[k]) && views[k] == views.filter(test)[0]
                && forall|j: int| 0 <= j < k ==> !test(#[trigger] views[j]);
        assert(status_disqualifies(statuses@[k]));
        assert forall|j: int| 0 <= j < k implies !status_disqualifies(#[trigger] statuses@[j]) by {
            assert(!test(views[j]));
        }
    } else {
        nothing_is_picked(views, test);
        assert forall|j: int| 0 <= j < statuses@.len() implies !status_disqualifies(
            #[trigger] statuses@[j],
        ) by {
            assert(!test(views[j]));
        }
    }
}

// Boxes of a segment.

proof fn held_box_shifts(front: Seq<u8>, data: Seq<u8>, pos: int, kind: BoxKind)
    requires
        0 <= pos,
        (front + data).len() <= usize::MAX,
    ensures
        crate::validator::holds_box_from(front + data, front.len() + pos, kind)
            == crate::validator::holds_box_from(data, pos, kind),
    decreases data.len() - pos,
{
    if pos < data.len() {
        crate::emsg_laws::box_extent_shift(front, data, pos);
        match crate::bmff::box_extent(data, pos) {
            Err(_) => {},
            Ok((_, end)) => {
                assert((front + data).subrange(front.len() + pos + 4, front.len() + pos + 8)
                    =~= data.subrange(pos + 4, pos + 8));
                held_box_shifts(front, data, end, kind);
            },
        }
    }
}

/// A box in front is what is looked for, or what stands behind it decides.
proof fn first_box_or_the_others(b: WrittenBox, behind: Seq<u8>, kind: BoxKind)
    requires
        b.fits(),
        (b.bytes() + behind).len() <= usize::MAX,
        b.form is ToEnd ==> behind.len() == 0,
    ensures
        crate::validator::holds_box_from(b.bytes() + behind, 0, kind) <==> b.code == kind.code()
            || crate::validator::holds_box_from(behind, 0, kind),
{
    first_box_is_read(b, behind);
    held_box_shifts(b.bytes(), behind, 0, kind);
}

/// The boxes behind the first are a run too.
proof fn others_are_a_run(boxes: Seq<WrittenBox>)
    requires
        is_run(boxes),
        boxes.len() > 0,
    ensures
        is_run(boxes.skip(1)),
        boxes[0].form is ToEnd ==> boxes.len() == 1,
        run_bytes(boxes) == boxes[0].bytes() + run_bytes(boxes.skip(1)),
{
    let others = boxes.skip(1);
    assert forall|i: int| 0 <= i < others.len() implies (#[trigger] others[i]).fits() by {
        assert(boxes[i + 1].fits());
    }
    assert forall|i: int| 0 <= i < others.len() - 1 implies (#[trigger] others[i]).form !is ToEnd by {
        assert(boxes[i + 1].form !is ToEnd);
    }
}

proof fn box_of_a_run_is_held(boxes: Seq<WrittenBox>, rest: Seq<u8>, kind: BoxKind, k: int)
    requires
        is_run(boxes),
        0 <= k < boxes.len(),
        boxes[k].code == kind.code(),
        boxes.last().form is ToEnd ==> rest.len() == 0,
        (run_bytes(boxes) + rest).len() <= usize::MAX,
    ensures
        crate::validator::holds_box_from(run_bytes(boxes) + rest, 0, kind),
    decreases boxes.len(),
{
    let b = boxes[0];
    let others = boxes.skip(1);
    let behind = run_bytes(others) + rest;
    others_are_a_run(boxes);
    assert(b.fits());
    assert(run_bytes(boxes) + rest =~= b.bytes() + behind);
    if boxes.len() == 1 {
        assert(run_bytes(others) =~= Seq::<u8>::empty());
        assert(b == boxes.last());
    }
    first_box_or_the_others(b, behind, kind);
    if b.code != kind.code() {
        assert(others.last() == boxes.last());
        assert(others[k - 1] == boxes[k]);
        box_of_a_run_is_held(others, rest, kind, k - 1);
    }
}

proof fn held_box_is_of_the_run(boxes: Seq<WrittenBox>, kind: BoxKind)
    requires
        is_run(boxes),
        run_bytes(boxes).len() <= usize::MAX,
        forall|j: int| 0 <= j < boxes.len() ==> (#[trigger] boxes[j]).code != kind.code(),
    ensures
        !crate::validator::holds_box_from(run_bytes(boxes), 0, kind),
    decreases boxes.len(),
{
    if boxes.len() > 0 {
        let b = boxes[0];
        let others = boxes.skip(1);
        others_are_a_run(boxes);
        assert(b.fits());
        if boxes.len() == 1 {
            assert(run_bytes(others) =~= Seq::<u8>::empty());
        }
        assert forall|i: int| 0 <= i < others.len() implies (#[trigger] others[i]).code
            != kind.code() by {
            assert(boxes[i + 1].code != kind.code());
        }
        first_box_or_the_others(b, run_bytes(others), kind);
        held_box_is_of_the_run(others, kind);
    }
}

/// A segment that is a run of boxes contains a box of a type exactly if one of the run has it.
pub proof fn segment_contains_exactly_its_boxes(
    segment: &[u8],
    kind: BoxKind,
    boxes: Seq<WrittenBox>,
    r: bool,
)
    requires
        call_ensures(crate::validator::segment_contains_box_type, (segment, kind), r),
        holds_run(segment@, boxes),
    ensures
        r <==> exists|k: int| 0 <= k < boxes.len() && (#[trigger] boxes[k]).code == kind.code(),
{
    assert(segment@.len() == segment.len());
    if exists|k: int| 0 <= k < boxes.len() && (#[trigger] boxes[k]).code == kind.code() {
        let k = choose|k: int| 0 <= k < boxes.len() && (#[trigger] boxes[k]).code == kind.code();
        assert(segment@ =~= run_bytes(boxes) + Seq::<u8>::empty());
        box_of_a_run_is_held(boxes, Seq::empty(), kind, k);
    } else {
        held_box_is_of_the_run(boxes, kind);
    }
}

/// Whether a failure says that an initialization segment must not hold media.
pub open spec fn speaks_of_media(failure: ItemView) -> bool {
    &&& failure.code == "livevideo.init.invalid"@
    &&& failure.description == "initialization segment must not contain an mdat box"@
}

/// An initialization segment with media in it, whatever stands behind the media, is reported: that it
/// holds media, and, where the log goes on, that its layout is not that of an initialization segment.
pub proof fn media_in_the_init_segment_is_reported(
    validator: &mut LiveVideoValidator,
    segment: &[u8],
    tracker: &mut StatusTracker,
    r: Result<(), Error>,
    boxes: Seq<WrittenBox>,
    rest: Seq<u8>,
    k: int,
)
    requires
        call_ensures(
            LiveVideoValidator::validate_init_segment,
            (validator, segment, tracker),
            r,
        ),
        is_run(boxes),
        0 <= k < boxes.len(),
        boxes[k].code == seq![0x6du8, 0x64u8, 0x61u8, 0x74u8],
        boxes.last().form is ToEnd ==> rest.len() == 0,
        segment@ == run_bytes(boxes) + rest,
    ensures
        reported(old(tracker)@, final(tracker)@, r),
        speaks_of_media(newly_logged(old(tracker)@, final(tracker)@)[0]),
        old(tracker)@.behavior == ErrorBehavior::ContinueWhenPossible ==> newly_logged(
            old(tracker)@,
            final(tracker)@,
        ).len() == 2,
{
    assert(segment@.len() == segment.len());
    box_of_a_run_is_held(boxes, rest, BoxKind::Mdat, k);
    crate::validator_laws::readable_init_has_no_failures(segment@);
    assert(final(tracker)@.failures.take(old(tracker)@.failures.len() as int)
        =~= old(tracker)@.failures);
}

/// What is wrong with a manifest, an initialization segment or its session keys is logged with the code
/// for it and the given words.
pub proof fn logged_failures_have_their_codes(
    validator: &LiveVideoValidator,
    words: &str,
    first: &mut StatusTracker,
    second: &mut StatusTracker,
    third: &mut StatusTracker,
    a: Result<(), Error>,
    b: Result<(), Error>,
    c: Result<(), Error>,
)
    requires
        call_ensures(LiveVideoValidator::fail_segment_manifest, (validator, words, first), a),
        call_ensures(LiveVideoValidator::fail_init_manifest, (validator, words, second), b),
        call_ensures(LiveVideoValidator::fail_session_keys, (validator, words, third), c),
    ensures
        only_added(old(first)@, final(first)@),
        newly_logged(old(first)@, final(first)@) == seq![
            ItemView { description: words@, code: "livevideo.manifest.invalid"@ },
        ],
        a is Ok <==> old(first)@.behavior == ErrorBehavior::ContinueWhenPossible,
        only_added(old(second)@, final(second)@),
        newly_logged(old(second)@, final(second)@) == seq![
            ItemView { description: words@, code: "livevideo.init.invalid"@ },
        ],
        b is Ok <==> old(second)@.behavior == ErrorBehavior::ContinueWhenPossible,
        only_added(old(third)@, final(third)@),
        newly_logged(old(third)@, final(third)@) == seq![
            ItemView { description: words@, code: "livevideo.sessionkey.invalid"@ },
        ],
        c is Ok <==> old(third)@.behavior == ErrorBehavior::ContinueWhenPossible,
{
    assert(final(first)@.failures.take(old(first)@.failures.len() as int)
        =~= old(first)@.failures);
    assert(final(second)@.failures.take(old(second)@.failures.len() as int)
        =~= old(second)@.failures);
    assert(final(third)@.failures.take(old(third)@.failures.len() as int)
        =~= old(third)@.failures);
    assert(newly_logged(old(first)@, final(first)@) =~= seq![
        ItemView { description: words@, code: "livevideo.manifest.invalid"@ },
    ]);
    assert(newly_logged(old(second)@, final(second)@) =~= seq![
        ItemView { description: words@, code: "livevideo.init.invalid"@ },
    ]);
    assert(newly_logged(old(third)@, final(third)@) =~= seq![
        ItemView { description: words@, code: "livevideo.sessionkey.invalid"@ },
    ]);
}

// The steps of a session.

/// The certificate of a chain is its first, and a chain that cannot be read or is empty has none.
pub proof fn chain_certificate_is_the_first(
    chain: Result<Vec<Vec<u8>>, String>,
    r: Result<Vec<u8>, Error>,
)
    requires
        call_ensures(crate::vsi_signing::take_chain_certificate, (chain,), r),
    ensures
        r is Ok <==> chain is Ok && chain->Ok_0@.len() > 0,
        r is Ok ==> r->Ok_0@ == chain->Ok_0@[0]@,
{
    if chain is Ok {
        assert(byte_views(chain->Ok_0@).len() == chain->Ok_0@.len());
        if chain->Ok_0@.len() > 0 {
            assert(byte_views(chain->Ok_0@)[0] == chain->Ok_0@[0]@);
        }
    }
}

/// A published key is taken exactly if it is the only one and has the identifier, the algorithm and the
/// public key of the session.
pub proof fn published_key_is_taken_exactly_if_it_is_the_only_one(
    signer: &LiveVideoVsiSigner,
    published: Option<SessionKeys>,
    r: Result<SessionKey, Error>,
)
    requires
        call_ensures(LiveVideoVsiSigner::take_published_key, (signer, published), r),
    ensures
        r is Ok <==> published is Some && published->Some_0.keys@.len() == 1 && {
            let key = published->Some_0.keys@[0]@;
            &&& key.key.kid == Some(signer@.kid)
            &&& key.key.alg == Some(SigningAlg::Ed25519)
            &&& key.key.public_key == signer@.cose_key.public_key
        },
        r is Ok ==> r->Ok_0@ == published->Some_0.keys@[0]@,
{
    if published is Some {
        let keys = published->Some_0.keys@;
        assert(key_views(keys).len() == keys.len());
        if keys.len() == 1 {
            assert(key_views(keys)[0] == keys[0]@);
        }
    }
}

/// Signing an initialization segment begins exactly if its timing can be read and the manifest signer
/// has the certificate that the session key is bound to.
pub proof fn init_segment_is_begun_exactly_with_the_bound_certificate(
    signer: &LiveVideoVsiSigner,
    segment: &[u8],
    certs: &Result<Vec<Vec<u8>>, String>,
    r: Result<InitSegmentInfo, Error>,
)
    requires
        call_ensures(LiveVideoVsiSigner::begin_init_segment, (signer, segment, certs), r),
    ensures
        r is Ok <==> init_info(segment@) is Ok && certs is Ok && certs->Ok_0@.len() > 0
            && certs->Ok_0@[0]@ == signer@.cert,
        r is Ok ==> init_info(segment@) == Ok::<InitSegmentInfo, Failure>(r->Ok_0),
{
    if certs is Ok {
        assert(byte_views(certs->Ok_0@).len() == certs->Ok_0@.len());
        if certs->Ok_0@.len() > 0 {
            assert(byte_views(certs->Ok_0@)[0] == certs->Ok_0@[0]@);
        }
    }
}

/// An initialization segment that was read back is taken up exactly if what was read publishes the
/// session key; where it does not, nothing changes.
pub proof fn init_segment_is_completed_exactly_if_it_publishes_the_key(
    signer: &mut LiveVideoVsiSigner,
    info: InitSegmentInfo,
    report: InitManifestReport,
    r: Result<(), Error>,
)
    requires
        call_ensures(LiveVideoVsiSigner::complete_init_segment, (signer, info, report), r),
    ensures
        r is Ok ==> exists|id: Seq<char>, key: crate::session_keys::SessionKeyView| #[trigger]
            publishes_the_session_key(old(signer)@, report, id, key) && taken_up_from(
                old(signer)@,
                final(signer)@,
                info,
                id,
                key,
            ),
        r is Err ==> final(signer)@ == old(signer)@ && forall|
            id: Seq<char>,
            key: crate::session_keys::SessionKeyView,
        | !(#[trigger] publishes_the_session_key(old(signer)@, report, id, key)),
{
    crate::session_laws::checks_accept_what_publishes(old(signer)@, report);
    if r is Ok {
        let (id, key) = crate::vsi_signing::checked_init_manifest(old(signer)@, report@)->Ok_0;
        assert(publishes_the_session_key(old(signer)@, report, id, key));
    }
}

/// Taking up an initialization segment takes over its manifest, its track and what its key says of its
/// validity, and nothing else.
pub proof fn taken_up_init_is_that_of_the_segment(
    signer: &mut LiveVideoVsiSigner,
    info: InitSegmentInfo,
    id: String,
    key: SessionKey,
    r: (),
)
    requires
        call_ensures(LiveVideoVsiSigner::take_up_init, (signer, info, id, key), r),
    ensures
        taken_up_from(old(signer)@, final(signer)@, info, id@, key@),
{
}

/// The signature of a resumed message with a payload is accepted exactly if the session key signed the
/// message at a time at which the key was valid.
pub proof fn resumed_signature_is_accepted_exactly_if_the_key_signed(
    signer: &LiveVideoVsiSigner,
    message: &Sign1,
    r: Result<(), Error>,
)
    requires
        call_ensures(LiveVideoVsiSigner::check_resumed_signature, (signer, message), r),
        message@.payload is Some,
    ensures
        r is Ok <==> signed_by(signer@, message@) && exists|time: i64| #[trigger]
            claims_time(message@.entries, time) && within_validity(
                signer@.created_at,
                signer@.validity_period,
                time,
            ),
{
    let entries = message@.entries;
    if claimed_time(entries) is Ok {
        claimed_time_is_the_only_claim(entries, claimed_time(entries)->Ok_0);
    }
    assert forall|time: i64| #[trigger] claims_time(entries, time) implies claimed_time(entries)
        == Ok::<i64, Failure>(time) by {
        claimed_time_is_the_only_claim(entries, time);
    }
}

/// A resumed segment is accepted, its hash left aside, exactly if it belongs to the session.
pub proof fn resumed_segment_is_accepted_exactly_if_it_belongs(
    signer: &LiveVideoVsiSigner,
    segment: &[u8],
    event: &VsiEmsg,
    parsed: &ParsedVsi,
    r: Result<(), Error>,
)
    requires
        call_ensures(LiveVideoVsiSigner::check_resumed_segment, (signer, segment, event, parsed), r),
        parsed.sign1@.payload is Some,
    ensures
        r is Ok <==> media_info(segment@, signer@.default_sample_duration) is Ok && belongs_to(
            signer@,
            media_info(segment@, signer@.default_sample_duration)->Ok_0,
            event@,
            *parsed,
        ),
{
    crate::session_laws::checks_accept_what_belongs(signer@, segment@, event@, *parsed);
}

/// Going on behind a segment makes its number and its event identifier the last ones used; it is
/// refused where either cannot advance, and nothing but the two ever changes.
pub proof fn session_goes_on_behind_the_segment(
    signer: &mut LiveVideoVsiSigner,
    number: u64,
    id: u32,
    r: Result<(), Error>,
)
    requires
        call_ensures(LiveVideoVsiSigner::resume_behind, (signer, number, id), r),
    ensures
        r is Ok <==> number < u64::MAX && id < u32::MAX,
        r is Ok ==> final(signer)@.next_sequence_number - 1 == number
            && final(signer)@.next_event_id - 1 == id,
        r is Err ==> final(signer)@.next_event_id == old(signer)@.next_event_id,
        number == u64::MAX ==> final(signer)@ == old(signer)@,
        final(signer)@ == (Session {
            next_sequence_number: final(signer)@.next_sequence_number,
            next_event_id: final(signer)@.next_event_id,
            ..old(signer)@
        }),
{
}

/// A media segment can be outlined exactly if it carries no Verifiable Segment Info yet and is the next
/// of the session; the outline says what the session and the segment say. Planning asks for a valid key
/// besides, and nothing else.
pub proof fn segment_is_planned_exactly_if_outlined_with_a_valid_key(
    signer: &LiveVideoVsiSigner,
    segment: &[u8],
    iat: i64,
    outline: Result<MediaPlan, Error>,
    plan: Result<MediaPlan, Error>,
)
    requires
        call_ensures(LiveVideoVsiSigner::outline_media_segment, (signer, segment, iat), outline),
        call_ensures(LiveVideoVsiSigner::plan_media_segment, (signer, segment, iat), plan),
    ensures
        plan is Ok <==> outline is Ok && within_validity(
            signer@.created_at,
            signer@.validity_period,
            iat,
        ),
        plan is Ok ==> plan->Ok_0@ == outline->Ok_0@,
        outline is Ok ==> {
            let said = outline->Ok_0@;
            let media = media_info(segment@, signer@.default_sample_duration)->Ok_0;
            &&& media_info(segment@, signer@.default_sample_duration) is Ok
            &&& crate::verifiable_segment_info::vsi_candidates(segment@).len() == 0
            &&& signer@.track_id == Some(media.track_id)
            &&& said.sequence_number == signer@.next_sequence_number
            &&& said.sequence_number == media.sequence_number
            &&& signer@.active_manifest_id == Some(said.manifest_id)
            &&& signer@.track_timescale == Some(said.timescale)
            &&& said.event_duration == media.duration_ticks
            &&& said.id == signer@.next_event_id
            &&& said.id < u32::MAX
            &&& said.iat == iat
        },
{
}

/// A framed segment is the segment behind one event message box that carries the message and what the
/// plan says, and the session then stands behind it; a segment is framed exactly if the box can be built
/// and has the size of the draft.
pub proof fn framed_segment_is_the_segment_behind_its_event(
    signer: &mut LiveVideoVsiSigner,
    plan: &MediaPlan,
    draft_size: usize,
    message: &[u8],
    segment: &[u8],
    r: Result<Vec<u8>, Error>,
)
    requires
        plan.sequence_number < u64::MAX,
        plan.id < u32::MAX,
        call_ensures(
            LiveVideoVsiSigner::frame_media_segment,
            (signer, plan, draft_size, message, segment),
            r,
        ),
    ensures
        r is Ok <==> 66 + message@.len() <= u32::MAX && 66 + message@.len() == draft_size,
        r is Ok ==> {
            let event = EmsgEvent {
                message_data: message@,
                timescale: plan.timescale,
                presentation_time_delta: 0,
                event_duration: plan.event_duration,
                id: plan.id,
            };
            &&& r->Ok_0@ == (WrittenBox {
                code: seq![0x65u8, 0x6du8, 0x73u8, 0x67u8],
                payload: event_payload(event),
                form: crate::bmff_writing::SizeForm::Compact,
            }).bytes() + segment@
            &&& final(signer)@ == (Session {
                next_sequence_number: (plan.sequence_number + 1) as u64,
                next_event_id: (plan.id + 1) as u32,
                ..old(signer)@
            })
        },
        r is Err ==> final(signer)@ == old(signer)@,
{
    crate::event_laws::event_box_is_written(message@, plan.timescale, plan.event_duration, plan.id);
}

// The steps of a chain.

/// A signed initialization segment becomes the link exactly if what was read of it names a sound
/// manifest; nothing else changes.
pub proof fn completed_init_becomes_the_link(
    signer: &mut LiveVideoSigner,
    report: &ManifestReport,
    r: Result<(), Error>,
)
    requires
        call_ensures(LiveVideoSigner::complete_init_segment, (signer, report), r),
    ensures
        r is Ok ==> exists|id: Seq<char>| #[trigger]
            sound_report(*report, id) && final(signer)@ == (LiveSignerState {
                previous_manifest_id: Some(id),
                ..old(signer)@
            }),
        r is Err ==> final(signer)@ == old(signer)@ && forall|id: Seq<char>|
            !(#[trigger] sound_report(*report, id)),
{
    crate::definition_laws::report_is_sound_or_not(*report);
}

/// A signed media segment becomes the link, and the number advances by one, exactly if what was read of
/// it names a sound manifest and the number can advance; nothing else changes.
pub proof fn completed_segment_becomes_the_link(
    signer: &mut LiveVideoSigner,
    report: &ManifestReport,
    r: Result<(), Error>,
)
    requires
        call_ensures(LiveVideoSigner::complete_media_segment, (signer, report), r),
    ensures
        r is Ok ==> old(signer)@.next_sequence_number < u64::MAX && exists|id: Seq<char>| #[trigger]
            sound_report(*report, id) && final(signer)@ == (LiveSignerState {
                previous_manifest_id: Some(id),
                next_sequence_number: (old(signer)@.next_sequence_number + 1) as u64,
                ..old(signer)@
            }),
        r is Err ==> final(signer)@ == old(signer)@ && (old(signer)@.next_sequence_number == u64::MAX
            || forall|id: Seq<char>| !(#[trigger] sound_report(*report, id))),
{
    crate::definition_laws::report_is_sound_or_not(*report);
}

/// What a signer says of its next number and its link after a completed segment is one more than it
/// said before, and the label that was read of the segment.
pub proof fn told_state_follows_the_segment(
    before: &LiveVideoSigner,
    signer: &mut LiveVideoSigner,
    after: &LiveVideoSigner,
    report: &ManifestReport,
    r: Result<(), Error>,
    first: u64,
    second: u64,
    link: Option<&str>,
)
    requires
        call_ensures(LiveVideoSigner::next_sequence_number, (before,), first),
        before@ == old(signer)@,
        call_ensures(LiveVideoSigner::complete_media_segment, (signer, report), r),
        r is Ok,
        after@ == final(signer)@,
        call_ensures(LiveVideoSigner::next_sequence_number, (after,), second),
        call_ensures(LiveVideoSigner::previous_manifest_id, (after,), link),
    ensures
        second == first + 1,
        link is Some,
        report.label is Some,
        link->Some_0@ == report.label->Some_0@,
{
    crate::definition_laws::report_is_sound_or_not(*report);
}

// What is told.

/// A session that has taken up an initialization segment tells its manifest, and a next number that is
/// neither below the one that it told before nor below the first of the key.
pub proof fn told_manifest_is_that_of_the_init(
    before: &LiveVideoVsiSigner,
    signer: &mut LiveVideoVsiSigner,
    after: &LiveVideoVsiSigner,
    info: InitSegmentInfo,
    id: String,
    key: SessionKey,
    r: (),
    first: u64,
    second: u64,
    told: Option<&str>,
)
    requires
        before@ == old(signer)@,
        call_ensures(LiveVideoVsiSigner::next_sequence_number, (before,), first),
        call_ensures(LiveVideoVsiSigner::take_up_init, (signer, info, id, key), r),
        after@ == final(signer)@,
        call_ensures(LiveVideoVsiSigner::next_sequence_number, (after,), second),
        call_ensures(LiveVideoVsiSigner::active_manifest_id, (after,), told),
    ensures
        told is Some,
        told->Some_0@ == id@,
        second >= first,
        second >= key.min_sequence_number,
        second == first || second == key.min_sequence_number,
{
}

/// A validator that has accepted a segment tells its number, its stream and its manifest as those of the
/// segment that the next one is held to.
pub proof fn told_predecessor_is_the_accepted_segment(
    validator: &mut LiveVideoValidator,
    manifest_id: &str,
    claim: &crate::signing::LiveVideoSegment,
    checks: &crate::validator::ManifestChecks,
    tracker: &mut StatusTracker,
    r: Result<(), Error>,
    after: &LiveVideoValidator,
    told: Option<&crate::validator::SegmentState>,
)
    requires
        call_ensures(
            LiveVideoValidator::validate_checked_segment,
            (validator, manifest_id, claim, checks, tracker),
            r,
        ),
        r is Ok,
        final(tracker)@.failures.len() == old(tracker)@.failures.len(),
        after@ == final(validator)@,
        call_ensures(LiveVideoValidator::previous_segment, (after,), told),
    ensures
        told is Some,
        told->Some_0.sequence_number == claim.sequence_number,
        told->Some_0.stream_id@ == claim.stream_id@,
        told->Some_0.manifest_id@ == manifest_id@,
{
}

/// A validator that starts over tells no predecessor, no key and no manifest.
pub proof fn fresh_validator_tells_nothing(
    validator: &mut LiveVideoValidator,
    segment: &[u8],
    tracker: &mut StatusTracker,
    r: Result<(), Error>,
    after: &LiveVideoValidator,
    before: Option<&crate::validator::SegmentState>,
    keys: &Vec<SessionKey>,
    named: Option<&str>,
)
    requires
        call_ensures(
            LiveVideoValidator::validate_init_segment,
            (validator, segment, tracker),
            r,
        ),
        after@ == final(validator)@,
        call_ensures(LiveVideoValidator::previous_segment, (after,), before),
        call_ensures(LiveVideoValidator::session_keys, (after,), keys),
        call_ensures(LiveVideoValidator::expected_manifest_id, (after,), named),
    ensures
        before is None,
        keys@.len() == 0,
        named is None,
{
    assert(key_views(keys@).len() == keys@.len());
}

// Claims.

/// An assertion that is added to a claim comes last, behind those that were there, in their order.
pub proof fn added_assertion_comes_last<'a>(
    claim: &mut PartialClaim,
    assertion: &crate::segment_info::HashedUri,
    r: (),
    after: &'a PartialClaim,
    all: std::slice::Iter<'a, crate::segment_info::HashedUri>,
)
    requires
        call_ensures(PartialClaim::add_assertion, (claim, assertion), r),
        after@ == final(claim)@,
        call_ensures(PartialClaim::assertions, (after,), all),
    ensures
        all.remaining().len() == old(claim)@.len() + 1,
        all.remaining().last()@ == assertion@,
        forall|i: int| 0 <= i < old(claim)@.len() ==> (#[trigger] all.remaining()[i])@ == old(claim)@[i],
{
    let uris = all.remaining().unref();
    assert(crate::dynamic_assertion::uri_views(uris).len() == uris.len());
    assert(uris.len() == all.remaining().len());
    assert forall|i: int| 0 <= i < uris.len() implies (#[trigger] all.remaining()[i])@
        == after@[i] by {
        assert(crate::dynamic_assertion::uri_views(uris)[i] == uris[i]@);
    }
}

// The C interface.

/// A length is returned as it is, and refused exactly if it does not fit.
pub proof fn returned_length_is_the_length(length: usize, words: &str, r: Result<i64, Error>)
    requires
        call_ensures(crate::c_api::returned_length, (length, words), r),
    ensures
        r is Ok <==> length <= i64::MAX,
        r is Ok ==> r->Ok_0 == length,
{
}

// The reserved interface.

/// No trusted session can be created in this build.
pub proof fn no_trusted_session_is_created<
    C,
    F: Fn(&crate::trusted_vsi::VsiSigningContextV1, &[u8]) -> Result<Vec<u8>, Error>,
>(
    context: &std::sync::Arc<C>,
    text: &str,
    config: crate::trusted_vsi::VsiSessionConfig,
    callback: F,
    r: Result<TrustedVsiPrehashedSession, Error>,
)
    requires
        call_ensures(
            TrustedVsiPrehashedSession::from_shared_context_with_callback::<C, F>,
            (context, text, config, callback),
            r,
        ),
    ensures
        r is Err && r->Err_0 == Error::UnsupportedType,
{
}

/// Every operation of a trusted session is refused as unsupported, and nothing changes.
pub proof fn trusted_session_refuses_to_sign(
    session: &mut TrustedVsiPrehashedSession,
    time: i64,
    timescale: u32,
    duration: u32,
    bytes: &[u8],
    structure: &[u8],
    signed: Result<Vec<u8>, Error>,
    reserved: Result<crate::trusted_vsi::TrustedVsiMediaEmsgReservation, Error>,
    finalized: Result<Vec<u8>, Error>,
)
    requires
        call_ensures(
            TrustedVsiPrehashedSession::sign_emsg_sig_structure,
            (session, bytes, structure),
            signed,
        ),
        call_ensures(
            TrustedVsiPrehashedSession::reserve_media_emsg_at,
            (session, time, timescale, duration),
            reserved,
        ),
        call_ensures(TrustedVsiPrehashedSession::finalize_media_emsg, (session, bytes), finalized),
    ensures
        signed is Err && signed->Err_0 == Error::UnsupportedType,
        reserved is Err && reserved->Err_0 == Error::UnsupportedType,
        finalized is Err && finalized->Err_0 == Error::UnsupportedType,
        *final(session) == *old(session),
{
}

/// A trusted session reserves, commits and recovers nothing, has no identifier and tells no state.
pub proof fn trusted_session_keeps_nothing(
    session: &mut TrustedVsiPrehashedSession,
    same: &TrustedVsiPrehashedSession,
    format: &str,
    bytes: &[u8],
    previous: Option<&[u8]>,
    reserved: Result<crate::trusted_vsi::TrustedVsiInitUuidReservation, Error>,
    finalized: Result<Vec<u8>, Error>,
    committed: Result<(), Error>,
    recovered: Result<(), Error>,
    named: Result<&str, Error>,
    told: Result<crate::trusted_vsi::TrustedVsiStatus, Error>,
)
    requires
        call_ensures(TrustedVsiPrehashedSession::reserve_init_uuid, (session, format), reserved),
        call_ensures(TrustedVsiPrehashedSession::finalize_init_uuid, (session, bytes), finalized),
        call_ensures(TrustedVsiPrehashedSession::commit_init_uuid, (session,), committed),
        call_ensures(TrustedVsiPrehashedSession::recover, (session, bytes, previous), recovered),
        call_ensures(TrustedVsiPrehashedSession::reserved_manifest_id, (same,), named),
        call_ensures(TrustedVsiPrehashedSession::status, (same,), told),
    ensures
        reserved is Err && reserved->Err_0 == Error::UnsupportedType,
        finalized is Err && finalized->Err_0 == Error::UnsupportedType,
        committed is Err && committed->Err_0 == Error::UnsupportedType,
        recovered is Err && recovered->Err_0 == Error::UnsupportedType,
        named is Err && named->Err_0 == Error::UnsupportedType,
        told is Err && told->Err_0 == Error::UnsupportedType,
        *final(session) == *old(session),
{
}

} // verus!
