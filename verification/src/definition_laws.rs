//! What becomes of a manifest definition, and what a signer with a manifest in each segment hands
//! over, signs and keeps.

use vstd::prelude::*;

use crate::bmff::{init_info, media_sequence_number};
use crate::error::{Error, Failure};
use crate::filter_laws::nothing_is_picked;
use crate::json::{json_of, json_pretty_text, json_reading, json_text, Json};
use crate::manifest_report::{
    disqualifies, is_integrity_code, status_views, ManifestReport, ReportedStatus,
};
use crate::signing::{
    init_embedding_outcome, live_assertion_from, manifest_assertions, media_embedding_outcome,
    normalized_manifest, reading_outcome, ContinuityMethod, LiveSignerState, LiveVideoSegment,
    LiveVideoSigner, SegmentClaim,
};

verus! {

/// What stands under a key, if the value is an object that has the key.
pub open spec fn under(value: Json, key: Seq<char>) -> Option<Json> {
    if value is Object && value->Object_0.dom().contains(key) {
        Some(value->Object_0[key])
    } else {
        None
    }
}

/// The text under a key, if there is one.
pub open spec fn text_under(value: Json, key: Seq<char>) -> Option<Seq<char>> {
    if under(value, key) is Some && under(value, key)->Some_0 is Text {
        Some(under(value, key)->Some_0->Text_0)
    } else {
        None
    }
}

/// Whether the live segment assertion stands at `i`: it is the first with that label.
pub open spec fn live_assertion_at(assertions: Seq<Json>, i: int) -> bool {
    &&& 0 <= i < assertions.len()
    &&& text_under(assertions[i], "label"@) == Some("c2pa.livevideo.segment"@)
    &&& forall|j: int|
        0 <= j < i ==> text_under(#[trigger] assertions[j], "label"@) != Some(
            "c2pa.livevideo.segment"@,
        )
}

/// The live assertion that is found is the first with that label.
pub proof fn found_assertion_is_the_first(items: Seq<Json>, from: int)
    requires
        0 <= from,
    ensures
        live_assertion_from(items, from) matches Some(i) ==> from <= i < items.len() && text_under(
            items[i],
            "label"@,
        ) == Some("c2pa.livevideo.segment"@) && forall|j: int|
            from <= j < i ==> text_under(#[trigger] items[j], "label"@) != Some(
                "c2pa.livevideo.segment"@,
            ),
        live_assertion_from(items, from) is None ==> forall|j: int|
            from <= j < items.len() ==> text_under(#[trigger] items[j], "label"@) != Some(
                "c2pa.livevideo.segment"@,
            ),
    decreases items.len() - from,
{
    if from < items.len() {
        found_assertion_is_the_first(items, from + 1);
    }
}

/// A value at which the live segment assertion stands has it found there.
pub proof fn first_assertion_is_found(items: Seq<Json>, i: int)
    requires
        live_assertion_at(items, i),
    ensures
        live_assertion_from(items, 0) == Some(i),
{
    found_assertion_is_the_first(items, 0);
    match live_assertion_from(items, 0) {
        Some(k) => {
            if k < i {
                assert(text_under(items[k], "label"@) != Some("c2pa.livevideo.segment"@));
            }
            if i < k {
                assert(text_under(items[i], "label"@) != Some("c2pa.livevideo.segment"@));
            }
        },
        None => {
            assert(text_under(items[i], "label"@) != Some("c2pa.livevideo.segment"@));
        },
    }
}

/// Whether one definition is another without its live segment assertion: the list of assertions is
/// one shorter, every other assertion stands in it in the same order, and every other field is the
/// same.
pub open spec fn lacks_only_the_live_assertion(base: Json, manifest: Json, i: int) -> bool {
    &&& base is Object
    &&& manifest is Object
    &&& under(manifest, "assertions"@) is Some
    &&& under(manifest, "assertions"@)->Some_0 is Array
    &&& under(base, "assertions"@) is Some
    &&& under(base, "assertions"@)->Some_0 is Array
    &&& {
        let all = under(manifest, "assertions"@)->Some_0->Array_0;
        let rest = under(base, "assertions"@)->Some_0->Array_0;
        &&& live_assertion_at(all, i)
        &&& rest.len() == all.len() - 1
        &&& forall|k: int| 0 <= k < i ==> #[trigger] rest[k] == all[k]
        &&& forall|k: int| i <= k < rest.len() ==> #[trigger] rest[k] == all[k + 1]
    }
    &&& forall|key: Seq<char>|
        key != "assertions"@ ==> #[trigger] under(base, key) == under(manifest, key)
}

/// Whether a state is the one that the live segment assertion of a definition gives: the stream that
/// it names, the number that it gives or else one, and the link that it has.
pub open spec fn state_of_assertion(state: LiveSignerState, assertion: Json) -> bool {
    let data = if under(assertion, "data"@) is Some {
        under(assertion, "data"@)->Some_0
    } else {
        Json::Null
    };
    let number = under(data, "nextSequenceNumber"@);
    &&& text_under(data, "streamId"@) == Some(state.stream_id)
    &&& state.previous_manifest_id == text_under(data, "previousManifestId"@)
    &&& if number is Some && number->Some_0 is Unsigned {
        state.sequence_number_configured && state.next_sequence_number
            == number->Some_0->Unsigned_0
    } else {
        !state.sequence_number_configured && state.next_sequence_number == 1
    }
}

/// Whether the state of a signer is what a definition gives.
pub open spec fn gives_state(manifest: Json, i: int, base: Json, state: LiveSignerState) -> bool {
    &&& lacks_only_the_live_assertion(base, manifest, i)
    &&& state.base_manifest_json == json_text(base)
    &&& state_of_assertion(state, under(manifest, "assertions"@)->Some_0->Array_0[i])
}

proof fn state_comes_from_the_assertion(manifest: Json)
    ensures
        crate::signing::manifest_state(manifest) matches Ok(state) ==> exists|i: int, base: Json|
            #[trigger] gives_state(manifest, i, base, state),
{
    match crate::signing::manifest_state(manifest) {
        Err(_) => {},
        Ok(state) => {
            let items = manifest_assertions(manifest)->Ok_0;
            let i = live_assertion_from(items, 0)->Some_0;
            found_assertion_is_the_first(items, 0);
            let base = manifest.with_field("assertions"@, Json::Array(items.remove(i)));
            let rest = under(base, "assertions"@)->Some_0->Array_0;
            assert(rest =~= items.remove(i));
            assert forall|key: Seq<char>| key != "assertions"@ implies #[trigger] under(base, key)
                == under(manifest, key) by {}
            assert(lacks_only_the_live_assertion(base, manifest, i));
            assert(gives_state(manifest, i, base, state));
        },
    }
}

/// The state that is taken out of a definition is what its live segment assertion says, and what is
/// left of the definition lacks that assertion and nothing else.
pub proof fn only_the_live_assertion_is_taken_out(
    manifest: serde_json::Value,
    r: Result<LiveVideoSigner, Error>,
)
    requires
        call_ensures(crate::signing::extract_live_video_state, (manifest,), r),
        r is Ok,
    ensures
        exists|i: int, base: Json| #[trigger]
            gives_state(json_of(manifest), i, base, r->Ok_0@),
{
    state_comes_from_the_assertion(json_of(manifest));
}

/// Whether the live segment assertion stands at `i` and names a stream.
pub open spec fn names_a_stream(assertions: Seq<Json>, i: int) -> bool {
    &&& live_assertion_at(assertions, i)
    &&& under(assertions[i], "data"@) is Some
    &&& text_under(under(assertions[i], "data"@)->Some_0, "streamId"@) is Some
}

/// A definition gives a signer its state exactly if it has a live segment assertion that names a
/// stream.
pub proof fn live_assertion_gives_the_state(
    manifest: serde_json::Value,
    r: Result<LiveVideoSigner, Error>,
)
    requires
        call_ensures(crate::signing::extract_live_video_state, (manifest,), r),
    ensures
        r is Ok <==> under(json_of(manifest), "assertions"@) is Some && under(
            json_of(manifest),
            "assertions"@,
        )->Some_0 is Array && exists|i: int| #[trigger]
            names_a_stream(under(json_of(manifest), "assertions"@)->Some_0->Array_0, i),
{
    let value = json_of(manifest);
    if manifest_assertions(value) is Ok {
        let all = manifest_assertions(value)->Ok_0;
        found_assertion_is_the_first(all, 0);
        if live_assertion_from(all, 0) is Some {
            let k = live_assertion_from(all, 0)->Some_0;
            assert(live_assertion_at(all, k));
            assert(names_a_stream(all, k) == (r is Ok));
            assert forall|j: int| #[trigger] names_a_stream(all, j) implies j == k by {
                first_assertion_is_found(all, j);
            }
        } else {
            assert forall|j: int| !(#[trigger] names_a_stream(all, j)) by {
                if live_assertion_at(all, j) {
                    first_assertion_is_found(all, j);
                }
            }
        }
    }
}

// Normalizing.

/// Whether a generator entry names this library and the version that it declares, and nothing else.
pub open spec fn names_this_library(entry: Json) -> bool {
    &&& entry is Object
    &&& text_under(entry, "name"@) == Some("live_video"@)
    &&& text_under(entry, "version"@) == Some("0.1.0"@)
    &&& text_under(entry, "specVersion"@) == Some("2.4"@)
    &&& forall|key: Seq<char>|
        key != "name"@ && key != "version"@ && key != "specVersion"@ ==> #[trigger] under(entry, key)
            is None
}

/// Whether one definition is another with the declaration that live video requires: the first
/// generator entry declares version 2.4, and nothing else differs, but that an entry is made where
/// there was none.
pub open spec fn declares_only(prepared: Json, manifest: Json) -> bool {
    &&& prepared is Object
    &&& manifest is Object
    &&& forall|key: Seq<char>|
        key != "claim_generator_info"@ ==> #[trigger] under(prepared, key) == under(manifest, key)
    &&& under(prepared, "claim_generator_info"@) is Some
    &&& under(prepared, "claim_generator_info"@)->Some_0 is Array
    &&& {
        let declared = under(prepared, "claim_generator_info"@)->Some_0->Array_0;
        &&& declared.len() > 0
        &&& text_under(declared[0], "specVersion"@) == Some("2.4"@)
        &&& under(manifest, "claim_generator_info"@) is Some ==> {
            let given = under(manifest, "claim_generator_info"@)->Some_0;
            &&& given is Array
            &&& given->Array_0.len() > 0 ==> declared.len() == given->Array_0.len() && (forall|
                k: int,
            |
                0 < k < declared.len() ==> #[trigger] declared[k] == given->Array_0[k]) && (forall|
                key: Seq<char>,
            |
                key != "specVersion"@ ==> #[trigger] under(declared[0], key) == under(
                    given->Array_0[0],
                    key,
                ))
            &&& given->Array_0.len() == 0 ==> declared.len() == 1
        }
        &&& under(manifest, "claim_generator_info"@) is None ==> declared.len() == 1
        &&& under(manifest, "claim_generator_info"@) is None || under(
            manifest,
            "claim_generator_info"@,
        )->Some_0->Array_0.len() == 0 ==> names_this_library(declared[0])
    }
}

/// Whether a definition can be declared one of live video: it is an object, it asks for no other claim
/// version than two, and its generator entries, if it has any, are a list whose first is an object
/// that declares no other version.
pub open spec fn can_be_declared(manifest: Json) -> bool {
    let version = under(manifest, "claim_version"@);
    let infos = under(manifest, "claim_generator_info"@);
    &&& manifest is Object
    &&& version is Some && version->Some_0 is Unsigned ==> version->Some_0->Unsigned_0 == 2
    &&& infos is Some ==> infos->Some_0 is Array && (infos->Some_0->Array_0.len() > 0 ==> {
        let first = infos->Some_0->Array_0[0];
        first is Object && (under(first, "specVersion"@) is None || text_under(
            first,
            "specVersion"@,
        ) == Some("2.4"@))
    })
}

proof fn declaring_declares_only(manifest: Json)
    ensures
        crate::live_manifest::live_manifest(manifest) is Ok <==> can_be_declared(manifest),
        crate::live_manifest::live_manifest(manifest) matches Ok(prepared) ==> declares_only(
            prepared,
            manifest,
        ),
{
    reveal_strlit("name");
    reveal_strlit("version");
    reveal_strlit("specVersion");
    assert("specVersion"@.len() == 11 && "name"@.len() == 4 && "version"@.len() == 7);
    assert(crate::live_manifest::default_generator().field("specVersion"@) is None);
    match crate::live_manifest::live_manifest(manifest) {
        Err(_) => {},
        Ok(prepared) => {
            let entries = crate::live_manifest::generator_entries(manifest)->Some_0;
            let first = crate::live_manifest::declared_generator(entries[0])->Ok_0;
            let declared = under(prepared, "claim_generator_info"@)->Some_0->Array_0;
            assert(declared == entries.update(0, first));
            assert forall|key: Seq<char>| key != "claim_generator_info"@ implies #[trigger] under(
                prepared,
                key,
            ) == under(manifest, key) by {}
        },
    }
}

/// A definition is normalized exactly if it can be declared one of live video; the result declares
/// that, and nothing else differs.
pub proof fn normalizing_declares_and_keeps(
    manifest: serde_json::Value,
    r: Result<serde_json::Value, Error>,
)
    requires
        call_ensures(crate::live_manifest::prepare_live_manifest, (manifest,), r),
    ensures
        r is Ok <==> can_be_declared(json_of(manifest)),
        r is Ok ==> declares_only(json_of(r->Ok_0), json_of(manifest)),
{
    declaring_declares_only(json_of(manifest));
}

/// The text of a definition is normalized exactly if it can be read and can be declared one of live
/// video; the result is the text of a definition that declares that, and in which nothing else
/// differs.
pub proof fn normalizing_a_text_declares_and_keeps(text: &str, r: Result<String, Error>)
    requires
        call_ensures(crate::live_manifest::prepare_live_manifest_json, (text,), r),
    ensures
        r is Ok <==> json_reading(text@) is Ok && can_be_declared(json_reading(text@)->Ok_0),
        r is Ok ==> exists|prepared: Json| #[trigger]
            declares_only(prepared, json_reading(text@)->Ok_0) && r->Ok_0@ == json_text(prepared),
{
    if json_reading(text@) is Ok {
        declaring_declares_only(json_reading(text@)->Ok_0);
        if r is Ok {
            let prepared = crate::live_manifest::live_manifest(json_reading(text@)->Ok_0)->Ok_0;
            assert(declares_only(prepared, json_reading(text@)->Ok_0));
        }
    }
}

/// Whether a definition is the normalized one behind a text: what is read of the text was declared one
/// of live video, with nothing else changed, and written and read again.
pub open spec fn normalized_as(text: Seq<char>, prepared: Json, manifest: Json) -> bool {
    &&& json_reading(text) is Ok
    &&& can_be_declared(json_reading(text)->Ok_0)
    &&& declares_only(prepared, json_reading(text)->Ok_0)
    &&& json_reading(json_text(prepared)) == Ok::<Json, Seq<char>>(manifest)
}

proof fn normalizing_gives_the_normalized(text: Seq<char>)
    ensures
        normalized_manifest(text) is Ok ==> exists|prepared: Json| #[trigger]
            normalized_as(text, prepared, normalized_manifest(text)->Ok_0),
{
    if normalized_manifest(text) is Ok {
        declaring_declares_only(json_reading(text)->Ok_0);
        let prepared = crate::live_manifest::live_manifest(json_reading(text)->Ok_0)->Ok_0;
        assert(normalized_as(text, prepared, normalized_manifest(text)->Ok_0));
    }
}

proof fn same_fields_make_the_same_object(a: Json, b: Json)
    requires
        a is Object,
        b is Object,
        forall|key: Seq<char>| #[trigger] under(a, key) == under(b, key),
    ensures
        a == b,
{
    let x = a->Object_0;
    let y = b->Object_0;
    assert forall|key: Seq<char>| x.dom().contains(key) == y.dom().contains(key) by {
        assert(under(a, key) == under(b, key));
    }
    assert forall|key: Seq<char>| x.dom().contains(key) implies x[key] == y[key] by {
        assert(under(a, key) == under(b, key));
    }
    assert(x =~= y);
}

/// A definition is declared one of live video in one way only.
proof fn declaration_is_unique(prepared: Json, manifest: Json)
    requires
        can_be_declared(manifest),
        declares_only(prepared, manifest),
    ensures
        crate::live_manifest::live_manifest(manifest) == Ok::<Json, Failure>(prepared),
{
    declaring_declares_only(manifest);
    let found = crate::live_manifest::live_manifest(manifest)->Ok_0;
    let a = under(prepared, "claim_generator_info"@)->Some_0->Array_0;
    let b = under(found, "claim_generator_info"@)->Some_0->Array_0;
    assert(a.len() == b.len());
    assert forall|key: Seq<char>| #[trigger] under(a[0], key) == under(b[0], key) by {
        if key != "specVersion"@ {
            if key == "name"@ || key == "version"@ {
                assert(under(a[0], key) == under(b[0], key));
            }
        }
    }
    assert(a[0] is Object && b[0] is Object);
    same_fields_make_the_same_object(a[0], b[0]);
    assert(a =~= b);
    assert forall|key: Seq<char>| #[trigger] under(prepared, key) == under(found, key) by {
        assert(under(prepared, key) == under(found, key));
    }
    same_fields_make_the_same_object(prepared, found);
}

/// A text gives a signer exactly if it can be read and declared one of live video, and the normalized
/// definition has a live segment assertion that names a stream.
pub proof fn signer_is_created_exactly_if_a_stream_is_named(
    text: &str,
    r: Result<LiveVideoSigner, Error>,
)
    requires
        call_ensures(LiveVideoSigner::from_manifest_json, (text,), r),
    ensures
        r is Ok <==> exists|prepared: Json, manifest: Json, i: int|
            #[trigger] normalized_as(text@, prepared, manifest) && under(manifest, "assertions"@)
                is Some && under(manifest, "assertions"@)->Some_0 is Array
                && #[trigger] names_a_stream(
                under(manifest, "assertions"@)->Some_0->Array_0,
                i,
            ),
{
    if r is Ok {
        let manifest = normalized_manifest(text@)->Ok_0;
        normalizing_gives_the_normalized(text@);
        let prepared = choose|prepared: Json| #[trigger] normalized_as(text@, prepared, manifest);
        let all = manifest_assertions(manifest)->Ok_0;
        found_assertion_is_the_first(all, 0);
        let k = live_assertion_from(all, 0)->Some_0;
        assert(normalized_as(text@, prepared, manifest) && names_a_stream(
            under(manifest, "assertions"@)->Some_0->Array_0,
            k,
        ));
    }
    assert forall|prepared: Json, manifest: Json, i: int|
        #[trigger] normalized_as(text@, prepared, manifest) && under(manifest, "assertions"@)
            is Some && under(manifest, "assertions"@)->Some_0 is Array
            && #[trigger] names_a_stream(
            under(manifest, "assertions"@)->Some_0->Array_0,
            i,
        ) implies r is Ok by {
        declaration_is_unique(prepared, json_reading(text@)->Ok_0);
        first_assertion_is_found(under(manifest, "assertions"@)->Some_0->Array_0, i);
    }
}

/// A signer that is created from a definition has the state that the live segment assertion of the
/// normalized definition gives; the definition that it hands to the host for every segment is the
/// normalized one without that assertion, and with everything else.
pub proof fn signer_keeps_all_but_the_live_assertion(text: &str, r: Result<LiveVideoSigner, Error>)
    requires
        call_ensures(LiveVideoSigner::from_manifest_json, (text,), r),
        r is Ok,
    ensures
        exists|prepared: Json, manifest: Json, i: int, base: Json|
            #[trigger] normalized_as(text@, prepared, manifest) && #[trigger] gives_state(
                manifest,
                i,
                base,
                r->Ok_0@,
            ),
{
    let manifest = normalized_manifest(text@)->Ok_0;
    normalizing_gives_the_normalized(text@);
    state_comes_from_the_assertion(manifest);
    let prepared = choose|prepared: Json| #[trigger] normalized_as(text@, prepared, manifest);
    let (i, base) = choose|i: int, base: Json| #[trigger]
        gives_state(manifest, i, base, r->Ok_0@);
    assert(normalized_as(text@, prepared, manifest) && gives_state(manifest, i, base, r->Ok_0@));
}

// Writing the state back.

/// Whether one definition is another with a number, and a link where there is one, written into the
/// data of its live segment assertion: nothing else differs.
pub open spec fn carries_state(
    updated: Json,
    manifest: Json,
    i: int,
    number: u64,
    link: Option<Seq<char>>,
) -> bool {
    &&& updated is Object
    &&& under(manifest, "assertions"@) is Some
    &&& under(manifest, "assertions"@)->Some_0 is Array
    &&& under(updated, "assertions"@) is Some
    &&& under(updated, "assertions"@)->Some_0 is Array
    &&& forall|key: Seq<char>|
        key != "assertions"@ ==> #[trigger] under(updated, key) == under(manifest, key)
    &&& {
        let before = under(manifest, "assertions"@)->Some_0->Array_0;
        let after = under(updated, "assertions"@)->Some_0->Array_0;
        &&& live_assertion_at(before, i)
        &&& after.len() == before.len()
        &&& forall|k: int| 0 <= k < after.len() && k != i ==> #[trigger] after[k] == before[k]
        &&& forall|key: Seq<char>|
            key != "data"@ ==> #[trigger] under(after[i], key) == under(before[i], key)
        &&& under(after[i], "data"@) is Some
        &&& {
            let old_data = if under(before[i], "data"@) is Some {
                under(before[i], "data"@)->Some_0
            } else {
                Json::Null
            };
            let data = under(after[i], "data"@)->Some_0;
            &&& under(data, "nextSequenceNumber"@) == Some(Json::Unsigned(number))
            &&& link is Some ==> text_under(data, "previousManifestId"@) == link
            &&& link is None ==> under(data, "previousManifestId"@) == under(
                old_data,
                "previousManifestId"@,
            )
            &&& forall|key: Seq<char>|
                key != "nextSequenceNumber"@ && key != "previousManifestId"@ ==> #[trigger] under(
                    data,
                    key,
                ) == under(old_data, key)
        }
    }
}

proof fn continuing_carries_the_state(manifest: Json, link: Option<Seq<char>>, number: u64)
    ensures
        crate::signing::continued_manifest(manifest, link, number) matches Ok(updated) ==> exists|
            i: int,
        | #[trigger] carries_state(updated, manifest, i, number, link),
{
    match crate::signing::continued_manifest(manifest, link, number) {
        Err(_) => {},
        Ok(updated) => {
            reveal_strlit("nextSequenceNumber");
            reveal_strlit("previousManifestId");
            assert("nextSequenceNumber"@[0] != "previousManifestId"@[0]);
            let before = manifest_assertions(manifest)->Ok_0;
            let i = live_assertion_from(before, 0)->Some_0;
            found_assertion_is_the_first(before, 0);
            assert forall|key: Seq<char>| key != "assertions"@ implies #[trigger] under(
                updated,
                key,
            ) == under(manifest, key) by {}
            let item = crate::signing::continued_assertion(before[i], link, number);
            let after = under(updated, "assertions"@)->Some_0->Array_0;
            assert(after == before.update(i, item));
            assert forall|key: Seq<char>| key != "data"@ implies #[trigger] under(after[i], key)
                == under(before[i], key) by {}
            assert(carries_state(updated, manifest, i, number, link));
        },
    }
}

/// Writing the state of a signer into a definition changes the number and the link of its live segment
/// assertion, and nothing else that the normalized definition says.
pub proof fn only_the_state_is_written(
    signer: &LiveVideoSigner,
    text: &str,
    r: Result<String, Error>,
)
    requires
        call_ensures(LiveVideoSigner::updated_manifest_json, (signer, text), r),
        r is Ok,
    ensures
        exists|prepared: Json, manifest: Json, updated: Json, i: int|
            #[trigger] normalized_as(text@, prepared, manifest) && #[trigger] carries_state(
                updated,
                manifest,
                i,
                signer@.next_sequence_number,
                signer@.previous_manifest_id,
            ) && r->Ok_0@ == json_pretty_text(updated),
{
    let manifest = normalized_manifest(text@)->Ok_0;
    let number = signer@.next_sequence_number;
    let link = signer@.previous_manifest_id;
    normalizing_gives_the_normalized(text@);
    continuing_carries_the_state(manifest, link, number);
    let prepared = choose|prepared: Json| #[trigger] normalized_as(text@, prepared, manifest);
    let updated = crate::signing::continued_manifest(manifest, link, number)->Ok_0;
    let i = choose|i: int| #[trigger] carries_state(updated, manifest, i, number, link);
    assert(normalized_as(text@, prepared, manifest) && carries_state(
        updated,
        manifest,
        i,
        number,
        link,
    ));
}

/// Whether a definition has a live segment assertion at `i` whose data holds something else than fields.
pub open spec fn blocks_state(manifest: Json, i: int) -> bool {
    &&& under(manifest, "assertions"@) is Some
    &&& under(manifest, "assertions"@)->Some_0 is Array
    &&& live_assertion_at(under(manifest, "assertions"@)->Some_0->Array_0, i)
    &&& {
        let data = under(under(manifest, "assertions"@)->Some_0->Array_0[i], "data"@);
        data is Some && !(data->Some_0 is Null) && !(data->Some_0 is Object)
    }
}

/// Whether a definition has a live segment assertion at `i`.
pub open spec fn has_live_assertion(manifest: Json, i: int) -> bool {
    &&& under(manifest, "assertions"@) is Some
    &&& under(manifest, "assertions"@)->Some_0 is Array
    &&& live_assertion_at(under(manifest, "assertions"@)->Some_0->Array_0, i)
}

/// The state of a signer is not written exactly where the data of the live segment assertion holds
/// something else than fields; otherwise it is written exactly if the text can be normalized and has a
/// live segment assertion.
pub proof fn state_is_written_exactly_where_it_can_be(
    signer: &LiveVideoSigner,
    text: &str,
    r: Option<Result<String, Error>>,
)
    requires
        call_ensures(LiveVideoSigner::checked_updated_manifest_json, (signer, text), r),
    ensures
        r is None <==> exists|prepared: Json, manifest: Json, i: int|
            #[trigger] normalized_as(text@, prepared, manifest) && #[trigger] blocks_state(
                manifest,
                i,
            ),
        r is Some ==> (r->Some_0 is Ok <==> exists|prepared: Json, manifest: Json, i: int|
            #[trigger] normalized_as(text@, prepared, manifest) && #[trigger] has_live_assertion(
                manifest,
                i,
            )),
{
    assert forall|prepared: Json, manifest: Json| #[trigger]
        normalized_as(text@, prepared, manifest) implies normalized_manifest(text@) == Ok::<
        Json,
        Failure,
    >(manifest) by {
        declaration_is_unique(prepared, json_reading(text@)->Ok_0);
    }
    if normalized_manifest(text@) is Ok {
        let manifest = normalized_manifest(text@)->Ok_0;
        normalizing_gives_the_normalized(text@);
        let prepared = choose|prepared: Json| #[trigger] normalized_as(text@, prepared, manifest);
        if manifest_assertions(manifest) is Ok {
            let all = manifest_assertions(manifest)->Ok_0;
            found_assertion_is_the_first(all, 0);
            assert forall|i: int| #[trigger] live_assertion_at(all, i) implies live_assertion_from(
                all,
                0,
            ) == Some(i) by {
                first_assertion_is_found(all, i);
            }
            if live_assertion_from(all, 0) is Some {
                let k = live_assertion_from(all, 0)->Some_0;
                assert(live_assertion_at(all, k));
                assert(has_live_assertion(manifest, k));
                assert(blocks_state(manifest, k) == (r is None));
            }
        }
        assert(normalized_as(text@, prepared, manifest));
    }
}

// Signing.

/// Whether a report says that a segment carries a sound manifest with the given identifier: no status
/// speaks of a failure of its integrity, and the label is an identifier.
pub open spec fn sound_report(report: ManifestReport, id: Seq<char>) -> bool {
    &&& forall|i: int|
        0 <= i < report.statuses@.len() ==> (#[trigger] report.statuses@[i]).passed
            || !is_integrity_code(report.statuses@[i].code@)
    &&& report.label is Some
    &&& report.label->Some_0@ == id
    &&& id.len() > 9
    &&& id.take(9) == "urn:c2pa:"@
}

/// No status disqualifies a manifest exactly if each either passed or does not speak of integrity.
pub proof fn no_failure_means_sound(statuses: Seq<ReportedStatus>)
    ensures
        crate::manifest_report::first_integrity_failure(status_views(statuses)) is None <==> forall|
            i: int,
        |
            0 <= i < statuses.len() ==> (#[trigger] statuses[i]).passed || !is_integrity_code(
                statuses[i].code@,
            ),
{
    let views = status_views(statuses);
    let test = disqualifies();
    nothing_is_picked(views, test);
    if forall|j: int| 0 <= j < views.len() ==> !test(#[trigger] views[j]) {
        assert forall|i: int| 0 <= i < statuses.len() implies (#[trigger] statuses[i]).passed
            || !is_integrity_code(statuses[i].code@) by {
            assert(!test(views[i]));
        }
    }
    if forall|i: int|
        0 <= i < statuses.len() ==> (#[trigger] statuses[i]).passed || !is_integrity_code(
            statuses[i].code@,
        ) {
        assert forall|j: int| 0 <= j < views.len() implies !test(#[trigger] views[j]) by {
            assert(statuses[j].passed || !is_integrity_code(statuses[j].code@));
        }
    }
}

proof fn identifier_of_a_sound_report(report: ManifestReport, id: Seq<char>)
    ensures
        report.manifest_id() == Ok::<Seq<char>, Failure>(id) <==> sound_report(report, id),
{
    no_failure_means_sound(report.statuses@);
    crate::validation_laws::identifier_shape(id);
}

/// The identifier of a report is that of the sound manifest that it names, if it names one.
pub proof fn report_is_sound_or_not(report: ManifestReport)
    ensures
        report.manifest_id() is Ok ==> sound_report(report, report.manifest_id()->Ok_0),
        report.manifest_id() is Err ==> forall|id: Seq<char>| !(#[trigger] sound_report(report, id)),
{
    assert forall|id: Seq<char>| #[trigger] sound_report(report, id) implies report.manifest_id()
        is Ok by {
        identifier_of_a_sound_report(report, id);
    }
    if report.manifest_id() is Ok {
        identifier_of_a_sound_report(report, report.manifest_id()->Ok_0);
    }
}

/// The identifier of a signed segment is the label of its manifest, and none is given where a status
/// speaks of a failure of its integrity or the label is no identifier.
pub proof fn identifier_is_the_label_of_a_sound_manifest(
    report: &ManifestReport,
    r: Result<String, Error>,
)
    requires
        call_ensures(crate::manifest_report::extract_signed_manifest_id, (report,), r),
    ensures
        r is Ok ==> sound_report(*report, r->Ok_0@),
        r is Err ==> forall|id: Seq<char>| !(#[trigger] sound_report(*report, id)),
{
    assert forall|id: Seq<char>| #[trigger] sound_report(*report, id) implies r is Ok by {
        identifier_of_a_sound_report(*report, id);
    }
    if r is Ok {
        identifier_of_a_sound_report(*report, r->Ok_0@);
    }
}

/// A signed initialization segment is what the host made of the segment and the base definition; what
/// the host then read of it names a sound manifest, which becomes the link. Nothing else changes, and
/// nothing at all where signing fails.
pub proof fn signed_init_becomes_the_link<
    S: Fn(&str, &[u8]) -> Result<Vec<u8>, Error>,
    R: Fn(&[u8]) -> Result<ManifestReport, Error>,
>(
    signer: &mut LiveVideoSigner,
    segment: &[u8],
    sign: S,
    read: R,
    r: Result<Vec<u8>, Error>,
)
    requires
        call_ensures(
            LiveVideoSigner::sign_init_segment::<S, R>,
            (signer, segment, sign, read),
            r,
        ),
    ensures
        r is Err ==> final(signer)@ == old(signer)@,
        r is Ok ==> init_info(segment@) is Ok && (exists|definition: &str, data: &[u8]| #[trigger]
            call_ensures(sign, (definition, data), r) && definition@
                == old(signer)@.base_manifest_json && data@ == segment@) && (exists|
            data: &[u8],
            report: ManifestReport,
            id: Seq<char>,
        |
            #![trigger call_ensures(read, (data,), Ok::<ManifestReport, Error>(report)), sound_report(report, id)]
            call_ensures(read, (data,), Ok::<ManifestReport, Error>(report)) && data@
                == r->Ok_0@ && sound_report(report, id) && final(signer)@ == (LiveSignerState {
                previous_manifest_id: Some(id),
                ..old(signer)@
            })),
{
    if r is Ok {
        let signed = choose|signed: Result<Vec<u8>, Error>| #[trigger]
            init_embedding_outcome(old(signer)@.base_manifest_json, segment@, sign, signed)
                && signed is Ok && signed->Ok_0 == r->Ok_0 && exists|
                report: Result<ManifestReport, Error>,
            | #[trigger]
                reading_outcome(signed->Ok_0@, read, report) && report is Ok
                    && report->Ok_0.manifest_id() is Ok && final(signer)@
                    == crate::signing::linked(
                    old(signer)@,
                    report->Ok_0.manifest_id()->Ok_0,
                );
        assert(signed == r);
        let report = choose|report: Result<ManifestReport, Error>| #[trigger]
            reading_outcome(signed->Ok_0@, read, report) && report is Ok
                && report->Ok_0.manifest_id() is Ok && final(signer)@ == crate::signing::linked(
                old(signer)@,
                report->Ok_0.manifest_id()->Ok_0,
            );
        let id = report->Ok_0.manifest_id()->Ok_0;
        identifier_of_a_sound_report(report->Ok_0, id);
        assert(report == Ok::<ManifestReport, Error>(report->Ok_0));
        assert(sound_report(report->Ok_0, id));
    }
}

/// Where a signer takes up a signed initialization segment, what the host read of it names a sound
/// manifest, which becomes the link. Nothing else changes, and nothing at all where it is refused.
pub proof fn restored_init_becomes_the_link<R: Fn(&[u8]) -> Result<ManifestReport, Error>>(
    signer: &mut LiveVideoSigner,
    segment: &[u8],
    read: R,
    r: Result<(), Error>,
)
    requires
        call_ensures(LiveVideoSigner::restore_init_segment::<R>, (signer, segment, read), r),
    ensures
        r is Err ==> final(signer)@ == old(signer)@,
        r is Ok ==> init_info(segment@) is Ok && exists|
            data: &[u8],
            report: ManifestReport,
            id: Seq<char>,
        |
            #![trigger call_ensures(read, (data,), Ok::<ManifestReport, Error>(report)), sound_report(report, id)]
            call_ensures(read, (data,), Ok::<ManifestReport, Error>(report)) && data@ == segment@
                && sound_report(report, id) && final(signer)@ == (LiveSignerState {
                previous_manifest_id: Some(id),
                ..old(signer)@
            }),
{
    if r is Ok {
        let report = choose|report: Result<ManifestReport, Error>| #[trigger]
            reading_outcome(segment@, read, report) && report is Ok && report->Ok_0.manifest_id()
                is Ok && final(signer)@ == crate::signing::linked(
                old(signer)@,
                report->Ok_0.manifest_id()->Ok_0,
            );
        let id = report->Ok_0.manifest_id()->Ok_0;
        identifier_of_a_sound_report(report->Ok_0, id);
        assert(report == Ok::<ManifestReport, Error>(report->Ok_0));
        assert(sound_report(report->Ok_0, id));
    }
}

/// Whether a claim is the next of a signer: the number of the segment, the stream of the signer, and
/// the manifest that was signed last.
pub open spec fn continues_the_chain(
    claim: SegmentClaim,
    state: LiveSignerState,
    number: u32,
) -> bool {
    &&& claim.sequence_number == number
    &&& state.sequence_number_configured ==> state.next_sequence_number == number
    &&& claim.stream_id == state.stream_id
    &&& claim.continuity_method == ContinuityMethod::ManifestId
    &&& claim.previous_manifest_id is Some
    &&& claim.previous_manifest_id == state.previous_manifest_id
}

/// A signed media segment is what the host made of the segment, the base definition and the claim that
/// continues the chain; what the host then read of it names a sound manifest, which becomes the link,
/// and the number advances by one.
pub proof fn signed_segment_continues_the_chain<
    S: Fn(&str, &LiveVideoSegment, &[u8]) -> Result<Vec<u8>, Error>,
    R: Fn(&[u8]) -> Result<ManifestReport, Error>,
>(
    signer: &mut LiveVideoSigner,
    segment: &[u8],
    sign: S,
    read: R,
    r: Result<Vec<u8>, Error>,
)
    requires
        call_ensures(
            LiveVideoSigner::sign_media_segment::<S, R>,
            (signer, segment, sign, read),
            r,
        ),
        r is Ok,
    ensures
        media_sequence_number(segment@) is Some,
        exists|definition: &str, claim: &LiveVideoSegment, data: &[u8]| #[trigger]
            call_ensures(sign, (definition, claim, data), r) && definition@
                == old(signer)@.base_manifest_json && data@ == segment@ && continues_the_chain(
                claim@,
                old(signer)@,
                media_sequence_number(segment@)->Some_0,
            ),
        exists|data: &[u8], report: ManifestReport, id: Seq<char>|
            #![trigger call_ensures(read, (data,), Ok::<ManifestReport, Error>(report)), sound_report(report, id)]
            call_ensures(read, (data,), Ok::<ManifestReport, Error>(report)) && data@ == r->Ok_0@
                && sound_report(report, id) && final(signer)@ == (LiveSignerState {
                next_sequence_number: (media_sequence_number(segment@)->Some_0 + 1) as u64,
                sequence_number_configured: true,
                previous_manifest_id: Some(id),
                ..old(signer)@
            }),
{
    let state = old(signer)@;
    let claim = crate::signing::begun(state, segment@).1->Ok_0;
    let ready = crate::signing::begun(state, segment@).0;
    let signed = choose|signed: Result<Vec<u8>, Error>| #[trigger]
        media_embedding_outcome(state.base_manifest_json, claim, segment@, sign, signed)
            && signed is Ok && signed->Ok_0 == r->Ok_0 && exists|
            report: Result<ManifestReport, Error>,
        | #[trigger]
            reading_outcome(signed->Ok_0@, read, report) && report is Ok
                && crate::signing::completed(ready, report->Ok_0.manifest_id()) is Ok
                && final(signer)@ == crate::signing::completed(
                ready,
                report->Ok_0.manifest_id(),
            )->Ok_0;
    assert(signed == r);
    let report = choose|report: Result<ManifestReport, Error>| #[trigger]
        reading_outcome(signed->Ok_0@, read, report) && report is Ok && crate::signing::completed(
            ready,
            report->Ok_0.manifest_id(),
        ) is Ok && final(signer)@ == crate::signing::completed(
            ready,
            report->Ok_0.manifest_id(),
        )->Ok_0;
    let id = report->Ok_0.manifest_id()->Ok_0;
    identifier_of_a_sound_report(report->Ok_0, id);
    assert(report == Ok::<ManifestReport, Error>(report->Ok_0));
    assert(sound_report(report->Ok_0, id));
}

/// Whether a signer is as it was, but that it takes the number of a segment where it had none, has a
/// link, and can read one.
pub open spec fn takes_the_first_number(
    before: LiveSignerState,
    after: LiveSignerState,
    segment: Seq<u8>,
) -> bool {
    &&& after.previous_manifest_id == before.previous_manifest_id
    &&& after.stream_id == before.stream_id
    &&& after.base_manifest_json == before.base_manifest_json
    &&& if !before.sequence_number_configured && before.previous_manifest_id is Some
        && media_sequence_number(segment) is Some {
        after.sequence_number_configured && after.next_sequence_number == media_sequence_number(
            segment,
        )->Some_0
    } else {
        after == before
    }
}

/// A media segment that is refused, or that the host cannot sign, leaves the link and the stream as
/// they were; at most the number is taken from the segment, where the signer had none.
pub proof fn refused_segment_keeps_the_chain<
    S: Fn(&str, &LiveVideoSegment, &[u8]) -> Result<Vec<u8>, Error>,
    R: Fn(&[u8]) -> Result<ManifestReport, Error>,
>(
    signer: &mut LiveVideoSigner,
    segment: &[u8],
    sign: S,
    read: R,
    r: Result<Vec<u8>, Error>,
)
    requires
        call_ensures(
            LiveVideoSigner::sign_media_segment::<S, R>,
            (signer, segment, sign, read),
            r,
        ),
        r is Err,
    ensures
        takes_the_first_number(old(signer)@, final(signer)@, segment@),
{
}

/// A media segment is taken on exactly if its number can be read, a link is established and the number
/// is the next, where the signer has one; what it is to claim continues the chain.
pub proof fn segment_is_taken_on_exactly_if_next(
    signer: &mut LiveVideoSigner,
    segment: &[u8],
    r: Result<LiveVideoSegment, Error>,
)
    requires
        call_ensures(LiveVideoSigner::begin_media_segment, (signer, segment), r),
    ensures
        r is Ok <==> media_sequence_number(segment@) is Some
            && old(signer)@.previous_manifest_id is Some && (
        old(signer)@.sequence_number_configured ==> old(signer)@.next_sequence_number
            == media_sequence_number(segment@)->Some_0),
        r is Ok ==> continues_the_chain(
            r->Ok_0@,
            old(signer)@,
            media_sequence_number(segment@)->Some_0,
        ),
        takes_the_first_number(old(signer)@, final(signer)@, segment@),
{
}

} // verus!
