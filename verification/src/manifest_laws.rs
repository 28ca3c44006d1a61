//! What normalizing a live manifest keeps.

use vstd::prelude::*;

use crate::error::Failure;
use crate::json::{field_or_null, is_readable, nests, same_but_fractions, Json};
use crate::json_laws::{
    field_is_within_limits, field_keeps_limits, item_keeps_limits, likeness_keeps_fields,
    likeness_keeps_items, likeness_keeps_simple_values,
};
use crate::live_manifest::{
    declared_generator, default_generator, generator_entries, live_manifest, NAME, SPEC_VERSION,
    VERSION,
};

verus! {

/// A normalized definition is its own normal form.
pub proof fn normalizing_twice_changes_nothing(manifest: Json)
    requires
        live_manifest(manifest) is Ok,
    ensures
        live_manifest(live_manifest(manifest)->Ok_0) == live_manifest(manifest),
{
    reveal_strlit("claim_version");
    reveal_strlit("claim_generator_info");
    let prepared = live_manifest(manifest)->Ok_0;
    let entries = generator_entries(manifest)->Some_0;
    let first = declared_generator(entries[0])->Ok_0;
    let declared = entries.update(0, first);
    assert("claim_version"@.len() != "claim_generator_info"@.len());
    assert(prepared.field("claim_version"@) == manifest.field("claim_version"@));
    assert(generator_entries(prepared) == Some(declared));
    assert(declared_generator(first) == Ok::<Json, Failure>(first));
    assert(declared.update(0, first) =~= declared);
    assert(prepared.open_fields().insert("claim_generator_info"@, Json::Array(declared))
        =~= prepared.open_fields());
}

/// Normalizing declares the required version in the first generator entry and keeps everything
/// else that the definition says: the other fields, the other generator entries, and the other
/// fields of the first entry.
pub proof fn normalizing_only_declares(manifest: Json, key: Seq<char>)
    requires
        live_manifest(manifest) is Ok,
    ensures
        key != "claim_generator_info"@ ==> live_manifest(manifest)->Ok_0.field(key)
            == manifest.field(key),
        live_manifest(manifest)->Ok_0.field("claim_generator_info"@) matches Some(
            Json::Array(declared),
        ) && generator_entries(manifest) matches Some(entries) && {
            &&& declared.len() == entries.len() >= 1
            &&& forall|i: int| 1 <= i < entries.len() ==> declared[i] == entries[i]
            &&& declared[0].field("specVersion"@) == Some(Json::Text(SPEC_VERSION@))
            &&& key != "specVersion"@ ==> declared[0].field(key) == entries[0].field(key)
        },
{
}

/// A definition that declares another version is refused.
pub proof fn conflicting_declaration_is_refused(manifest: Json, version: Json)
    requires
        generator_entries(manifest) matches Some(entries) && entries[0].field("specVersion"@)
            == Some(version),
        version != Json::Text(SPEC_VERSION@),
    ensures
        live_manifest(manifest) is Err,
{
}

/// What differs from a normalized definition in fractional numbers at most is normalized too.
pub proof fn likeness_keeps_the_normal_form(a: Json, b: Json)
    requires
        same_but_fractions(a, b),
        live_manifest(b) == Ok::<Json, Failure>(b),
    ensures
        live_manifest(a) == Ok::<Json, Failure>(a),
{
    let infos = "claim_generator_info"@;
    let entries = generator_entries(b)->Some_0;
    let first = declared_generator(entries[0])->Ok_0;
    assert(b.field(infos) == Some(Json::Array(entries.update(0, first))));
    assert(entries.update(0, first).len() == entries.len());
    assert(b.field(infos) == Some(Json::Array(entries)));
    assert(entries.update(0, first)[0] == first);
    assert(entries[0] == first);
    assert(first.field("specVersion"@) == Some(Json::Text(SPEC_VERSION@)));

    likeness_keeps_simple_values(a, b);
    likeness_keeps_fields(a, b, "claim_version"@);
    if a.field("claim_version"@) is Some {
        likeness_keeps_simple_values(
            a.field("claim_version"@)->Some_0,
            b.field("claim_version"@)->Some_0,
        );
    }
    likeness_keeps_fields(a, b, infos);
    likeness_keeps_simple_values(a.field(infos)->Some_0, Json::Array(entries));
    let found = a.field(infos)->Some_0->Array_0;
    likeness_keeps_items(found, entries);
    assert(same_but_fractions(found[0], entries[0]));
    likeness_keeps_simple_values(found[0], entries[0]);
    likeness_keeps_fields(found[0], entries[0], "specVersion"@);
    likeness_keeps_simple_values(
        found[0].field("specVersion"@)->Some_0,
        Json::Text(SPEC_VERSION@),
    );
    assert(found.update(0, found[0]) =~= found);
    assert(a.open_fields().insert(infos, Json::Array(found)) =~= a.open_fields());
}

/// Normalizing keeps a definition within the limit on nesting.
pub proof fn normalizing_keeps_limits(manifest: Json)
    requires
        is_readable(manifest),
        live_manifest(manifest) is Ok,
    ensures
        is_readable(live_manifest(manifest)->Ok_0),
{
    let infos = "claim_generator_info"@;
    let entries = generator_entries(manifest)->Some_0;
    let first = declared_generator(entries[0])->Ok_0;
    let generator = default_generator();
    assert(nests(generator, 126, false)) by {
        let named = Json::Null.with_field("name"@, Json::Text(NAME@));
        field_keeps_limits(Json::Null, "name"@, Json::Text(NAME@), 126, false);
        field_keeps_limits(named, "version"@, Json::Text(VERSION@), 126, false);
    }
    assert(nests(Json::Array(entries), 127, false)) by {
        field_is_within_limits(manifest, infos, 128, false);
        assert(manifest.field(infos) is Some ==> field_or_null(manifest, infos)
            == manifest.field(infos)->Some_0);
    }
    assert(nests(entries[0], 126, false));
    field_keeps_limits(entries[0], "specVersion"@, Json::Text(SPEC_VERSION@), 126, false);
    item_keeps_limits(entries, 0, first, 127, false);
    field_keeps_limits(manifest, infos, Json::Array(entries.update(0, first)), 128, false);
}

} // verus!
