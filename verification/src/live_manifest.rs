//! Manifest definitions for live video.
//!
//! A live manifest declares `specVersion` 2.4 in its first generator entry. Normalizing a definition
//! adds that declaration where it is missing and refuses a conflicting one.

use vstd::prelude::*;

use crate::error::{bad_param, bad_param_with, Error, Failure};
use crate::json::{
    is_readable, json_array, json_as_str, json_as_u64, json_get, json_is_object, json_items_mut, json_null,
    json_of, json_pretty_text, json_reading, json_slot, json_string, json_text, jsons_of,
    parse_json, reads_back, same_but_fractions, write_json, Json,
};
use crate::manifest_laws::likeness_keeps_the_normal_form;
use crate::text::same_text;

verus! {

/// The generator name that is declared where the definition names none.
pub const NAME: &'static str = "live_video";

/// The generator version that is declared where the definition names none.
pub const VERSION: &'static str = "0.1.0";

/// The `specVersion` that live video requires.
pub const SPEC_VERSION: &'static str = "2.4";

/// The generator entry that is declared where the definition names none.
pub open spec fn default_generator() -> Json {
    Json::Null.with_field("name"@, Json::Text(NAME@)).with_field("version"@, Json::Text(VERSION@))
}

/// The generator entries of a definition, at least one.
pub open spec fn generator_entries(manifest: Json) -> Option<Seq<Json>> {
    match manifest.field("claim_generator_info"@) {
        None => Some(seq![default_generator()]),
        Some(Json::Array(items)) => if items.len() == 0 {
            Some(seq![default_generator()])
        } else {
            Some(items)
        },
        Some(_) => None,
    }
}

/// A generator entry with the declaration that live video requires.
pub open spec fn declared_generator(entry: Json) -> Result<Json, Failure> {
    if !(entry is Object) {
        Err(Failure::BadParam("the first claim_generator_info entry must be an object"@))
    } else {
        match entry.field("specVersion"@) {
            None => Ok(entry.with_field("specVersion"@, Json::Text(SPEC_VERSION@))),
            Some(version) => if version == Json::Text(SPEC_VERSION@) {
                Ok(entry)
            } else {
                Err(
                    Failure::BadParam(
                        "live video claim_generator_info specVersion conflicts with required value 2.4"@,
                    ),
                )
            },
        }
    }
}

/// A manifest definition with the declaration that live video requires.
pub open spec fn live_manifest(manifest: Json) -> Result<Json, Failure> {
    let version = match manifest.field("claim_version"@) {
        Some(v) => v.as_unsigned(),
        None => None,
    };
    if !(manifest is Object) {
        Err(Failure::BadParam("manifest JSON must be an object"@))
    } else if version is Some && version != Some(2u64) {
        Err(Failure::BadParam("live video requires claim_version 2 for C2PA 2.4"@))
    } else {
        match generator_entries(manifest) {
            None => Err(
                Failure::BadParam("claim_generator_info must be an array for live video"@),
            ),
            Some(entries) => match declared_generator(entries[0]) {
                Err(e) => Err(e),
                Ok(first) => Ok(
                    manifest.with_field(
                        "claim_generator_info"@,
                        Json::Array(entries.update(0, first)),
                    ),
                ),
            },
        }
    }
}

/// The text of a manifest definition with the declaration that live video requires.
pub open spec fn live_manifest_text(text: Seq<char>) -> Result<Seq<char>, Failure> {
    match json_reading(text) {
        Err(words) => Err(Failure::BadParam("invalid manifest JSON: "@ + words)),
        Ok(manifest) => match live_manifest(manifest) {
            Err(e) => Err(e),
            Ok(prepared) => Ok(json_text(prepared)),
        },
    }
}

fn generator_value() -> (r: serde_json::Value)
    ensures
        json_of(r) == default_generator(),
{
    let mut value = json_null();
    *json_slot(&mut value, "name") = json_string(NAME.to_string());
    *json_slot(&mut value, "version") = json_string(VERSION.to_string());
    value
}

/// Adds the declaration that live video requires to a generator entry.
fn declare_generator(entry: &mut serde_json::Value) -> (r: Result<(), Error>)
    ensures
        match declared_generator(json_of(*old(entry))) {
            Err(failure) => r matches Err(e) && e@ == failure,
            Ok(declared) => r is Ok && json_of(*final(entry)) == declared,
        },
{
    if !json_is_object(entry) {
        return Err(bad_param("the first claim_generator_info entry must be an object"));
    }
    let declared: Option<bool> = match json_get(entry, "specVersion") {
        None => None,
        Some(version) => match json_as_str(version) {
            None => Some(false),
            Some(text) => Some(same_text(text, SPEC_VERSION)),
        },
    };
    match declared {
        Some(true) => Ok(()),
        Some(false) => Err(
            bad_param(
                "live video claim_generator_info specVersion conflicts with required value 2.4",
            ),
        ),
        None => {
            *json_slot(entry, "specVersion") = json_string(SPEC_VERSION.to_string());
            Ok(())
        },
    }
}

/// Adds the declaration that live video requires to a manifest definition.
///
/// A conflicting declaration is refused, never overwritten.
pub fn prepare_live_manifest(manifest: serde_json::Value) -> (r: Result<serde_json::Value, Error>)
    ensures
        match live_manifest(json_of(manifest)) {
            Err(failure) => r matches Err(e) && e@ == failure,
            Ok(prepared) => r matches Ok(v) && json_of(v) == prepared,
        },
{
    let mut value = manifest;
    if !json_is_object(&value) {
        return Err(bad_param("manifest JSON must be an object"));
    }
    match json_get(&value, "claim_version") {
        None => {},
        Some(version) => match json_as_u64(version) {
            None => {},
            Some(version) => {
                if version != 2 {
                    return Err(bad_param("live video requires claim_version 2 for C2PA 2.4"));
                }
            },
        },
    }
    let ghost entries = generator_entries(json_of(manifest));
    if json_get(&value, "claim_generator_info").is_none() {
        *json_slot(&mut value, "claim_generator_info") = json_array(Vec::new());
    }
    let ghost opened = json_of(value);
    let infos = json_slot(&mut value, "claim_generator_info");
    let items = match json_items_mut(infos) {
        Some(items) => items,
        None => {
            return Err(bad_param("claim_generator_info must be an array for live video"));
        },
    };
    if items.len() == 0 {
        items.push(generator_value());
    }
    proof {
        assert(entries is Some);
        assert(jsons_of(items@) =~= entries->Some_0);
    }
    let ghost before = jsons_of(items@);
    declare_generator(&mut items[0])?;
    proof {
        assert(jsons_of(items@) =~= before.update(0, json_of(items@[0])));
    }
    proof {
        assert(opened.open_fields().insert(
            "claim_generator_info"@,
            json_of(value).open_fields()["claim_generator_info"@],
        ) =~= json_of(manifest).open_fields().insert(
            "claim_generator_info"@,
            json_of(value).open_fields()["claim_generator_info"@],
        ));
    }
    Ok(value)
}

/// Normalizes the text of a manifest definition to the declaration that live video requires.
pub fn prepare_live_manifest_json(manifest_json: &str) -> (r: Result<String, Error>)
    ensures
        match live_manifest_text(manifest_json@) {
            Err(failure) => r matches Err(e) && e@ == failure,
            Ok(text) => r matches Ok(s) && s@ == text,
        },
        forall|manifest: Json|
            reads_back(manifest) && manifest_json@ == #[trigger] json_pretty_text(manifest)
                ==> match live_manifest(manifest) {
                Err(failure) => r matches Err(e) && e@ == failure,
                Ok(prepared) => r matches Ok(s) && s@ == json_text(prepared),
            },
        r matches Ok(s) ==> exists|read: Json|
            is_readable(read) && (#[trigger] live_manifest(read) matches Ok(prepared) && s@
                == json_text(prepared)) && forall|manifest: Json|
                is_readable(manifest) && manifest_json@ == #[trigger] json_pretty_text(manifest)
                    ==> same_but_fractions(read, manifest),
        forall|manifest: Json|
            is_readable(manifest) && live_manifest(manifest) == Ok::<Json, Failure>(manifest)
                && manifest_json@ == #[trigger] json_pretty_text(manifest) ==> r is Ok,
{
    let value = match parse_json(manifest_json) {
        Ok(value) => value,
        Err(words) => {
            return Err(bad_param_with("invalid manifest JSON: ", words.as_str()));
        },
    };
    proof {
        assert forall|manifest: Json|
            is_readable(manifest) && live_manifest(manifest) == Ok::<Json, Failure>(manifest)
                && manifest_json@ == #[trigger] json_pretty_text(manifest) implies live_manifest(
            json_of(value),
        ) is Ok by {
            likeness_keeps_the_normal_form(json_of(value), manifest);
        }
    }
    let prepared = prepare_live_manifest(value)?;
    match write_json(&prepared) {
        Ok(text) => Ok(text),
        Err(words) => Err(
            bad_param_with("failed to serialize live manifest JSON: ", words.as_str()),
        ),
    }
}

} // verus!
