//! Manifest definitions for live video.

use live_video::live_manifest::prepare_live_manifest_json;

#[test]
fn live_manifest_injects_spec_version_without_overwriting_generator() {
    let json = prepare_live_manifest_json(
        r#"{"claim_generator_info":[{"name":"caller","version":"1"}],"assertions":[]}"#,
    )
    .unwrap();
    let value: serde_json::Value = serde_json::from_str(&json).unwrap();
    let info = &value["claim_generator_info"][0];
    assert_eq!(info["name"], "caller");
    assert_eq!(info["specVersion"], "2.4");
}

#[test]
fn live_manifest_rejects_conflicting_spec_version() {
    let error = prepare_live_manifest_json(
        r#"{"claim_generator_info":[{"name":"caller","specVersion":"2.3"}]}"#,
    )
    .unwrap_err();
    assert!(error.message().contains("conflicts"));
}

#[test]
fn live_manifest_names_a_generator_where_there_is_none() {
    for definition in [r#"{}"#, r#"{"claim_generator_info":[]}"#] {
        let json = prepare_live_manifest_json(definition).unwrap();
        assert_eq!(
            json,
            r#"{"claim_generator_info":[{"name":"live_video","specVersion":"2.4","version":"0.1.0"}]}"#
        );
    }
}

#[test]
fn live_manifest_is_its_own_normal_form() {
    let once = prepare_live_manifest_json(
        r#"{"title":"x","n":-3,"f":1.5,"claim_generator_info":[{"name":"a"},{"name":"b"}]}"#,
    )
    .unwrap();
    assert_eq!(prepare_live_manifest_json(&once).unwrap(), once);
    let value: serde_json::Value = serde_json::from_str(&once).unwrap();
    assert_eq!(value["title"], "x");
    assert_eq!(value["claim_generator_info"][1]["name"], "b");
    assert!(value["claim_generator_info"][1].get("specVersion").is_none());
}

#[test]
fn live_manifest_refusals() {
    let message = |text: &str| prepare_live_manifest_json(text).unwrap_err().message();
    assert!(message("{").starts_with("invalid manifest JSON: "));
    assert_eq!(message("[]"), "manifest JSON must be an object");
    assert_eq!(
        message(r#"{"claim_version":1}"#),
        "live video requires claim_version 2 for C2PA 2.4"
    );
    assert_eq!(
        message(r#"{"claim_generator_info":{}}"#),
        "claim_generator_info must be an array for live video"
    );
    assert_eq!(
        message(r#"{"claim_generator_info":["x"]}"#),
        "the first claim_generator_info entry must be an object"
    );
    assert_eq!(
        message(r#"{"claim_generator_info":[{"specVersion":2.4}]}"#),
        "live video claim_generator_info specVersion conflicts with required value 2.4"
    );
    assert!(prepare_live_manifest_json(r#"{"claim_version":"two"}"#).is_ok());
    assert!(prepare_live_manifest_json(r#"{"claim_version":2}"#).is_ok());
}
