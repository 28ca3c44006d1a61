//! What the host reports of a signed manifest that it has read back.

use vstd::prelude::*;

use crate::error::{bad_param, bad_param_with, Error, Failure};
use crate::text::{has_text_prefix, same_text, text_starts_with};

verus! {

/// The prefix of a C2PA identifier.
pub const URN_PREFIX: &'static str = "urn:c2pa:";

/// The status code of a manifest with more than one hard binding.
pub const HARD_BINDINGS_MULTIPLE: &'static str = "assertion.multipleHardBindings";

/// Whether a text is a C2PA identifier: the prefix, and something behind it.
pub open spec fn is_c2pa_urn(id: Seq<char>) -> bool {
    has_text_prefix(id, URN_PREFIX@) && id != URN_PREFIX@
}

/// Whether a text is a C2PA identifier.
pub fn check_c2pa_urn(id: &str) -> (r: bool)
    ensures
        r == is_c2pa_urn(id@),
{
    text_starts_with(id, URN_PREFIX) && !same_text(id, URN_PREFIX)
}

/// Whether a status code speaks of the integrity of a manifest.
pub open spec fn is_integrity_code(code: Seq<char>) -> bool {
    ||| code == HARD_BINDINGS_MULTIPLE@
    ||| has_text_prefix(code, "signingCredential."@)
    ||| has_text_prefix(code, "claimSignature."@)
    ||| has_text_prefix(code, "timeStamp."@)
    ||| has_text_prefix(code, "claim.hardBindings."@)
    ||| has_text_prefix(code, "assertion.hashedURI."@)
    ||| has_text_prefix(code, "assertion.dataHash."@)
    ||| has_text_prefix(code, "assertion.bmffHash."@)
    ||| has_text_prefix(code, "assertion.boxesHash."@)
}

/// Whether a status code speaks of the integrity of a manifest, so that a failure with it
/// disqualifies the manifest.
pub fn is_manifest_integrity_failure(code: &str) -> (r: bool)
    ensures
        r == is_integrity_code(code@),
{
    same_text(code, HARD_BINDINGS_MULTIPLE) || text_starts_with(code, "signingCredential.")
        || text_starts_with(code, "claimSignature.") || text_starts_with(code, "timeStamp.")
        || text_starts_with(code, "claim.hardBindings.") || text_starts_with(
        code,
        "assertion.hashedURI.",
    ) || text_starts_with(code, "assertion.dataHash.") || text_starts_with(
        code,
        "assertion.bmffHash.",
    ) || text_starts_with(code, "assertion.boxesHash.")
}

/// One status of a validation: its code, and whether it speaks of success.
pub struct ReportedStatus {
    pub code: String,
    pub passed: bool,
}

/// What a vector of statuses stands for.
pub open spec fn status_views(statuses: Seq<ReportedStatus>) -> Seq<(Seq<char>, bool)> {
    Seq::new(statuses.len(), |i: int| (statuses[i].code@, statuses[i].passed))
}

/// The test that picks the statuses which disqualify a manifest.
pub open spec fn disqualifies() -> spec_fn((Seq<char>, bool)) -> bool {
    |status: (Seq<char>, bool)| !status.1 && is_integrity_code(status.0)
}

/// The code of the first status that disqualifies a manifest.
pub open spec fn first_integrity_failure(statuses: Seq<(Seq<char>, bool)>) -> Option<Seq<char>> {
    let failures = statuses.filter(disqualifies());
    if failures.len() == 0 {
        None
    } else {
        Some(failures[0].0)
    }
}

/// Finds the first status that disqualifies a manifest.
pub fn find_integrity_failure<'a>(statuses: &'a Vec<ReportedStatus>) -> (r: Option<&'a String>)
    ensures
        match first_integrity_failure(status_views(statuses@)) {
            Some(code) => r matches Some(found) && found@ == code,
            None => r is None,
        },
{
    let ghost all = status_views(statuses@);
    let mut i: usize = 0;
    proof {
        reveal(Seq::filter);
        assert(all.take(0).filter(disqualifies()).len() == 0);
    }
    while i < statuses.len()
        invariant
            i <= statuses@.len(),
            all == status_views(statuses@),
            all.take(i as int).filter(disqualifies()).len() == 0,
        decreases statuses@.len() - i,
    {
        let status = &statuses[i];
        proof {
            reveal(Seq::filter);
            assert(all.take(i + 1).drop_last() =~= all.take(i as int));
            assert(all.take(i + 1).last() == (status.code@, status.passed));
        }
        if !status.passed && is_manifest_integrity_failure(status.code.as_str()) {
            proof {
                let front = all.take(i + 1);
                let back = all.skip(i + 1);
                assert(front + back =~= all);
                Seq::filter_distributes_over_add(front, back, disqualifies());
            }
            return Some(&status.code);
        }
        i = i + 1;
    }
    assert(all.take(all.len() as int) =~= all);
    None
}

/// What was read back of a signed segment: the statuses of its validation, and the label of its
/// active manifest.
pub struct ManifestReport {
    pub statuses: Vec<ReportedStatus>,
    pub label: Option<String>,
}

/// What an optional text stands for.
pub open spec fn text_view(text: Option<String>) -> Option<Seq<char>> {
    match text {
        Some(t) => Some(t@),
        None => None,
    }
}

/// The identifier of the manifest of a signed live segment.
pub open spec fn signed_manifest_id(
    statuses: Seq<(Seq<char>, bool)>,
    label: Option<Seq<char>>,
) -> Result<Seq<char>, Failure> {
    match first_integrity_failure(statuses) {
        Some(code) => Err(
            Failure::BadParam("signed live manifest failed integrity validation: "@ + code),
        ),
        None => match label {
            None => Err(Failure::NotFound),
            Some(id) => if is_c2pa_urn(id) {
                Ok(id)
            } else {
                Err(Failure::BadParam("signed live manifest must have a non-empty urn:c2pa: label"@))
            },
        },
    }
}

impl ManifestReport {
    /// The identifier of the manifest that the report speaks of.
    pub open spec fn manifest_id(self) -> Result<Seq<char>, Failure> {
        signed_manifest_id(status_views(self.statuses@), text_view(self.label))
    }
}

/// Takes the identifier of a signed live segment from what was read back of it.
pub fn extract_signed_manifest_id(report: &ManifestReport) -> (r: Result<String, Error>)
    ensures
        match report.manifest_id() {
            Err(failure) => r matches Err(e) && e@ == failure,
            Ok(id) => r matches Ok(s) && s@ == id,
        },
{
    match find_integrity_failure(&report.statuses) {
        Some(code) => {
            return Err(
                bad_param_with(
                    "signed live manifest failed integrity validation: ",
                    code.as_str(),
                ),
            );
        },
        None => {},
    }
    match &report.label {
        None => Err(Error::NotFound),
        Some(id) => if check_c2pa_urn(id.as_str()) {
            Ok(id.clone())
        } else {
            Err(bad_param("signed live manifest must have a non-empty urn:c2pa: label"))
        },
    }
}

} // verus!
