//! Dynamic assertions.

use live_video::dynamic_assertion::{DynamicAssertion, DynamicAssertionContent, PartialClaim};
use live_video::error::Error;
use live_video::segment_info::HashedUri;

fn uri(url: &str) -> HashedUri {
    HashedUri {
        url: url.to_string(),
        alg: Some("sha256".to_string()),
        hash: vec![1, 2, 3],
    }
}

/// An assertion that lists the other assertions.
struct Listing;

impl DynamicAssertion for Listing {
    fn label(&self) -> String {
        "test.listing".to_string()
    }

    fn reserve_size(&self) -> Result<usize, Error> {
        Ok(64)
    }

    fn content(
        &self,
        label: &str,
        _size: Option<usize>,
        claim: &PartialClaim,
    ) -> Result<DynamicAssertionContent, Error> {
        let urls: Vec<String> = claim.assertions().map(|uri| uri.url.clone()).collect();
        Ok(DynamicAssertionContent::Json(format!(
            "{label}:{}",
            urls.join(",")
        )))
    }
}

#[test]
fn partial_claim_keeps_assertions_in_order() {
    let mut claim = PartialClaim::default();
    assert_eq!(claim.assertions().count(), 0);
    claim.add_assertion(&uri("first"));
    claim.add_assertion(&uri("second"));
    let found: Vec<&HashedUri> = claim.assertions().collect();
    assert_eq!(found, vec![&uri("first"), &uri("second")]);
}

#[test]
fn dynamic_assertion_sees_the_claim() {
    let mut claim = PartialClaim::default();
    claim.add_assertion(&uri("a"));
    claim.add_assertion(&uri("b"));
    let content = Listing.content(&Listing.label(), None, &claim).unwrap();
    assert!(matches!(content, DynamicAssertionContent::Json(text) if text == "test.listing:a,b"));
    assert_eq!(Listing.reserve_size(), Ok(64));
}
