//! Assertions whose content is settled while a manifest is being signed.

use std::slice::Iter;
use vstd::prelude::*;
use vstd::std_specs::iter::IteratorSpec;

use crate::error::Error;
use crate::segment_info::{HashedUri, HashedUriView};

verus! {

/// The content of a [`DynamicAssertion`].
pub enum DynamicAssertionContent {
    /// Encoded CBOR.
    Cbor(Vec<u8>),
    /// JSON text.
    Json(String),
    /// Bytes of a content type.
    ///
    /// Where the size of the content was reserved, such content is refused.
    Binary(String, Vec<u8>),
}

/// An assertion that can adjust its content to the other assertions of the manifest.
pub trait DynamicAssertion {
    /// The preferred label; a suffix may be added where several assertions prefer one label.
    fn label(&self) -> String;

    /// The expected size of the content in bytes.
    ///
    /// It is asked for where the size must be settled before the layout of the file.
    fn reserve_size(&self) -> Result<usize, Error>;

    /// The content, given the label that was assigned.
    ///
    /// Where `size` is given, the encoded content must have exactly that length; any padding must be
    /// part of the content. `claim` says what is known of the claim so far.
    fn content(&self, label: &str, size: Option<usize>, claim: &PartialClaim) -> Result<
        DynamicAssertionContent,
        Error,
    >;
}

/// What is known of a claim while its assertions are being settled.
#[derive(Debug, PartialEq, Eq)]
pub struct PartialClaim {
    assertion_uris: Vec<HashedUri>,
}

/// What a vector of references stands for.
pub open spec fn uri_views(uris: Seq<HashedUri>) -> Seq<HashedUriView> {
    Seq::new(uris.len(), |i: int| uris[i]@)
}

impl View for PartialClaim {
    type V = Seq<HashedUriView>;

    closed spec fn view(&self) -> Seq<HashedUriView> {
        uri_views(self.assertion_uris@)
    }
}

impl Default for PartialClaim {
    fn default() -> (r: Self)
        ensures
            r@ == Seq::<HashedUriView>::empty(),
    {
        let r = PartialClaim { assertion_uris: Vec::new() };
        assert(uri_views(r.assertion_uris@) =~= Seq::<HashedUriView>::empty());
        r
    }
}

impl PartialClaim {
    /// The assertions of the claim, in the order in which they were added.
    pub fn assertions(&self) -> (r: Iter<'_, HashedUri>)
        ensures
            uri_views(r.remaining().unref()) == self@,
    {
        let uris: &[HashedUri] = self.assertion_uris.as_slice();
        let r = uris.iter();
        assert(r.remaining().unref() =~= uris@);
        r
    }

    /// Adds an assertion.
    pub fn add_assertion(&mut self, assertion: &HashedUri)
        ensures
            final(self)@ == old(self)@.push(assertion@),
    {
        self.assertion_uris.push(assertion.copy());
        assert(uri_views(self.assertion_uris@) =~= uri_views(old(self).assertion_uris@).push(
            assertion@,
        ));
    }
}

} // verus!
