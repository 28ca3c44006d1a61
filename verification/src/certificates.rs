//! Certificate chains: the `pem` call that the library makes.

use vstd::prelude::*;

verus! {

/// What a vector of byte vectors stands for.
pub open spec fn byte_views(items: Seq<Vec<u8>>) -> Seq<Seq<u8>> {
    Seq::new(items.len(), |i: int| items[i]@)
}

/// The contents of the blocks of a PEM text, in order, or the words of the refusal.
pub uninterp spec fn pem_contents(text: Seq<char>) -> Result<Seq<Seq<u8>>, Seq<char>>;

/// Reads the blocks of a PEM text with `pem::parse_many` and takes their contents.
///
/// What is read depends on the text alone.
#[verifier::external_body]
pub(crate) fn parse_pem_contents(text: &str) -> (r: Result<Vec<Vec<u8>>, String>)
    ensures
        match pem_contents(text@) {
            Ok(contents) => r matches Ok(v) && byte_views(v@) == contents,
            Err(words) => r matches Err(e) && e@ == words,
        },
{
    let blocks = pem::parse_many(text).map_err(|e| e.to_string())?;
    Ok(blocks.into_iter().map(pem::Pem::into_contents).collect())
}

} // verus!
