use vstd::prelude::*;

verus! {

/// The content digest of a byte string: the text `sha256:` followed by the
/// lower-case hexadecimal SHA-256 hash of the bytes.
pub uninterp spec fn sha256_digest(content: Seq<u8>) -> Seq<char>;

/// Calls `oci_client::client::ImageLayer::sha256_digest` on a layer that
/// holds `content`. The contract gives the returned text a name; that the
/// same bytes always hash to the same text is all that is assumed of it.
#[verifier::external_body]
pub(crate) fn compute_digest(content: &Vec<u8>) -> (digest: String)
    ensures
        digest@ == sha256_digest(content@),
{
    oci_client::client::ImageLayer::new(content.clone(), String::new(), None).sha256_digest()
}

} // verus!
