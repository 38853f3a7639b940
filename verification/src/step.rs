use vstd::prelude::*;

verus! {

/// The two blobs of an artifact.
#[derive(Clone, Copy, Debug, PartialEq, Eq, Structural)]
pub enum BlobKind {
    /// The manifest config blob.
    Config,
    /// The content layer blob.
    Layer,
}

/// One request of the push protocol, for the transport to carry out.
#[derive(Clone, Copy, Debug, PartialEq, Eq, Structural)]
pub enum Action {
    /// Open an authenticated session for the repository.
    Authenticate,
    /// Ask whether the registry holds the blob, by its digest.
    CheckBlob(BlobKind),
    /// Upload the blob and report the digest that the registry computed.
    UploadBlob(BlobKind),
    /// Publish the manifest under the reference's tag.
    PutManifest,
}

} // verus!
