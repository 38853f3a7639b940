use vstd::prelude::*;

use crate::blob::{blob_of, BlobView, Layer, ManifestConfig, CONFIG_MEDIA_TYPE, LAYER_MEDIA_TYPE};
use crate::error::InvalidArtifactError;
use crate::describe::{
    description_encoding, description_with, ComponentDescription, ComponentListing, ListingView,
};
use crate::digest::{compute_digest, sha256_digest};

verus! {

/// `config` and `layer` are the two blobs of the artifact whose bytes are
/// `payload` and whose description is `metadata`.
pub open spec fn packaged(
    payload: Seq<u8>,
    metadata: Seq<u8>,
    config: BlobView,
    layer: BlobView,
) -> bool {
    &&& config == blob_of(CONFIG_MEDIA_TYPE@, metadata)
    &&& layer == blob_of(LAYER_MEDIA_TYPE@, payload)
}

/// The content of the manifest config of the component `payload` whose
/// interface holds the names of `listing`.
pub open spec fn component_metadata(payload: Seq<u8>, listing: ListingView) -> Seq<u8> {
    description_encoding(description_with(sha256_digest(payload), listing))
}

/// What the inspection of a payload gave, with each text as a sequence.
pub open spec fn listing_view(inspection: Result<ComponentListing, String>) -> Result<
    ListingView,
    Seq<char>,
> {
    match inspection {
        Ok(listing) => Ok(listing@),
        Err(reason) => Err(reason@),
    }
}

/// Turns the bytes of a Wasm component into the two blobs of an artifact.
pub struct ArtifactPackager;

impl ArtifactPackager {
    /// Packages `payload` with what its inspection gave: the description of
    /// the component, or the reason for which it is none.
    pub fn assemble(payload: Vec<u8>, inspection: Result<Vec<u8>, String>) -> (result: Result<
        (ManifestConfig, Layer),
        InvalidArtifactError,
    >)
        ensures
            match result {
                Ok((config, layer)) => inspection matches Ok(metadata) && packaged(
                    payload@,
                    metadata@,
                    config@,
                    layer@,
                ),
                Err(e) => inspection matches Err(reason) && e@ == reason@,
            },
    {
        match inspection {
            Ok(metadata) => Ok((ManifestConfig::new(metadata), Layer::new(payload))),
            Err(reason) => Err(InvalidArtifactError { reason }),
        }
    }

    /// Describes the component `payload` whose inspection found the names
    /// of `listing`: the digest of the bytes, and the names in the order of
    /// a description.
    pub fn describe_listed(payload: &Vec<u8>, listing: ComponentListing) -> (description:
        ComponentDescription)
        ensures
            description@ == description_with(sha256_digest(payload@), listing@),
    {
        ComponentDescription::of(compute_digest(payload), listing)
    }

    /// The content of the manifest config of `payload`, from what its
    /// inspection gave: the names that it found, or the reason for which
    /// the bytes are no component, which is passed on.
    pub fn inspect(payload: &Vec<u8>, inspection: Result<ComponentListing, String>) -> (result:
        Result<Vec<u8>, String>)
        ensures
            match result {
                Ok(metadata) => inspection matches Ok(listing) && metadata@ == component_metadata(
                    payload@,
                    listing@,
                ),
                Err(reason) => inspection matches Err(given) && reason@ == given@,
            },
    {
        match inspection {
            Ok(listing) => Ok(Self::describe_listed(payload, listing).encode()),
            Err(reason) => Err(reason),
        }
    }

    /// Packages `payload` with what its inspection gave.
    ///
    /// Where the inspection found a component, the layer holds the payload
    /// itself and the config holds the description, which depends on the
    /// payload and on the names found, not on their order. Where it found
    /// none, the payload is refused with the inspection's reason.
    pub fn package(payload: Vec<u8>, inspection: Result<ComponentListing, String>) -> (result:
        Result<(ManifestConfig, Layer), InvalidArtifactError>)
        ensures
            match result {
                Ok((config, layer)) => inspection matches Ok(listing) && packaged(
                    payload@,
                    component_metadata(payload@, listing@),
                    config@,
                    layer@,
                ),
                Err(e) => inspection matches Err(reason) && e@ == reason@,
            },
    {
        let metadata = Self::inspect(&payload, inspection);
        Self::assemble(payload, metadata)
    }
}

/// Packaging is deterministic: the two blobs of a component depend on its
/// bytes and on the names that its inspection found, in whatever order it
/// found them. So two packagings of the same bytes agree in both digests.
pub proof fn lemma_packaging_deterministic(
    payload: Seq<u8>,
    first_listing: ListingView,
    second_listing: ListingView,
    first: (BlobView, BlobView),
    second: (BlobView, BlobView),
)
    requires
        first_listing.imports.to_multiset() == second_listing.imports.to_multiset(),
        first_listing.exports.to_multiset() == second_listing.exports.to_multiset(),
        packaged(payload, component_metadata(payload, first_listing), first.0, first.1),
        packaged(payload, component_metadata(payload, second_listing), second.0, second.1),
    ensures
        first.0.digest == second.0.digest,
        first.1.digest == second.1.digest,
        first == second,
{
}

} // verus!
