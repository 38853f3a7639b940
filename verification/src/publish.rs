use vstd::prelude::*;

use crate::artifact::{component_metadata, listing_view, ArtifactPackager};
use crate::describe::{ComponentListing, ListingView};
use crate::digest::sha256_digest;
use crate::registry::{lemma_second_push_uploads_nothing, push_to, RegistryModel};
use crate::blob::{blob_of, CONFIG_MEDIA_TYPE, LAYER_MEDIA_TYPE};
use crate::credential::{Credential, CredentialView};
use crate::error::{AuthError, PublishError, PublishErrorView, PushError, PushErrorView};
use crate::pusher::{PushView, RegistryPusher};
use crate::reference::{composed_path, reference_fault, ReferenceBuilder, ReferenceView};

verus! {

/// What an inspection gave, with each text as a sequence.
pub open spec fn inspection_view(inspection: Result<Vec<u8>, String>) -> Result<
    Seq<u8>,
    Seq<char>,
> {
    match inspection {
        Ok(metadata) => Ok(metadata@),
        Err(reason) => Err(reason@),
    }
}

/// The first reason, if any, for which a publication cannot start: a bad
/// reference, then a payload that is no artifact, then a missing user name.
pub open spec fn publish_fault(
    registry: Seq<char>,
    repository: Seq<char>,
    name: Seq<char>,
    tag: Seq<char>,
    inspection: Result<Seq<u8>, Seq<char>>,
    username: Seq<char>,
) -> Option<PublishErrorView> {
    if let Some(e) = reference_fault(registry, repository, name, tag) {
        Some(PublishErrorView::InvalidReference(e))
    } else if let Err(reason) = inspection {
        Some(PublishErrorView::InvalidArtifact(reason))
    } else if username.len() == 0 {
        Some(PublishErrorView::Push(PushErrorView::Auth(AuthError::EmptyUsername)))
    } else {
        None
    }
}

/// The push that a publication starts with.
pub open spec fn planned_push(
    registry: Seq<char>,
    repository: Seq<char>,
    name: Seq<char>,
    tag: Seq<char>,
    payload: Seq<u8>,
    metadata: Seq<u8>,
    username: Seq<char>,
    token: Seq<char>,
) -> PushView {
    PushView::initial(
        ReferenceView { registry, repository: composed_path(repository, name), tag },
        blob_of(CONFIG_MEDIA_TYPE@, metadata),
        blob_of(LAYER_MEDIA_TYPE@, payload),
        CredentialView { username, secret: token },
    )
}

/// Plans the publication of `payload`, with what its inspection gave, as
/// `registry/repository/name:tag`, in the name of `username`.
///
/// Gives the push, not yet started, or the first fault of the inputs.
pub fn prepare_inspected(
    payload: Vec<u8>,
    inspection: Result<Vec<u8>, String>,
    registry: &str,
    repository: &str,
    name: &str,
    tag: &str,
    username: &str,
    token: &str,
) -> (result: Result<RegistryPusher, PublishError>)
    ensures
        match result {
            Ok(pusher) => {
                &&& publish_fault(
                    registry@,
                    repository@,
                    name@,
                    tag@,
                    inspection_view(inspection),
                    username@,
                ) is None
                &&& inspection matches Ok(metadata) && pusher@ == planned_push(
                    registry@,
                    repository@,
                    name@,
                    tag@,
                    payload@,
                    metadata@,
                    username@,
                    token@,
                )
                &&& pusher@.wf()
            },
            Err(e) => publish_fault(
                registry@,
                repository@,
                name@,
                tag@,
                inspection_view(inspection),
                username@,
            ) == Some(e@),
        },
{
    let reference = match ReferenceBuilder::build(registry, repository, name, tag) {
        Ok(reference) => reference,
        Err(e) => {
            return Err(PublishError::InvalidReference(e));
        },
    };
    let (config, layer) = match ArtifactPackager::assemble(payload, inspection) {
        Ok(blobs) => blobs,
        Err(e) => {
            return Err(PublishError::InvalidArtifact(e));
        },
    };
    let credential = match Credential::of(username, token) {
        Ok(credential) => credential,
        Err(e) => {
            return Err(PublishError::Push(PushError::Auth(e)));
        },
    };
    Ok(RegistryPusher::new(reference, config, layer, credential))
}

/// What the inspection of `payload` gave, as the content of the config.
pub open spec fn inspected(payload: Seq<u8>, inspection: Result<ListingView, Seq<char>>) -> Result<
    Seq<u8>,
    Seq<char>,
> {
    match inspection {
        Ok(listing) => Ok(component_metadata(payload, listing)),
        Err(reason) => Err(reason),
    }
}

/// The push that the publication of the component `payload` starts with,
/// where its inspection found the names of `listing`.
pub open spec fn plan_of(
    registry: Seq<char>,
    repository: Seq<char>,
    name: Seq<char>,
    tag: Seq<char>,
    payload: Seq<u8>,
    listing: ListingView,
    username: Seq<char>,
    token: Seq<char>,
) -> PushView {
    planned_push(
        registry,
        repository,
        name,
        tag,
        payload,
        component_metadata(payload, listing),
        username,
        token,
    )
}

/// Plans the publication of `payload`, with what its inspection gave, as
/// `registry/repository/name:tag`, in the name of `username`.
///
/// The plan is made exactly when the reference is valid, the inspection
/// found a component and the user name is not empty; its blobs depend on
/// the payload and on the names found. Otherwise the first fault is
/// reported: a bad reference, then the inspection's reason, then a missing
/// user name.
pub fn prepare(
    payload: Vec<u8>,
    inspection: Result<ComponentListing, String>,
    registry: &str,
    repository: &str,
    name: &str,
    tag: &str,
    username: &str,
    token: &str,
) -> (result: Result<RegistryPusher, PublishError>)
    ensures
        match result {
            Ok(pusher) => {
                &&& publish_fault(
                    registry@,
                    repository@,
                    name@,
                    tag@,
                    inspected(payload@, listing_view(inspection)),
                    username@,
                ) is None
                &&& inspection matches Ok(listing) && pusher@ == plan_of(
                    registry@,
                    repository@,
                    name@,
                    tag@,
                    payload@,
                    listing@,
                    username@,
                    token@,
                )
                &&& pusher@.wf()
            },
            Err(e) => publish_fault(
                registry@,
                repository@,
                name@,
                tag@,
                inspected(payload@, listing_view(inspection)),
                username@,
            ) == Some(e@),
        },
{
    if let Err(e) = ReferenceBuilder::build(registry, repository, name, tag) {
        return Err(PublishError::InvalidReference(e));
    }
    let metadata = ArtifactPackager::inspect(&payload, inspection);
    prepare_inspected(payload, metadata, registry, repository, name, tag, username, token)
}

/// A plan is a function of the inputs: two plans of the same payload for
/// the same reference, from inspections that found the same names in
/// whatever order, hold the same config blob and the same layer blob,
/// whoever pushes. So the digests that the registry is asked about are the
/// same both times.
pub proof fn lemma_plans_agree(
    registry: Seq<char>,
    repository: Seq<char>,
    name: Seq<char>,
    tag: Seq<char>,
    payload: Seq<u8>,
    first: (ListingView, Seq<char>, Seq<char>),
    second: (ListingView, Seq<char>, Seq<char>),
)
    requires
        first.0.imports.to_multiset() == second.0.imports.to_multiset(),
        first.0.exports.to_multiset() == second.0.exports.to_multiset(),
    ensures
        ({
            let one = plan_of(registry, repository, name, tag, payload, first.0, first.1, first.2);
            let other = plan_of(
                registry,
                repository,
                name,
                tag,
                payload,
                second.0,
                second.1,
                second.2,
            );
            &&& one.config == other.config
            &&& one.layer == other.layer
            &&& one.reference == other.reference
            &&& one.config.digest == sha256_digest(component_metadata(payload, first.0))
            &&& one.layer.digest == sha256_digest(payload)
        }),
{
}

/// Idempotence. After the component `payload` was published under a
/// reference, publishing the same payload under the same reference again
/// uploads no blob, and publishes a manifest with the same digest.
pub proof fn lemma_republication_uploads_nothing(
    model: RegistryModel,
    registry: Seq<char>,
    repository: Seq<char>,
    name: Seq<char>,
    tag: Seq<char>,
    payload: Seq<u8>,
    first: (ListingView, Seq<char>, Seq<char>),
    second: (ListingView, Seq<char>, Seq<char>),
)
    requires
        reference_fault(registry, repository, name, tag) is None,
        first.0.imports.to_multiset() == second.0.imports.to_multiset(),
        first.0.exports.to_multiset() == second.0.exports.to_multiset(),
        first.1.len() > 0,
        second.1.len() > 0,
    ensures
        ({
            let once = push_to(
                model,
                plan_of(registry, repository, name, tag, payload, first.0, first.1, first.2),
            );
            let again = push_to(
                once.registry,
                plan_of(registry, repository, name, tag, payload, second.0, second.1, second.2),
            );
            &&& once.state.phase is ManifestPublished
            &&& again.state.phase is ManifestPublished
            &&& again.uploads == 0
            &&& again.manifest_puts == 1
            &&& again.state.receipt() == once.state.receipt()
            &&& again.registry == once.registry
        }),
{
    let one = plan_of(registry, repository, name, tag, payload, first.0, first.1, first.2);
    let other = plan_of(registry, repository, name, tag, payload, second.0, second.1, second.2);
    lemma_second_push_uploads_nothing(model, one, other);
}

} // verus!
