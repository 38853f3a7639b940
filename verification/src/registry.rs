use vstd::prelude::*;

use crate::manifest::manifest_digest;
use crate::pusher::{BlobStatus, EventView, PhaseView, PushView, ReceiptView};
use crate::step::{Action, BlobKind};

verus! {

/// A registry as far as a push can tell: the digests of the blobs it
/// holds, and the manifest digest that each reference points to.
pub struct RegistryModel {
    pub blobs: Set<Seq<char>>,
    pub tags: Map<Seq<char>, Seq<char>>,
}

/// How a registry that works, and that accepts the credential, answers a
/// request of the push `s`: the registry afterwards, and its report.
///
/// It finds the blobs it holds and no others, stores what is uploaded under
/// the digest of the bytes, and lets a tag point to the newest manifest.
pub open spec fn answer(registry: RegistryModel, s: PushView, action: Action) -> (
    RegistryModel,
    EventView,
) {
    match action {
        Action::Authenticate => (registry, EventView::AuthAccepted),
        Action::CheckBlob(kind) => if registry.blobs.contains(s.blob(kind).digest) {
            (registry, EventView::BlobFound { kind })
        } else {
            (registry, EventView::BlobMissing { kind })
        },
        Action::UploadBlob(kind) => (
            RegistryModel { blobs: registry.blobs.insert(s.blob(kind).digest), ..registry },
            EventView::BlobUploaded { kind, digest: s.blob(kind).digest },
        ),
        Action::PutManifest => (
            RegistryModel {
                tags: registry.tags.insert(
                    s.reference.whole(),
                    manifest_digest(s.config, s.layer),
                ),
                ..registry
            },
            EventView::ManifestAccepted,
        ),
    }
}

/// Where a push against a registry ended, and what it cost.
pub struct PushRun {
    pub registry: RegistryModel,
    pub state: PushView,
    /// The number of blob uploads.
    pub uploads: nat,
    /// The number of manifests published.
    pub manifest_puts: nat,
}

/// The push `s` carried on against `registry` for at most `budget`
/// requests: each time the first pending request is made and answered.
pub open spec fn drive(registry: RegistryModel, s: PushView, budget: nat) -> PushRun
    decreases budget,
{
    if budget == 0 || s.pending().len() == 0 {
        PushRun { registry, state: s, uploads: 0, manifest_puts: 0 }
    } else {
        let action = s.pending()[0];
        let (next, event) = answer(registry, s, action);
        let rest = drive(next, s.step(event), (budget - 1) as nat);
        PushRun {
            uploads: rest.uploads + if action is UploadBlob {
                1nat
            } else {
                0nat
            },
            manifest_puts: rest.manifest_puts + if action is PutManifest {
                1nat
            } else {
                0nat
            },
            ..rest
        }
    }
}

/// The most requests that a push makes: one authentication, a check and
/// an upload for each blob, one manifest.
pub open spec fn max_requests() -> nat {
    6
}

/// A whole push against a registry that works.
pub open spec fn push_to(registry: RegistryModel, s: PushView) -> PushRun {
    drive(registry, s, max_requests())
}

/// Against a registry that works, a push that starts from nothing
/// succeeds within six requests. It publishes exactly one manifest, under
/// the reference, and afterwards the registry holds both blobs. Its
/// receipt depends on the artifact and the reference alone.
pub proof fn lemma_push_succeeds(registry: RegistryModel, s: PushView)
    requires
        s.wf(),
        s.phase is Init,
    ensures
        ({
            let done = push_to(registry, s);
            &&& done.state.phase is ManifestPublished
            &&& done.state.receipt() == Some(
                ReceiptView {
                    target: s.reference.whole(),
                    manifest_digest: manifest_digest(s.config, s.layer),
                },
            )
            &&& done.manifest_puts == 1
            &&& done.uploads <= 2
            &&& done.registry.blobs == registry.blobs.insert(s.config.digest).insert(
                s.layer.digest,
            )
            &&& done.registry.tags == registry.tags.insert(
                s.reference.whole(),
                manifest_digest(s.config, s.layer),
            )
        }),
{
    reveal_with_fuel(drive, 7);
    let s1 = s.step(EventView::AuthAccepted);
    assert(s.pending()[0] == Action::Authenticate);
    lemma_blobs_then_manifest(registry, s1, 5);
    let done = push_to(registry, s);
    assert(done.registry.blobs =~= registry.blobs.insert(s.config.digest).insert(s.layer.digest));
}

/// From the opened session on: the blobs are confirmed, the config first,
/// with an upload for each that the registry lacks, and then the manifest
/// is published.
proof fn lemma_blobs_then_manifest(registry: RegistryModel, s: PushView, budget: nat)
    requires
        s.wf(),
        s.phase == (PhaseView::Authenticated {
            config: BlobStatus::Unchecked,
            layer: BlobStatus::Unchecked,
        }),
        budget >= 5,
    ensures
        ({
            let done = drive(registry, s, budget);
            let config_there = registry.blobs.contains(s.config.digest);
            let layer_there = registry.blobs.insert(s.config.digest).contains(s.layer.digest);
            &&& done.state == PushView { phase: PhaseView::ManifestPublished, ..s }
            &&& done.manifest_puts == 1
            &&& done.uploads == (if config_there {
                0nat
            } else {
                1nat
            }) + (if layer_there {
                0nat
            } else {
                1nat
            })
            &&& done.registry.blobs =~= registry.blobs.insert(s.config.digest).insert(
                s.layer.digest,
            )
            &&& done.registry.tags == registry.tags.insert(
                s.reference.whole(),
                manifest_digest(s.config, s.layer),
            )
        }),
{
    reveal_with_fuel(drive, 7);
    let config = BlobKind::Config;
    let layer = BlobKind::Layer;
    assert(s.pending()[0] == Action::CheckBlob(config));
    let (r1, e1) = answer(registry, s, Action::CheckBlob(config));
    let s1 = s.step(e1);
    // the config, checked and uploaded if need be
    let (r2, s2) = if registry.blobs.contains(s.config.digest) {
        (r1, s1)
    } else {
        assert(s1.pending()[0] == Action::UploadBlob(config));
        let (r, e) = answer(r1, s1, Action::UploadBlob(config));
        (r, s1.step(e))
    };
    assert(s2.status(config) == BlobStatus::Present);
    assert(s2.pending()[0] == Action::CheckBlob(layer));
    assert(r2.blobs =~= if registry.blobs.contains(s.config.digest) {
        registry.blobs
    } else {
        registry.blobs.insert(s.config.digest)
    });
    let (r3, e3) = answer(r2, s2, Action::CheckBlob(layer));
    let s3 = s2.step(e3);
    let (r4, s4) = if r2.blobs.contains(s.layer.digest) {
        (r3, s3)
    } else {
        assert(s3.pending()[0] == Action::UploadBlob(layer));
        let (r, e) = answer(r3, s3, Action::UploadBlob(layer));
        (r, s3.step(e))
    };
    assert(s4.phase is BlobsVerified);
    assert(s4.pending()[0] == Action::PutManifest);
    let (r5, e5) = answer(r4, s4, Action::PutManifest);
    let s5 = s4.step(e5);
    assert(s5.pending().len() == 0);
}

/// Idempotence. Pushing the same artifact to the same reference a second
/// time, by whomever, uploads no blob, since the registry holds both by
/// then; it publishes the manifest again, with the same digest as the
/// first time, and leaves the registry as the first push left it.
pub proof fn lemma_second_push_uploads_nothing(
    registry: RegistryModel,
    first_plan: PushView,
    second_plan: PushView,
)
    requires
        first_plan.wf(),
        first_plan.phase is Init,
        second_plan.wf(),
        second_plan.phase is Init,
        second_plan.reference == first_plan.reference,
        second_plan.config == first_plan.config,
        second_plan.layer == first_plan.layer,
    ensures
        ({
            let first = push_to(registry, first_plan);
            let second = push_to(first.registry, second_plan);
            &&& first.state.phase is ManifestPublished
            &&& second.state.phase is ManifestPublished
            &&& second.uploads == 0
            &&& second.manifest_puts == 1
            &&& second.state.receipt() == first.state.receipt()
            &&& second.registry == first.registry
        }),
{
    reveal_with_fuel(drive, 7);
    lemma_push_succeeds(registry, first_plan);
    let first = push_to(registry, first_plan);
    lemma_push_succeeds(first.registry, second_plan);
    assert(second_plan.pending()[0] == Action::Authenticate);
    lemma_blobs_then_manifest(first.registry, second_plan.step(EventView::AuthAccepted), 5);
    let second = push_to(first.registry, second_plan);
    assert(second.registry.blobs =~= first.registry.blobs);
    assert(second.registry.tags =~= first.registry.tags);
}

/// A registry that holds neither blob gets each uploaded exactly once,
/// and one manifest, provided that the two blobs differ in their digests.
pub proof fn lemma_fresh_push_uploads_both(registry: RegistryModel, s: PushView)
    requires
        s.wf(),
        s.phase is Init,
        !registry.blobs.contains(s.config.digest),
        !registry.blobs.contains(s.layer.digest),
        s.config.digest != s.layer.digest,
    ensures
        push_to(registry, s).uploads == 2,
        push_to(registry, s).manifest_puts == 1,
        push_to(registry, s).state.phase is ManifestPublished,
{
    reveal_with_fuel(drive, 7);
    lemma_push_succeeds(registry, s);
    assert(s.pending()[0] == Action::Authenticate);
    lemma_blobs_then_manifest(registry, s.step(EventView::AuthAccepted), 5);
}

} // verus!
