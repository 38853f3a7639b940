use std::collections::{HashMap, HashSet};

use oci_publish::blob::{Blob, Layer, ManifestConfig};
use oci_publish::credential::Credential;
use oci_publish::describe::ComponentListing;
use oci_publish::error::{
    AuthError, DigestMismatchError, InvalidReferenceError, ManifestPublishError, PublishError,
    PushError, TransportError,
};
use oci_publish::manifest::Manifest;
use oci_publish::publish::{prepare, prepare_inspected};
use oci_publish::pusher::{BlobStatus, Event, Phase, PushReceipt, RegistryPusher};
use oci_publish::reference::ReferenceBuilder;
use oci_publish::report::{digest_reported_at, UNAUTHORIZED};
use oci_publish::step::{Action, BlobKind};

const CONFIG: BlobKind = BlobKind::Config;
const LAYER: BlobKind = BlobKind::Layer;

/// An empty Wasm component, padded with a custom section to `len` bytes.
fn component_of(len: usize) -> Vec<u8> {
    let mut bytes = vec![0x00, 0x61, 0x73, 0x6d, 0x0d, 0x00, 0x01, 0x00];
    let section = len - bytes.len() - 3;
    assert!((128..16384).contains(&section));
    bytes.push(0x00);
    bytes.push((section & 0x7f) as u8 | 0x80);
    bytes.push((section >> 7) as u8);
    bytes.push(3);
    bytes.extend_from_slice(b"pad");
    bytes.resize(len, 0);
    bytes
}

/// What `oci_wasm` finds in the bytes.
fn listing_of(payload: &[u8]) -> Result<ComponentListing, String> {
    match oci_wasm::Component::from_raw_component(payload) {
        Ok(component) => {
            Ok(ComponentListing { imports: component.imports, exports: component.exports })
        }
        Err(e) => Err(format!("{e:#}")),
    }
}

/// A registry in memory that counts what is asked of it.
#[derive(Default)]
struct Registry {
    users: HashMap<String, String>,
    blobs: HashSet<String>,
    tags: HashMap<String, String>,
    corrupts: Option<BlobKind>,
    drops: Option<Action>,
    refuses_manifests: Option<u16>,
    log: Vec<Action>,
}

impl Registry {
    fn with_user(username: &str, secret: &str) -> Registry {
        let mut registry = Registry::default();
        registry.users.insert(username.to_string(), secret.to_string());
        registry
    }

    fn count(&self, wanted: fn(&Action) -> bool) -> usize {
        self.log.iter().filter(|action| wanted(action)).count()
    }

    fn uploads(&self) -> usize {
        self.count(|action| matches!(action, Action::UploadBlob(_)))
    }

    fn checks(&self) -> usize {
        self.count(|action| matches!(action, Action::CheckBlob(_)))
    }

    fn manifest_puts(&self) -> usize {
        self.count(|action| matches!(action, Action::PutManifest))
    }

    fn serve(&mut self, pusher: &RegistryPusher, action: Action) -> Event {
        self.log.push(action);
        if self.drops == Some(action) {
            return Event::TransportFailed { during: action, message: "connection reset".into() };
        }
        match action {
            Action::Authenticate => {
                let credential = pusher.credential();
                if self.users.get(credential.username()).map(String::as_str)
                    == Some(credential.secret())
                {
                    Event::AuthAccepted
                } else {
                    Event::AuthRejected { during: action, status: 401 }
                }
            }
            Action::CheckBlob(kind) => {
                if self.blobs.contains(pusher.blob(kind).digest()) {
                    Event::BlobFound { kind }
                } else {
                    Event::BlobMissing { kind }
                }
            }
            Action::UploadBlob(kind) => {
                let mut content = pusher.blob(kind).content().clone();
                if self.corrupts == Some(kind) {
                    content.push(0);
                }
                let digest = Blob::new("", content).digest().to_string();
                self.blobs.insert(digest.clone());
                Event::BlobUploaded { kind, digest }
            }
            Action::PutManifest => {
                if let Some(status) = self.refuses_manifests {
                    return Event::ManifestRejected { status };
                }
                let manifest = pusher.manifest().unwrap();
                assert!(self.blobs.contains(&manifest.config.digest));
                assert!(manifest.layers.iter().all(|layer| self.blobs.contains(&layer.digest)));
                self.tags.insert(pusher.reference().whole(), manifest.digest());
                Event::ManifestAccepted
            }
        }
    }
}

/// Carries the push through, one pending request after the other.
fn drive(pusher: &mut RegistryPusher, registry: &mut Registry) -> Result<PushReceipt, PushError> {
    loop {
        if let Some(outcome) = pusher.outcome() {
            assert!(pusher.pending().is_empty());
            return outcome;
        }
        let action = pusher.pending()[0];
        assert!(pusher.enabled(action));
        let event = registry.serve(pusher, action);
        pusher.handle(event);
    }
}

fn greeter_as(username: &str, secret: &str) -> RegistryPusher {
    let payload = component_of(2048);
    let inspection = listing_of(&payload);
    prepare(
        payload,
        inspection,
        "registry.example.com",
        "skills",
        "greeter",
        "v1",
        username,
        secret,
    )
    .unwrap()
}

fn greeter() -> RegistryPusher {
    greeter_as("alice", "s3cret")
}

fn small_pusher() -> RegistryPusher {
    RegistryPusher::new(
        ReferenceBuilder::build("registry.example.com", "skills", "greeter", "v1").unwrap(),
        ManifestConfig::new(b"{}".to_vec()),
        Layer::new(b"hello world".to_vec()),
        Credential::of("alice", "s3cret").ok().unwrap(),
    )
}

fn digest_of(pusher: &RegistryPusher, kind: BlobKind) -> String {
    pusher.blob(kind).digest().to_string()
}

#[test]
fn publish_uploads_both_blobs_and_one_manifest() {
    let mut registry = Registry::with_user("alice", "s3cret");
    let mut pusher = greeter();
    assert_eq!(pusher.blob(LAYER).size(), 2048);
    let receipt = drive(&mut pusher, &mut registry).unwrap();
    assert_eq!(
        registry.log,
        vec![
            Action::Authenticate,
            Action::CheckBlob(CONFIG),
            Action::UploadBlob(CONFIG),
            Action::CheckBlob(LAYER),
            Action::UploadBlob(LAYER),
            Action::PutManifest,
        ]
    );
    assert_eq!(registry.uploads(), 2);
    assert_eq!(registry.manifest_puts(), 1);
    assert_eq!(receipt.target, "registry.example.com/skills/greeter:v1");
    assert_eq!(registry.tags.len(), 1);
    assert_eq!(
        registry.tags.get("registry.example.com/skills/greeter:v1"),
        Some(&receipt.manifest_digest)
    );
    assert_eq!(receipt.manifest_digest, pusher.manifest().unwrap().digest());
    assert_eq!(pusher.phase(), &Phase::ManifestPublished);
    assert!(registry.blobs.contains(pusher.blob(CONFIG).digest()));
    assert!(registry.blobs.contains(pusher.blob(LAYER).digest()));
}

#[test]
fn publish_with_rejected_credentials_fails_before_any_blob_operation() {
    let mut registry = Registry::with_user("alice", "s3cret");
    let mut pusher = greeter_as("alice", "wrong");
    let failure = drive(&mut pusher, &mut registry).err();
    assert_eq!(failure, Some(PushError::Auth(AuthError::Rejected { status: 401 })));
    assert_eq!(registry.log, vec![Action::Authenticate]);
    assert_eq!(registry.checks(), 0);
    assert_eq!(registry.uploads(), 0);
    assert_eq!(registry.manifest_puts(), 0);
    assert!(registry.blobs.is_empty());
    assert!(registry.tags.is_empty());
    assert!(pusher.pending().is_empty());
    assert!(pusher.manifest().is_none());
}

#[test]
fn second_push_uploads_nothing_and_gives_the_same_digest() {
    let mut registry = Registry::with_user("alice", "s3cret");
    let first = drive(&mut small_pusher(), &mut registry).unwrap();
    assert_eq!(registry.uploads(), 2);
    registry.log.clear();
    let second = drive(&mut small_pusher(), &mut registry).unwrap();
    assert_eq!(registry.uploads(), 0);
    assert_eq!(registry.checks(), 2);
    assert_eq!(registry.manifest_puts(), 1);
    assert_eq!(second.manifest_digest, first.manifest_digest);
    assert_eq!(second, first);
    assert_eq!(registry.tags.len(), 1);
}

#[test]
fn only_the_missing_blob_is_uploaded() {
    let mut registry = Registry::with_user("alice", "s3cret");
    let mut pusher = small_pusher();
    registry.blobs.insert(digest_of(&pusher, CONFIG));
    drive(&mut pusher, &mut registry).unwrap();
    assert_eq!(
        registry.log,
        vec![
            Action::Authenticate,
            Action::CheckBlob(CONFIG),
            Action::CheckBlob(LAYER),
            Action::UploadBlob(LAYER),
            Action::PutManifest,
        ]
    );
}

#[test]
fn digest_mismatch_aborts_without_a_manifest() {
    for kind in [CONFIG, LAYER] {
        let mut registry = Registry::with_user("alice", "s3cret");
        registry.corrupts = Some(kind);
        let mut pusher = small_pusher();
        let failure = drive(&mut pusher, &mut registry).err().unwrap();
        let mut corrupted = pusher.blob(kind).content().clone();
        corrupted.push(0);
        assert_eq!(
            failure,
            PushError::DigestMismatch(DigestMismatchError {
                blob: kind,
                expected: digest_of(&pusher, kind),
                actual: Blob::new("", corrupted).digest().to_string(),
            })
        );
        assert_eq!(registry.manifest_puts(), 0);
        assert!(registry.tags.is_empty());
        assert!(pusher.manifest().is_none());
        assert!(!pusher.enabled(Action::PutManifest));
    }
}

#[test]
fn a_fault_in_either_blob_step_prevents_the_manifest() {
    let faults = [
        Action::CheckBlob(CONFIG),
        Action::UploadBlob(CONFIG),
        Action::CheckBlob(LAYER),
        Action::UploadBlob(LAYER),
    ];
    for fault in faults {
        let mut registry = Registry::with_user("alice", "s3cret");
        registry.drops = Some(fault);
        let mut pusher = small_pusher();
        let failure = drive(&mut pusher, &mut registry).err();
        assert_eq!(
            failure,
            Some(PushError::Transport(TransportError {
                during: fault,
                message: "connection reset".to_string(),
            }))
        );
        assert_eq!(registry.manifest_puts(), 0);
        assert_eq!(registry.log.last(), Some(&fault));
        assert!(registry.tags.is_empty());
    }
}

#[test]
fn the_manifest_is_not_allowed_before_both_blobs_are_confirmed() {
    let mut pusher = small_pusher();
    assert!(!pusher.enabled(Action::PutManifest));
    assert!(pusher.manifest().is_none());
    pusher.handle(Event::ManifestAccepted);
    assert_eq!(pusher.phase(), &Phase::Init);
    pusher.handle(Event::AuthAccepted);
    assert!(!pusher.enabled(Action::PutManifest));
    pusher.handle(Event::ManifestAccepted);
    assert_eq!(
        pusher.phase(),
        &Phase::Authenticated { config: BlobStatus::Unchecked, layer: BlobStatus::Unchecked }
    );
    pusher.handle(Event::BlobFound { kind: CONFIG });
    assert!(!pusher.enabled(Action::PutManifest));
    assert!(pusher.manifest().is_none());
    assert_eq!(pusher.pending(), vec![Action::CheckBlob(LAYER)]);
    pusher.handle(Event::ManifestAccepted);
    assert!(pusher.outcome().is_none());
    pusher.handle(Event::BlobFound { kind: LAYER });
    assert_eq!(pusher.phase(), &Phase::BlobsVerified);
    assert_eq!(pusher.pending(), vec![Action::PutManifest]);
    assert!(pusher.manifest().is_some());
    assert!(pusher.outcome().is_none());
}

#[test]
fn the_two_blobs_do_not_wait_for_each_other() {
    let mut pusher = small_pusher();
    pusher.handle(Event::AuthAccepted);
    assert_eq!(pusher.pending(), vec![Action::CheckBlob(CONFIG), Action::CheckBlob(LAYER)]);
    pusher.handle(Event::BlobMissing { kind: LAYER });
    assert_eq!(pusher.status(LAYER), BlobStatus::Absent);
    assert_eq!(pusher.status(CONFIG), BlobStatus::Unchecked);
    assert_eq!(pusher.pending(), vec![Action::CheckBlob(CONFIG), Action::UploadBlob(LAYER)]);
    pusher.handle(Event::BlobMissing { kind: CONFIG });
    assert_eq!(pusher.pending(), vec![Action::UploadBlob(CONFIG), Action::UploadBlob(LAYER)]);
    let layer = digest_of(&pusher, LAYER);
    pusher.handle(Event::BlobUploaded { kind: LAYER, digest: layer });
    assert_eq!(pusher.status(LAYER), BlobStatus::Present);
    assert_eq!(pusher.pending(), vec![Action::UploadBlob(CONFIG)]);
    let config = digest_of(&pusher, CONFIG);
    pusher.handle(Event::BlobUploaded { kind: CONFIG, digest: config });
    assert_eq!(pusher.phase(), &Phase::BlobsVerified);
    assert_eq!(pusher.status(CONFIG), BlobStatus::Present);
    pusher.handle(Event::ManifestAccepted);
    assert_eq!(pusher.phase(), &Phase::ManifestPublished);
    assert!(pusher.pending().is_empty());
}

#[test]
fn an_event_that_answers_no_pending_request_is_ignored() {
    let mut pusher = small_pusher();
    let digest = digest_of(&pusher, CONFIG);
    for event in [
        Event::BlobFound { kind: CONFIG },
        Event::BlobMissing { kind: LAYER },
        Event::BlobUploaded { kind: CONFIG, digest: "sha256:00".to_string() },
        Event::ManifestRejected { status: 500 },
        Event::TransportFailed { during: Action::PutManifest, message: "late".to_string() },
    ] {
        pusher.handle(event);
        assert_eq!(pusher.phase(), &Phase::Init);
    }
    pusher.handle(Event::AuthAccepted);
    pusher.handle(Event::AuthRejected { during: Action::Authenticate, status: 401 });
    pusher.handle(Event::BlobUploaded { kind: CONFIG, digest: "sha256:00".to_string() });
    assert_eq!(
        pusher.phase(),
        &Phase::Authenticated { config: BlobStatus::Unchecked, layer: BlobStatus::Unchecked }
    );
    pusher.handle(Event::BlobFound { kind: CONFIG });
    pusher.handle(Event::BlobMissing { kind: CONFIG });
    pusher.handle(Event::BlobUploaded { kind: CONFIG, digest });
    assert_eq!(pusher.status(CONFIG), BlobStatus::Present);
    assert_eq!(pusher.pending(), vec![Action::CheckBlob(LAYER)]);
}

#[test]
fn a_push_that_is_over_stays_as_it_is() {
    let mut pusher = small_pusher();
    pusher.handle(Event::AuthRejected { during: Action::Authenticate, status: 403 });
    let failed = Phase::Failed(PushError::Auth(AuthError::Rejected { status: 403 }));
    assert_eq!(pusher.phase(), &failed);
    let digest = digest_of(&pusher, LAYER);
    for event in [
        Event::AuthAccepted,
        Event::BlobFound { kind: CONFIG },
        Event::BlobUploaded { kind: LAYER, digest },
        Event::ManifestAccepted,
        Event::TransportFailed { during: Action::Authenticate, message: "late".to_string() },
    ] {
        pusher.handle(event);
        assert_eq!(pusher.phase(), &failed);
        assert!(pusher.pending().is_empty());
    }
    assert_eq!(pusher.status(CONFIG), BlobStatus::Unchecked);

    let mut registry = Registry::with_user("alice", "s3cret");
    let mut done = small_pusher();
    let receipt = drive(&mut done, &mut registry).unwrap();
    done.handle(Event::ManifestRejected { status: 500 });
    done.handle(Event::TransportFailed { during: Action::PutManifest, message: "x".to_string() });
    assert_eq!(done.outcome(), Some(Ok(receipt)));
    assert_eq!(done.status(CONFIG), BlobStatus::Present);
}

#[test]
fn a_refused_manifest_fails_the_push() {
    let mut registry = Registry::with_user("alice", "s3cret");
    registry.refuses_manifests = Some(413);
    let mut pusher = small_pusher();
    let failure = drive(&mut pusher, &mut registry).err();
    assert_eq!(
        failure,
        Some(PushError::ManifestPublish(ManifestPublishError {
            target: "registry.example.com/skills/greeter:v1".to_string(),
            status: 413,
        }))
    );
    assert_eq!(registry.uploads(), 2);
    assert_eq!(registry.manifest_puts(), 1);
    assert!(registry.tags.is_empty());
}

#[test]
fn a_transport_failure_names_the_request() {
    for during in [Action::Authenticate, Action::PutManifest] {
        let mut registry = Registry::with_user("alice", "s3cret");
        registry.drops = Some(during);
        let failure = drive(&mut small_pusher(), &mut registry).err();
        assert_eq!(
            failure,
            Some(PushError::Transport(TransportError {
                during,
                message: "connection reset".to_string(),
            }))
        );
        assert!(registry.tags.is_empty());
    }
}

#[test]
fn the_uploaded_digest_must_match_exactly() {
    let mut pusher = small_pusher();
    pusher.handle(Event::AuthAccepted);
    pusher.handle(Event::BlobMissing { kind: LAYER });
    let expected = digest_of(&pusher, LAYER);
    let actual = expected.to_uppercase();
    pusher.handle(Event::BlobUploaded { kind: LAYER, digest: actual.clone() });
    assert_eq!(
        pusher.outcome(),
        Some(Err(PushError::DigestMismatch(DigestMismatchError {
            blob: LAYER,
            expected,
            actual,
        })))
    );
}

#[test]
fn events_answer_their_requests() {
    assert_eq!(Event::AuthAccepted.answers(), Action::Authenticate);
    assert_eq!(
        Event::AuthRejected { during: Action::Authenticate, status: 401 }.answers(),
        Action::Authenticate
    );
    assert_eq!(
        Event::AuthRejected { during: Action::CheckBlob(LAYER), status: 403 }.answers(),
        Action::CheckBlob(LAYER)
    );
    assert_eq!(Event::BlobFound { kind: CONFIG }.answers(), Action::CheckBlob(CONFIG));
    assert_eq!(Event::BlobMissing { kind: LAYER }.answers(), Action::CheckBlob(LAYER));
    assert_eq!(
        Event::BlobUploaded { kind: LAYER, digest: String::new() }.answers(),
        Action::UploadBlob(LAYER)
    );
    assert_eq!(Event::ManifestAccepted.answers(), Action::PutManifest);
    assert_eq!(Event::ManifestRejected { status: 500 }.answers(), Action::PutManifest);
    assert_eq!(
        Event::TransportFailed { during: Action::UploadBlob(CONFIG), message: String::new() }
            .answers(),
        Action::UploadBlob(CONFIG)
    );
}

#[test]
fn a_new_push_holds_what_it_was_given() {
    let pusher = small_pusher();
    assert_eq!(pusher.phase(), &Phase::Init);
    assert_eq!(pusher.pending(), vec![Action::Authenticate]);
    assert!(pusher.enabled(Action::Authenticate));
    assert!(!pusher.enabled(Action::CheckBlob(CONFIG)));
    assert!(!pusher.enabled(Action::UploadBlob(LAYER)));
    assert_eq!(pusher.reference().whole(), "registry.example.com/skills/greeter:v1");
    assert_eq!(pusher.credential().username(), "alice");
    assert_eq!(pusher.credential().secret(), "s3cret");
    assert_eq!(pusher.blob(CONFIG).content(), &b"{}".to_vec());
    assert_eq!(pusher.blob(LAYER).content(), &b"hello world".to_vec());
    assert!(pusher.outcome().is_none());
    assert_eq!(pusher.status(CONFIG), BlobStatus::Unchecked);
}

#[test]
fn the_manifest_of_a_push_is_that_of_its_blobs() {
    let mut pusher = small_pusher();
    pusher.handle(Event::AuthAccepted);
    pusher.handle(Event::BlobFound { kind: CONFIG });
    pusher.handle(Event::BlobFound { kind: LAYER });
    let expected =
        Manifest::of(&ManifestConfig::new(b"{}".to_vec()), &Layer::new(b"hello world".to_vec()));
    assert_eq!(pusher.manifest(), Some(expected));
}

#[test]
fn prepare_plans_the_push() {
    let pusher = greeter();
    assert_eq!(pusher.phase(), &Phase::Init);
    assert_eq!(pusher.reference().registry(), "registry.example.com");
    assert_eq!(pusher.reference().repository(), "skills/greeter");
    assert_eq!(pusher.reference().tag(), "v1");
    assert_eq!(pusher.blob(LAYER).content(), &component_of(2048));
    assert_eq!(pusher.credential().username(), "alice");
    assert_eq!(pusher.credential().secret(), "s3cret");
}

#[test]
fn prepare_reports_the_first_fault() {
    let junk = listing_of(b"junk");
    assert!(junk.is_err());
    let bad_reference =
        prepare(b"junk".to_vec(), junk.clone(), "r", "Skills", "greeter", "v1", "", "");
    assert_eq!(
        bad_reference.err(),
        Some(PublishError::InvalidReference(InvalidReferenceError::RepositorySyntax { at: 0 }))
    );
    let bad_artifact =
        prepare(b"junk".to_vec(), junk.clone(), "r", "skills", "greeter", "v1", "", "");
    match bad_artifact.err() {
        Some(PublishError::InvalidArtifact(e)) => assert_eq!(Err(e.reason), junk),
        other => panic!("unexpected: {other:?}"),
    }
    let payload = component_of(2048);
    let found = listing_of(&payload);
    let no_user = prepare(payload, found, "r", "skills", "greeter", "v1", "", "t");
    assert_eq!(no_user.err(), Some(PublishError::Push(PushError::Auth(AuthError::EmptyUsername))));
}

#[test]
fn prepare_inspected_takes_the_inspection_as_given() {
    let planned = prepare_inspected(
        b"hello world".to_vec(),
        Ok(b"{}".to_vec()),
        "r",
        "skills",
        "greeter",
        "v1",
        "alice",
        "",
    )
    .unwrap();
    assert_eq!(planned.blob(CONFIG).content(), &b"{}".to_vec());
    assert_eq!(planned.blob(LAYER).content(), &b"hello world".to_vec());
    assert_eq!(planned.credential().secret(), "");
    let refused = prepare_inspected(
        b"hello world".to_vec(),
        Err("unreadable".to_string()),
        "r",
        "skills",
        "greeter",
        "v1",
        "alice",
        "",
    );
    match refused.err() {
        Some(PublishError::InvalidArtifact(e)) => assert_eq!(e.reason, "unreadable"),
        other => panic!("unexpected: {other:?}"),
    }
    let bad_tag = prepare_inspected(
        Vec::new(),
        Err("unreadable".to_string()),
        "r",
        "skills",
        "greeter",
        "",
        "",
        "",
    );
    assert_eq!(
        bad_tag.err(),
        Some(PublishError::InvalidReference(InvalidReferenceError::EmptyTag))
    );
}

#[test]
fn the_digest_is_the_last_segment_of_the_location() {
    assert_eq!(
        digest_reported_at("https://registry.example.com/v2/skills/greeter/blobs/sha256:abc"),
        "sha256:abc"
    );
    assert_eq!(digest_reported_at("/v2/skills/greeter/blobs/sha256:abc?ns=docker.io"), "sha256:abc");
    assert_eq!(digest_reported_at("sha256:abc"), "sha256:abc");
    assert_eq!(digest_reported_at("sha256:abc?x=/y"), "sha256:abc");
    assert_eq!(digest_reported_at("/v2/blobs/"), "");
    assert_eq!(digest_reported_at("/v2/blobs/?a/b"), "");
    assert_eq!(digest_reported_at(""), "");
    assert_eq!(digest_reported_at("?"), "");
    assert_eq!(digest_reported_at("/blobs/sha256:\u{e4}bc"), "");
}

#[test]
fn an_upload_is_reported_by_its_location() {
    let mut pusher = small_pusher();
    pusher.handle(Event::AuthAccepted);
    pusher.handle(Event::BlobMissing { kind: CONFIG });
    let location =
        format!("https://registry.example.com/v2/skills/greeter/blobs/{}", digest_of(&pusher, CONFIG));
    let event = Event::uploaded(CONFIG, &location);
    assert_eq!(event, Event::BlobUploaded { kind: CONFIG, digest: digest_of(&pusher, CONFIG) });
    pusher.handle(event);
    assert_eq!(pusher.status(CONFIG), BlobStatus::Present);
    pusher.handle(Event::BlobMissing { kind: LAYER });
    pusher.handle(Event::uploaded(LAYER, &location));
    assert_eq!(
        pusher.outcome(),
        Some(Err(PushError::DigestMismatch(DigestMismatchError {
            blob: LAYER,
            expected: digest_of(&pusher, LAYER),
            actual: digest_of(&pusher, CONFIG),
        })))
    );
}

#[test]
fn a_refusal_is_classified_by_request_and_status() {
    let text = || "denied".to_string();
    assert_eq!(
        Event::refused(Action::Authenticate, 401, text()),
        Event::AuthRejected { during: Action::Authenticate, status: 401 }
    );
    assert_eq!(
        Event::refused(Action::Authenticate, 403, text()),
        Event::AuthRejected { during: Action::Authenticate, status: 403 }
    );
    assert_eq!(
        Event::refused(Action::Authenticate, 500, text()),
        Event::TransportFailed { during: Action::Authenticate, message: text() }
    );
    assert_eq!(
        Event::refused(Action::PutManifest, 403, text()),
        Event::ManifestRejected { status: 403 }
    );
    assert_eq!(
        Event::refused(Action::PutManifest, 507, text()),
        Event::ManifestRejected { status: 507 }
    );
    for action in [Action::CheckBlob(CONFIG), Action::UploadBlob(LAYER)] {
        assert_eq!(
            Event::refused(action, 401, text()),
            Event::AuthRejected { during: action, status: 401 }
        );
        assert_eq!(
            Event::refused(action, 403, text()),
            Event::AuthRejected { during: action, status: 403 }
        );
        assert_eq!(
            Event::refused(action, 500, text()),
            Event::TransportFailed { during: action, message: text() }
        );
        assert_eq!(Event::refused(action, 401, text()).answers(), action);
    }
}

#[test]
fn a_denial_without_a_status_counts_as_unauthorized() {
    assert_eq!(UNAUTHORIZED, 401);
    assert_eq!(
        Event::denied(Action::Authenticate, "no token".to_string()),
        Event::AuthRejected { during: Action::Authenticate, status: 401 }
    );
    assert_eq!(
        Event::denied(Action::UploadBlob(CONFIG), "no token".to_string()),
        Event::AuthRejected { during: Action::UploadBlob(CONFIG), status: 401 }
    );
    assert_eq!(
        Event::denied(Action::PutManifest, "no token".to_string()),
        Event::ManifestRejected { status: 401 }
    );
}

#[test]
fn a_credential_rejected_at_a_blob_step_fails_the_push() {
    for during in [Action::CheckBlob(CONFIG), Action::CheckBlob(LAYER)] {
        let mut pusher = small_pusher();
        pusher.handle(Event::AuthAccepted);
        pusher.handle(Event::refused(during, 401, "denied".to_string()));
        assert_eq!(
            pusher.outcome(),
            Some(Err(PushError::Auth(AuthError::Rejected { status: 401 })))
        );
        assert!(pusher.pending().is_empty());
        assert!(pusher.manifest().is_none());
    }
    let mut pusher = small_pusher();
    pusher.handle(Event::AuthRejected { during: Action::CheckBlob(CONFIG), status: 401 });
    assert_eq!(pusher.phase(), &Phase::Init);
}

#[test]
fn publishing_the_same_component_again_uploads_nothing() {
    let mut registry = Registry::with_user("alice", "s3cret");
    registry.users.insert("bob".to_string(), "hunter2".to_string());
    let mut first = greeter();
    let first_receipt = drive(&mut first, &mut registry).unwrap();
    assert_eq!(registry.uploads(), 2);
    registry.log.clear();
    let mut second = greeter_as("bob", "hunter2");
    assert_eq!(second.blob(CONFIG).digest(), first.blob(CONFIG).digest());
    assert_eq!(second.blob(LAYER).digest(), first.blob(LAYER).digest());
    assert_eq!(second.blob(CONFIG).content(), first.blob(CONFIG).content());
    let second_receipt = drive(&mut second, &mut registry).unwrap();
    assert_eq!(
        registry.log,
        vec![
            Action::Authenticate,
            Action::CheckBlob(CONFIG),
            Action::CheckBlob(LAYER),
            Action::PutManifest,
        ]
    );
    assert_eq!(registry.uploads(), 0);
    assert_eq!(registry.manifest_puts(), 1);
    assert_eq!(second_receipt, first_receipt);
    assert_eq!(second.manifest().unwrap().encode(), first.manifest().unwrap().encode());
    assert_eq!(registry.tags.len(), 1);
    assert_eq!(registry.blobs.len(), 2);
}

#[test]
fn prepare_refuses_exactly_what_is_no_component() {
    for payload in [Vec::new(), b"junk".to_vec(), vec![0x00, 0x61, 0x73, 0x6d, 0x0d, 0x00]] {
        let inspection = listing_of(&payload);
        let refused = prepare(payload, inspection, "r", "skills", "greeter", "v1", "alice", "t");
        assert!(matches!(refused.err(), Some(PublishError::InvalidArtifact(_))));
    }
    for len in [200, 2048] {
        let payload = component_of(len);
        let inspection = listing_of(&payload);
        assert!(prepare(payload, inspection, "r", "skills", "greeter", "v1", "alice", "t").is_ok());
    }
    let unread = prepare(
        Vec::new(),
        Err("unable to read greeter.wasm".to_string()),
        "r",
        "skills",
        "greeter",
        "v1",
        "alice",
        "t",
    );
    match unread.err() {
        Some(PublishError::InvalidArtifact(e)) => assert_eq!(e.reason, "unable to read greeter.wasm"),
        other => panic!("unexpected: {other:?}"),
    }
}
