use vstd::prelude::*;
use vstd::string::*;

use crate::blob::{blob_of, Blob, BlobView, Layer, ManifestConfig, CONFIG_MEDIA_TYPE, LAYER_MEDIA_TYPE};
use crate::credential::{Credential, CredentialView};
use crate::error::{
    AuthError, DigestMismatchError, ManifestPublishError, PushError, PushErrorView, TransportError,
};
use crate::manifest::{manifest_digest, manifest_of, Manifest};
use crate::reference::{Reference, ReferenceView};
use crate::step::{Action, BlobKind};

verus! {

/// What a push knows of a blob's presence in the registry.
#[derive(Clone, Copy, Debug, PartialEq, Eq, Structural)]
pub enum BlobStatus {
    /// Nothing yet: the registry has to be asked.
    Unchecked,
    /// The registry said that it lacks the blob: it has to be uploaded.
    Absent,
    /// The registry holds the blob: it said so, or took the upload and
    /// reported the right digest.
    Present,
}

/// Where a push stands.
#[derive(Clone, Debug, PartialEq, Eq)]
pub enum Phase {
    /// Nothing was sent yet.
    Init,
    /// The session is open, and at least one blob is not confirmed.
    Authenticated { config: BlobStatus, layer: BlobStatus },
    /// Both blobs are confirmed present; the manifest is not published.
    BlobsVerified,
    /// The manifest is published: the push succeeded.
    ManifestPublished,
    /// A step failed: the push is over.
    Failed(PushError),
}

/// What a [`Phase`] is, with each text as a sequence of characters.
pub enum PhaseView {
    Init,
    Authenticated { config: BlobStatus, layer: BlobStatus },
    BlobsVerified,
    ManifestPublished,
    Failed(PushErrorView),
}

impl View for Phase {
    type V = PhaseView;

    open spec fn view(&self) -> PhaseView {
        match *self {
            Phase::Init => PhaseView::Init,
            Phase::Authenticated { config, layer } => PhaseView::Authenticated { config, layer },
            Phase::BlobsVerified => PhaseView::BlobsVerified,
            Phase::ManifestPublished => PhaseView::ManifestPublished,
            Phase::Failed(e) => PhaseView::Failed(e@),
        }
    }
}

/// What the transport reports after it carried out an [`Action`].
#[derive(Clone, Debug, PartialEq, Eq)]
pub enum Event {
    /// The registry opened the session.
    AuthAccepted,
    /// The registry refused the credential at the request `during`, with
    /// this HTTP status.
    AuthRejected { during: Action, status: u16 },
    /// The registry holds the blob.
    BlobFound { kind: BlobKind },
    /// The registry does not hold the blob.
    BlobMissing { kind: BlobKind },
    /// The registry took the upload, and computed `digest` for it.
    BlobUploaded { kind: BlobKind, digest: String },
    /// The registry published the manifest.
    ManifestAccepted,
    /// The registry refused the manifest, with this HTTP status.
    ManifestRejected { status: u16 },
    /// The request `during` got no answer from the registry.
    TransportFailed { during: Action, message: String },
}

/// What an [`Event`] is, with each text as a sequence of characters.
pub enum EventView {
    AuthAccepted,
    AuthRejected { during: Action, status: u16 },
    BlobFound { kind: BlobKind },
    BlobMissing { kind: BlobKind },
    BlobUploaded { kind: BlobKind, digest: Seq<char> },
    ManifestAccepted,
    ManifestRejected { status: u16 },
    TransportFailed { during: Action, message: Seq<char> },
}

impl View for Event {
    type V = EventView;

    open spec fn view(&self) -> EventView {
        match *self {
            Event::AuthAccepted => EventView::AuthAccepted,
            Event::AuthRejected { during, status } => EventView::AuthRejected { during, status },
            Event::BlobFound { kind } => EventView::BlobFound { kind },
            Event::BlobMissing { kind } => EventView::BlobMissing { kind },
            Event::BlobUploaded { kind, digest } => EventView::BlobUploaded { kind, digest: digest@ },
            Event::ManifestAccepted => EventView::ManifestAccepted,
            Event::ManifestRejected { status } => EventView::ManifestRejected { status },
            Event::TransportFailed { during, message } => EventView::TransportFailed {
                during,
                message: message@,
            },
        }
    }
}

impl EventView {
    /// The request that the event is the outcome of.
    pub open spec fn answers(self) -> Action {
        match self {
            EventView::AuthAccepted => Action::Authenticate,
            EventView::AuthRejected { during, status } => during,
            EventView::BlobFound { kind } => Action::CheckBlob(kind),
            EventView::BlobMissing { kind } => Action::CheckBlob(kind),
            EventView::BlobUploaded { kind, digest } => Action::UploadBlob(kind),
            EventView::ManifestAccepted => Action::PutManifest,
            EventView::ManifestRejected { status } => Action::PutManifest,
            EventView::TransportFailed { during, message } => during,
        }
    }
}

impl Event {
    /// The request that the event is the outcome of.
    pub fn answers(&self) -> (action: Action)
        ensures
            action == self@.answers(),
    {
        match self {
            Event::AuthAccepted => Action::Authenticate,
            Event::AuthRejected { during, status } => *during,
            Event::BlobFound { kind } => Action::CheckBlob(*kind),
            Event::BlobMissing { kind } => Action::CheckBlob(*kind),
            Event::BlobUploaded { kind, digest } => Action::UploadBlob(*kind),
            Event::ManifestAccepted => Action::PutManifest,
            Event::ManifestRejected { status } => Action::PutManifest,
            Event::TransportFailed { during, message } => *during,
        }
    }
}

/// What a receipt is: the target and the digest of the manifest.
pub struct ReceiptView {
    pub target: Seq<char>,
    pub manifest_digest: Seq<char>,
}

/// The proof of a push that succeeded.
#[derive(Clone, Debug, PartialEq, Eq)]
pub struct PushReceipt {
    /// The reference that the manifest was published under, in one piece.
    pub target: String,
    /// The digest of the manifest that was published.
    pub manifest_digest: String,
}

impl View for PushReceipt {
    type V = ReceiptView;

    open spec fn view(&self) -> ReceiptView {
        ReceiptView { target: self.target@, manifest_digest: self.manifest_digest@ }
    }
}

/// What a push is: what is pushed, where, by whom, and how far it came.
pub struct PushView {
    pub reference: ReferenceView,
    pub config: BlobView,
    pub layer: BlobView,
    pub credential: CredentialView,
    pub phase: PhaseView,
}

impl PushView {
    /// The push of an artifact that has not started.
    pub open spec fn initial(
        reference: ReferenceView,
        config: BlobView,
        layer: BlobView,
        credential: CredentialView,
    ) -> PushView {
        PushView { reference, config, layer, credential, phase: PhaseView::Init }
    }

    /// The invariant of a push: its parts are valid, and while blobs are
    /// being confirmed at least one of them is not confirmed yet.
    pub open spec fn wf(self) -> bool {
        &&& self.reference.wf()
        &&& self.config == blob_of(CONFIG_MEDIA_TYPE@, self.config.content)
        &&& self.layer == blob_of(LAYER_MEDIA_TYPE@, self.layer.content)
        &&& self.credential.username.len() > 0
        &&& self.phase matches PhaseView::Authenticated { config, layer } ==> !(config
            == BlobStatus::Present && layer == BlobStatus::Present)
    }

    /// The blob of the given kind.
    pub open spec fn blob(self, kind: BlobKind) -> BlobView {
        match kind {
            BlobKind::Config => self.config,
            BlobKind::Layer => self.layer,
        }
    }

    /// What the push knows of the presence of a blob. Before the session
    /// is open it knows nothing, and a failed push has forgotten it.
    pub open spec fn status(self, kind: BlobKind) -> BlobStatus {
        match self.phase {
            PhaseView::Authenticated { config, layer } => match kind {
                BlobKind::Config => config,
                BlobKind::Layer => layer,
            },
            PhaseView::BlobsVerified | PhaseView::ManifestPublished => BlobStatus::Present,
            PhaseView::Init | PhaseView::Failed(_) => BlobStatus::Unchecked,
        }
    }

    /// Whether the push is over, one way or the other.
    pub open spec fn is_terminal(self) -> bool {
        self.phase is ManifestPublished || self.phase is Failed
    }

    /// Whether the transport may carry out `action` now.
    pub open spec fn enabled(self, action: Action) -> bool {
        match action {
            Action::Authenticate => self.phase is Init,
            Action::CheckBlob(kind) => self.phase is Authenticated && self.status(kind)
                == BlobStatus::Unchecked,
            Action::UploadBlob(kind) => self.phase is Authenticated && self.status(kind)
                == BlobStatus::Absent,
            Action::PutManifest => self.phase is BlobsVerified,
        }
    }

    /// The request that a blob is waiting for, if any.
    pub open spec fn blob_request(self, kind: BlobKind) -> Seq<Action> {
        if self.enabled(Action::CheckBlob(kind)) {
            seq![Action::CheckBlob(kind)]
        } else if self.enabled(Action::UploadBlob(kind)) {
            seq![Action::UploadBlob(kind)]
        } else {
            seq![]
        }
    }

    /// The requests that the transport may carry out now, the config's
    /// before the layer's. The two blobs do not wait for each other.
    pub open spec fn pending(self) -> Seq<Action> {
        if self.enabled(Action::Authenticate) {
            seq![Action::Authenticate]
        } else if self.enabled(Action::PutManifest) {
            seq![Action::PutManifest]
        } else {
            self.blob_request(BlobKind::Config) + self.blob_request(BlobKind::Layer)
        }
    }

    /// The phase while blobs are being confirmed, with the status of one
    /// blob replaced.
    pub open spec fn with_status(self, kind: BlobKind, status: BlobStatus) -> PhaseView {
        match kind {
            BlobKind::Config => PhaseView::Authenticated {
                config: status,
                layer: self.status(BlobKind::Layer),
            },
            BlobKind::Layer => PhaseView::Authenticated {
                config: self.status(BlobKind::Config),
                layer: status,
            },
        }
    }

    /// The blob of the other kind.
    pub open spec fn other(kind: BlobKind) -> BlobKind {
        match kind {
            BlobKind::Config => BlobKind::Layer,
            BlobKind::Layer => BlobKind::Config,
        }
    }

    /// The phase after a blob was confirmed present: the manifest's turn
    /// if the other blob is confirmed too.
    pub open spec fn confirmed(self, kind: BlobKind) -> PhaseView {
        if self.status(Self::other(kind)) == BlobStatus::Present {
            PhaseView::BlobsVerified
        } else {
            self.with_status(kind, BlobStatus::Present)
        }
    }

    /// The phase that an event leads to, when it answers a request that
    /// the transport was allowed to make.
    pub open spec fn phase_after(self, event: EventView) -> PhaseView {
        match event {
            EventView::AuthAccepted => PhaseView::Authenticated {
                config: BlobStatus::Unchecked,
                layer: BlobStatus::Unchecked,
            },
            EventView::AuthRejected { during, status } => PhaseView::Failed(
                PushErrorView::Auth(AuthError::Rejected { status }),
            ),
            EventView::BlobFound { kind } => self.confirmed(kind),
            EventView::BlobMissing { kind } => self.with_status(kind, BlobStatus::Absent),
            EventView::BlobUploaded { kind, digest } => if digest == self.blob(kind).digest {
                self.confirmed(kind)
            } else {
                PhaseView::Failed(
                    PushErrorView::DigestMismatch {
                        blob: kind,
                        expected: self.blob(kind).digest,
                        actual: digest,
                    },
                )
            },
            EventView::ManifestAccepted => PhaseView::ManifestPublished,
            EventView::ManifestRejected { status } => PhaseView::Failed(
                PushErrorView::ManifestPublish { target: self.reference.whole(), status },
            ),
            EventView::TransportFailed { during, message } => PhaseView::Failed(
                PushErrorView::Transport { during, message },
            ),
        }
    }

    /// The push after an event. An event that answers no request that the
    /// transport was allowed to make changes nothing; so nothing changes a
    /// push that is over.
    pub open spec fn step(self, event: EventView) -> PushView {
        if self.enabled(event.answers()) {
            PushView { phase: self.phase_after(event), ..self }
        } else {
            self
        }
    }

    /// The receipt of a push that succeeded.
    pub open spec fn receipt(self) -> Option<ReceiptView> {
        if self.phase is ManifestPublished {
            Some(
                ReceiptView {
                    target: self.reference.whole(),
                    manifest_digest: manifest_digest(self.config, self.layer),
                },
            )
        } else {
            None
        }
    }

    /// How the push ended, if it is over.
    pub open spec fn outcome(self) -> Option<Result<ReceiptView, PushErrorView>> {
        match self.phase {
            PhaseView::ManifestPublished => Some(Ok(self.receipt()->0)),
            PhaseView::Failed(e) => Some(Err(e)),
            _ => None,
        }
    }
}

/// The push of one artifact to one reference, as a state machine.
///
/// The pusher sends nothing itself. It says which requests the transport
/// may make ([`RegistryPusher::pending`]) and takes the outcome of each
/// ([`RegistryPusher::handle`]); it allows the manifest only once both
/// blobs are confirmed present, and nothing after a failure.
pub struct RegistryPusher {
    reference: Reference,
    config: ManifestConfig,
    layer: Layer,
    credential: Credential,
    phase: Phase,
}

impl View for RegistryPusher {
    type V = PushView;

    closed spec fn view(&self) -> PushView {
        PushView {
            reference: self.reference@,
            config: self.config@,
            layer: self.layer@,
            credential: self.credential@,
            phase: self.phase@,
        }
    }
}

fn copy_error(e: &PushError) -> (copy: PushError)
    ensures
        copy@ == e@,
{
    match e {
        PushError::Auth(e) => PushError::Auth(*e),
        PushError::DigestMismatch(e) => PushError::DigestMismatch(
            DigestMismatchError {
                blob: e.blob,
                expected: e.expected.clone(),
                actual: e.actual.clone(),
            },
        ),
        PushError::Transport(e) => PushError::Transport(
            TransportError { during: e.during, message: e.message.clone() },
        ),
        PushError::ManifestPublish(e) => PushError::ManifestPublish(
            ManifestPublishError { target: e.target.clone(), status: e.status },
        ),
    }
}

impl RegistryPusher {
    #[verifier::type_invariant]
    spec fn sound(self) -> bool {
        self@.wf()
    }

    /// Starts the push of `config` and `layer` to `reference`.
    pub fn new(
        reference: Reference,
        config: ManifestConfig,
        layer: Layer,
        credential: Credential,
    ) -> (pusher: RegistryPusher)
        ensures
            pusher@ == PushView::initial(reference@, config@, layer@, credential@),
            pusher@.wf(),
    {
        let _ = reference.tag();
        let _ = config.blob();
        let _ = layer.blob();
        let _ = credential.username();
        RegistryPusher { reference, config, layer, credential, phase: Phase::Init }
    }

    /// The target of the push.
    pub fn reference(&self) -> (r: &Reference)
        ensures
            r@ == self@.reference,
    {
        &self.reference
    }

    /// The credential to open the session with.
    pub fn credential(&self) -> (r: &Credential)
        ensures
            r@ == self@.credential,
    {
        &self.credential
    }

    /// The blob of the given kind.
    pub fn blob(&self, kind: BlobKind) -> (r: &Blob)
        ensures
            r@ == self@.blob(kind),
    {
        match kind {
            BlobKind::Config => self.config.blob(),
            BlobKind::Layer => self.layer.blob(),
        }
    }

    /// Where the push stands.
    pub fn phase(&self) -> (r: &Phase)
        ensures
            r@ == self@.phase,
            self@.wf(),
    {
        proof {
            use_type_invariant(self);
        }
        &self.phase
    }

    /// What the push knows of the presence of a blob.
    pub fn status(&self, kind: BlobKind) -> (r: BlobStatus)
        ensures
            r == self@.status(kind),
    {
        match &self.phase {
            Phase::Authenticated { config, layer } => match kind {
                BlobKind::Config => *config,
                BlobKind::Layer => *layer,
            },
            Phase::BlobsVerified | Phase::ManifestPublished => BlobStatus::Present,
            Phase::Init | Phase::Failed(_) => BlobStatus::Unchecked,
        }
    }

    /// Whether the transport may carry out `action` now.
    pub fn enabled(&self, action: Action) -> (r: bool)
        ensures
            r == self@.enabled(action),
    {
        match action {
            Action::Authenticate => matches!(self.phase, Phase::Init),
            Action::CheckBlob(kind) => matches!(self.phase, Phase::Authenticated { .. })
                && self.status(kind) == BlobStatus::Unchecked,
            Action::UploadBlob(kind) => matches!(self.phase, Phase::Authenticated { .. })
                && self.status(kind) == BlobStatus::Absent,
            Action::PutManifest => matches!(self.phase, Phase::BlobsVerified),
        }
    }

    /// The requests that the transport may carry out now, in any order or
    /// at once. There is none if and only if the push is over.
    pub fn pending(&self) -> (actions: Vec<Action>)
        ensures
            actions@ == self@.pending(),
            forall|action: Action| actions@.contains(action) <==> self@.enabled(action),
            actions@.len() == 0 <==> self@.is_terminal(),
    {
        proof {
            use_type_invariant(self);
            lemma_pending_lists_enabled(self@);
        }
        let mut actions: Vec<Action> = Vec::new();
        if self.enabled(Action::Authenticate) {
            actions.push(Action::Authenticate);
        } else if self.enabled(Action::PutManifest) {
            actions.push(Action::PutManifest);
        } else {
            if self.enabled(Action::CheckBlob(BlobKind::Config)) {
                actions.push(Action::CheckBlob(BlobKind::Config));
            } else if self.enabled(Action::UploadBlob(BlobKind::Config)) {
                actions.push(Action::UploadBlob(BlobKind::Config));
            }
            assert(actions@ =~= self@.blob_request(BlobKind::Config));
            if self.enabled(Action::CheckBlob(BlobKind::Layer)) {
                actions.push(Action::CheckBlob(BlobKind::Layer));
            } else if self.enabled(Action::UploadBlob(BlobKind::Layer)) {
                actions.push(Action::UploadBlob(BlobKind::Layer));
            }
        }
        assert(actions@ =~= self@.pending());
        actions
    }

    fn with_status(&self, kind: BlobKind, status: BlobStatus) -> (phase: Phase)
        ensures
            phase@ == self@.with_status(kind, status),
    {
        match kind {
            BlobKind::Config => Phase::Authenticated {
                config: status,
                layer: self.status(BlobKind::Layer),
            },
            BlobKind::Layer => Phase::Authenticated {
                config: self.status(BlobKind::Config),
                layer: status,
            },
        }
    }

    fn confirmed(&self, kind: BlobKind) -> (phase: Phase)
        ensures
            phase@ == self@.confirmed(kind),
    {
        let other = match kind {
            BlobKind::Config => BlobKind::Layer,
            BlobKind::Layer => BlobKind::Config,
        };
        if self.status(other) == BlobStatus::Present {
            Phase::BlobsVerified
        } else {
            self.with_status(kind, BlobStatus::Present)
        }
    }

    fn phase_after(&self, event: Event) -> (phase: Phase)
        ensures
            phase@ == self@.phase_after(event@),
    {
        match event {
            Event::AuthAccepted => Phase::Authenticated {
                config: BlobStatus::Unchecked,
                layer: BlobStatus::Unchecked,
            },
            Event::AuthRejected { during, status } => Phase::Failed(
                PushError::Auth(AuthError::Rejected { status }),
            ),
            Event::BlobFound { kind } => self.confirmed(kind),
            Event::BlobMissing { kind } => self.with_status(kind, BlobStatus::Absent),
            Event::BlobUploaded { kind, digest } => {
                let blob = self.blob(kind);
                if blob.digest_is(&digest) {
                    self.confirmed(kind)
                } else {
                    Phase::Failed(
                        PushError::DigestMismatch(
                            DigestMismatchError {
                                blob: kind,
                                expected: String::from_str(blob.digest()),
                                actual: digest,
                            },
                        ),
                    )
                }
            },
            Event::ManifestAccepted => Phase::ManifestPublished,
            Event::ManifestRejected { status } => Phase::Failed(
                PushError::ManifestPublish(
                    ManifestPublishError { target: self.reference.whole(), status },
                ),
            ),
            Event::TransportFailed { during, message } => Phase::Failed(
                PushError::Transport(TransportError { during, message }),
            ),
        }
    }

    /// Takes the outcome of a request.
    ///
    /// The push moves as [`PushView::step`] says. An event that answers no
    /// pending request is ignored.
    pub fn handle(&mut self, event: Event)
        ensures
            final(self)@ == old(self)@.step(event@),
            final(self)@.wf(),
    {
        proof {
            use_type_invariant(&*self);
            lemma_step_keeps_wf(self@, event@);
        }
        if self.enabled(event.answers()) {
            let next = self.phase_after(event);
            self.phase = next;
        }
    }

    /// The manifest to publish, once both blobs are confirmed present, and
    /// not before.
    pub fn manifest(&self) -> (manifest: Option<Manifest>)
        ensures
            manifest is Some <==> (self@.phase is BlobsVerified || self@.phase is ManifestPublished),
            manifest matches Some(m) ==> m@ == manifest_of(self@.config, self@.layer),
    {
        match &self.phase {
            Phase::BlobsVerified | Phase::ManifestPublished => Some(
                Manifest::of(&self.config, &self.layer),
            ),
            _ => None,
        }
    }

    /// How the push ended: the receipt, or the failure of the first step
    /// that failed. `None` as long as the push is not over.
    pub fn outcome(&self) -> (outcome: Option<Result<PushReceipt, PushError>>)
        ensures
            match outcome {
                Some(Ok(receipt)) => self@.outcome() == Some(
                    Ok::<ReceiptView, PushErrorView>(receipt@),
                ),
                Some(Err(e)) => self@.outcome() == Some(Err::<ReceiptView, PushErrorView>(e@)),
                None => self@.outcome() is None,
            },
    {
        match &self.phase {
            Phase::ManifestPublished => {
                let manifest = Manifest::of(&self.config, &self.layer);
                Some(
                    Ok(
                        PushReceipt {
                            target: self.reference.whole(),
                            manifest_digest: manifest.digest(),
                        },
                    ),
                )
            },
            Phase::Failed(e) => Some(Err(copy_error(e))),
            _ => None,
        }
    }
}

/// The list of pending requests holds exactly the requests that are
/// allowed, and is empty exactly when the push is over.
pub proof fn lemma_pending_lists_enabled(s: PushView)
    requires
        s.wf(),
    ensures
        forall|action: Action| s.pending().contains(action) <==> s.enabled(action),
        s.pending().len() == 0 <==> s.is_terminal(),
{
    let p = s.pending();
    assert forall|action: Action| p.contains(action) <==> s.enabled(action) by {
        if s.enabled(action) {
            match action {
                Action::Authenticate => {
                    assert(p[0] == action);
                },
                Action::PutManifest => {
                    assert(p[0] == action);
                },
                Action::CheckBlob(kind) => {
                    let c = s.blob_request(BlobKind::Config);
                    let l = s.blob_request(BlobKind::Layer);
                    match kind {
                        BlobKind::Config => {
                            assert(c[0] == action);
                            assert(p[0] == action);
                        },
                        BlobKind::Layer => {
                            assert(l[0] == action);
                            assert(p[c.len() as int] == action);
                        },
                    }
                },
                Action::UploadBlob(kind) => {
                    let c = s.blob_request(BlobKind::Config);
                    let l = s.blob_request(BlobKind::Layer);
                    match kind {
                        BlobKind::Config => {
                            assert(c[0] == action);
                            assert(p[0] == action);
                        },
                        BlobKind::Layer => {
                            assert(l[0] == action);
                            assert(p[c.len() as int] == action);
                        },
                    }
                },
            }
        }
    }
}

/// Every event leaves a valid push valid, and changes nothing but the phase.
pub proof fn lemma_step_keeps_wf(s: PushView, event: EventView)
    requires
        s.wf(),
    ensures
        s.step(event).wf(),
        s.step(event).reference == s.reference,
        s.step(event).config == s.config,
        s.step(event).layer == s.layer,
        s.step(event).credential == s.credential,
{
}

} // verus!
