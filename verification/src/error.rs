use vstd::prelude::*;

use crate::step::{Action, BlobKind};

verus! {

/// Why a registry, repository, name and tag do not make a reference.
///
/// Positions count characters from zero. A position in the repository is a
/// position in the composed path `repository/name`.
#[derive(Clone, Copy, Debug, PartialEq, Eq, Structural)]
pub enum InvalidReferenceError {
    /// The registry host is the empty string.
    EmptyRegistry,
    /// The base repository is the empty string.
    EmptyRepository,
    /// The artifact name is the empty string.
    EmptyName,
    /// The tag is the empty string.
    EmptyTag,
    /// The composed path holds a character outside ASCII.
    RepositoryNotAscii,
    /// The composed path breaks the path syntax first at `at`.
    RepositorySyntax { at: usize },
    /// The tag holds a character outside ASCII.
    TagNotAscii,
    /// The tag has `len` characters, more than a registry accepts.
    TagTooLong { len: usize },
    /// The tag breaks the tag syntax first at `at`.
    TagSyntax { at: usize },
}

/// The payload is no artifact of the expected kind, or could not be read.
#[derive(Clone, Debug, PartialEq, Eq)]
pub struct InvalidArtifactError {
    /// What the inspection of the payload reported.
    pub reason: String,
}

impl View for InvalidArtifactError {
    type V = Seq<char>;

    open spec fn view(&self) -> Seq<char> {
        self.reason@
    }
}

/// The credential was refused.
#[derive(Clone, Copy, Debug, PartialEq, Eq, Structural)]
pub enum AuthError {
    /// No user name was given.
    EmptyUsername,
    /// The registry answered the credential with this HTTP status.
    Rejected { status: u16 },
}

/// The registry computed another digest for an uploaded blob than the one
/// computed here.
#[derive(Clone, Debug, PartialEq, Eq)]
pub struct DigestMismatchError {
    /// The blob that was uploaded.
    pub blob: BlobKind,
    /// The digest computed from the content before the upload.
    pub expected: String,
    /// The digest that the registry reported.
    pub actual: String,
}

/// The network or the TLS layer failed during a request.
#[derive(Clone, Debug, PartialEq, Eq)]
pub struct TransportError {
    /// The request that failed.
    pub during: Action,
    /// What the transport reported.
    pub message: String,
}

/// The registry refused the manifest.
#[derive(Clone, Debug, PartialEq, Eq)]
pub struct ManifestPublishError {
    /// The reference that the manifest was to be published under.
    pub target: String,
    /// The HTTP status of the refusal.
    pub status: u16,
}

/// The failure of the first step of a push that failed.
#[derive(Clone, Debug, PartialEq, Eq)]
pub enum PushError {
    Auth(AuthError),
    DigestMismatch(DigestMismatchError),
    Transport(TransportError),
    ManifestPublish(ManifestPublishError),
}

/// What a [`PushError`] is, with each text as a sequence of characters.
pub enum PushErrorView {
    Auth(AuthError),
    DigestMismatch { blob: BlobKind, expected: Seq<char>, actual: Seq<char> },
    Transport { during: Action, message: Seq<char> },
    ManifestPublish { target: Seq<char>, status: u16 },
}

impl View for PushError {
    type V = PushErrorView;

    open spec fn view(&self) -> PushErrorView {
        match *self {
            PushError::Auth(e) => PushErrorView::Auth(e),
            PushError::DigestMismatch(e) => PushErrorView::DigestMismatch {
                blob: e.blob,
                expected: e.expected@,
                actual: e.actual@,
            },
            PushError::Transport(e) => PushErrorView::Transport {
                during: e.during,
                message: e.message@,
            },
            PushError::ManifestPublish(e) => PushErrorView::ManifestPublish {
                target: e.target@,
                status: e.status,
            },
        }
    }
}

/// Why a publication failed: a bad input, or the failure of the push.
#[derive(Clone, Debug, PartialEq, Eq)]
pub enum PublishError {
    InvalidReference(InvalidReferenceError),
    InvalidArtifact(InvalidArtifactError),
    Push(PushError),
}

/// What a [`PublishError`] is, with each text as a sequence of characters.
pub enum PublishErrorView {
    InvalidReference(InvalidReferenceError),
    InvalidArtifact(Seq<char>),
    Push(PushErrorView),
}

impl View for PublishError {
    type V = PublishErrorView;

    open spec fn view(&self) -> PublishErrorView {
        match *self {
            PublishError::InvalidReference(e) => PublishErrorView::InvalidReference(e),
            PublishError::InvalidArtifact(e) => PublishErrorView::InvalidArtifact(e@),
            PublishError::Push(e) => PublishErrorView::Push(e@),
        }
    }
}

} // verus!
