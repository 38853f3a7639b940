use vstd::prelude::*;
use vstd::string::*;

use crate::digest::{compute_digest, sha256_digest};

verus! {

/// The media type of the manifest config of a Wasm artifact.
pub const CONFIG_MEDIA_TYPE: &'static str = "application/vnd.wasm.config.v0+json";

/// The media type of the content layer of a Wasm artifact.
pub const LAYER_MEDIA_TYPE: &'static str = "application/wasm";

/// What a descriptor is: the media type, digest and size of some content.
pub struct DescriptorView {
    pub media_type: Seq<char>,
    pub digest: Seq<char>,
    pub size: nat,
}

/// What a manifest says of a blob: its media type, digest and size.
#[derive(Clone, Debug, PartialEq, Eq)]
pub struct Descriptor {
    pub media_type: String,
    pub digest: String,
    pub size: u64,
}

impl View for Descriptor {
    type V = DescriptorView;

    open spec fn view(&self) -> DescriptorView {
        DescriptorView { media_type: self.media_type@, digest: self.digest@, size: self.size as nat }
    }
}

/// What a blob is: content with its media type, digest and size.
pub struct BlobView {
    pub media_type: Seq<char>,
    pub content: Seq<u8>,
    pub digest: Seq<char>,
    pub size: nat,
}

/// The blob of the given type and content.
pub open spec fn blob_of(media_type: Seq<char>, content: Seq<u8>) -> BlobView {
    BlobView { media_type, content, digest: sha256_digest(content), size: content.len() }
}

impl BlobView {
    /// The invariant of a blob: digest and size are those of the content.
    pub open spec fn wf(self) -> bool {
        self == blob_of(self.media_type, self.content)
    }

    /// The descriptor that stands for the blob in a manifest.
    pub open spec fn descriptor(self) -> DescriptorView {
        DescriptorView { media_type: self.media_type, digest: self.digest, size: self.size }
    }
}

/// Content addressed by its digest. The digest is computed from the content
/// when the blob is made, and there is no way to set it.
#[derive(Debug, PartialEq, Eq)]
pub struct Blob {
    media_type: String,
    content: Vec<u8>,
    digest: String,
}

impl View for Blob {
    type V = BlobView;

    closed spec fn view(&self) -> BlobView {
        BlobView {
            media_type: self.media_type@,
            content: self.content@,
            digest: self.digest@,
            size: self.content@.len(),
        }
    }
}

impl Blob {
    #[verifier::type_invariant]
    spec fn fresh(self) -> bool {
        self@.wf()
    }

    /// Makes the blob of `content`, and computes its digest.
    pub fn new(media_type: &str, content: Vec<u8>) -> (blob: Blob)
        ensures
            blob@ == blob_of(media_type@, content@),
    {
        let digest = compute_digest(&content);
        Blob { media_type: String::from_str(media_type), content, digest }
    }

    /// The media type.
    pub fn media_type(&self) -> (r: &str)
        ensures
            r@ == self@.media_type,
    {
        self.media_type.as_str()
    }

    /// The bytes.
    pub fn content(&self) -> (r: &Vec<u8>)
        ensures
            r@ == self@.content,
    {
        &self.content
    }

    /// The digest of the bytes.
    pub fn digest(&self) -> (r: &str)
        ensures
            r@ == self@.digest,
            r@ == sha256_digest(self@.content),
    {
        proof {
            use_type_invariant(self);
        }
        self.digest.as_str()
    }

    /// Whether `reported` is, character for character, the digest of the
    /// bytes.
    pub fn digest_is(&self, reported: &String) -> (same: bool)
        ensures
            same == (reported@ == self@.digest),
    {
        self.digest == *reported
    }

    /// The number of bytes.
    pub fn size(&self) -> (r: u64)
        ensures
            r == self@.size,
            r == self@.content.len(),
    {
        self.content.len() as u64
    }

    /// The descriptor that stands for the blob in a manifest.
    pub fn descriptor(&self) -> (d: Descriptor)
        ensures
            d@ == self@.descriptor(),
            self@.wf(),
    {
        proof {
            use_type_invariant(self);
        }
        Descriptor {
            media_type: self.media_type.clone(),
            digest: self.digest.clone(),
            size: self.content.len() as u64,
        }
    }
}

/// The manifest config of an artifact: a blob of type [`CONFIG_MEDIA_TYPE`]
/// whose content describes the artifact.
#[derive(Debug, PartialEq, Eq)]
pub struct ManifestConfig {
    blob: Blob,
}

impl View for ManifestConfig {
    type V = BlobView;

    closed spec fn view(&self) -> BlobView {
        self.blob@
    }
}

impl ManifestConfig {
    #[verifier::type_invariant]
    spec fn typed(self) -> bool {
        self@ == blob_of(CONFIG_MEDIA_TYPE@, self@.content)
    }

    /// Makes the manifest config whose content is `metadata`.
    pub fn new(metadata: Vec<u8>) -> (config: ManifestConfig)
        ensures
            config@ == blob_of(CONFIG_MEDIA_TYPE@, metadata@),
    {
        ManifestConfig { blob: Blob::new(CONFIG_MEDIA_TYPE, metadata) }
    }

    /// The blob, whose type is [`CONFIG_MEDIA_TYPE`].
    pub fn blob(&self) -> (blob: &Blob)
        ensures
            blob@ == self@,
            self@ == blob_of(CONFIG_MEDIA_TYPE@, self@.content),
    {
        proof {
            use_type_invariant(self);
        }
        &self.blob
    }
}

/// The content layer of an artifact: a blob of type [`LAYER_MEDIA_TYPE`]
/// whose content is the artifact's bytes.
#[derive(Debug, PartialEq, Eq)]
pub struct Layer {
    blob: Blob,
}

impl View for Layer {
    type V = BlobView;

    closed spec fn view(&self) -> BlobView {
        self.blob@
    }
}

impl Layer {
    #[verifier::type_invariant]
    spec fn typed(self) -> bool {
        self@ == blob_of(LAYER_MEDIA_TYPE@, self@.content)
    }

    /// Makes the layer whose content is `payload`.
    pub fn new(payload: Vec<u8>) -> (layer: Layer)
        ensures
            layer@ == blob_of(LAYER_MEDIA_TYPE@, payload@),
    {
        Layer { blob: Blob::new(LAYER_MEDIA_TYPE, payload) }
    }

    /// The blob, whose type is [`LAYER_MEDIA_TYPE`].
    pub fn blob(&self) -> (blob: &Blob)
        ensures
            blob@ == self@,
            self@ == blob_of(LAYER_MEDIA_TYPE@, self@.content),
    {
        proof {
            use_type_invariant(self);
        }
        &self.blob
    }
}

} // verus!
