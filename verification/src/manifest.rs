use vstd::prelude::*;
use vstd::string::*;

use crate::blob::{BlobView, Descriptor, DescriptorView, Layer, ManifestConfig};
use crate::digest::{compute_digest, sha256_digest};

verus! {

/// The media type of the manifest of a Wasm artifact.
pub const MANIFEST_MEDIA_TYPE: &'static str = "application/vnd.oci.image.manifest.v1+json";

/// The one schema version that the image format allows.
pub const SCHEMA_VERSION: u8 = 2;

/// What a manifest is: a version, a media type, and the descriptors of the
/// config and of the layers in their order.
pub struct ManifestView {
    pub schema_version: nat,
    pub media_type: Seq<char>,
    pub config: DescriptorView,
    pub layers: Seq<DescriptorView>,
}

/// The document that ties the blobs of an artifact together.
#[derive(Clone, Debug, PartialEq, Eq)]
pub struct Manifest {
    pub schema_version: u8,
    pub media_type: String,
    pub config: Descriptor,
    pub layers: Vec<Descriptor>,
}

impl View for Manifest {
    type V = ManifestView;

    open spec fn view(&self) -> ManifestView {
        ManifestView {
            schema_version: self.schema_version as nat,
            media_type: self.media_type@,
            config: self.config@,
            layers: Seq::new(self.layers@.len(), |i: int| self.layers@[i]@),
        }
    }
}

/// The manifest of the artifact made of `config` and `layer`.
pub open spec fn manifest_of(config: BlobView, layer: BlobView) -> ManifestView {
    ManifestView {
        schema_version: SCHEMA_VERSION as nat,
        media_type: MANIFEST_MEDIA_TYPE@,
        config: config.descriptor(),
        layers: seq![layer.descriptor()],
    }
}

/// The bytes that a manifest is published as: canonical JSON with the keys
/// `config`, `layers`, `mediaType` and `schemaVersion`, each descriptor
/// with `digest`, `mediaType` and `size`.
pub uninterp spec fn manifest_encoding(manifest: ManifestView) -> Seq<u8>;

/// The digest under which a registry files the manifest of an artifact.
pub open spec fn manifest_digest(config: BlobView, layer: BlobView) -> Seq<char> {
    sha256_digest(manifest_encoding(manifest_of(config, layer)))
}

/// Copies `manifest` into an `oci_client::manifest::OciImageManifest`,
/// field by field, and serialises that with `serde_json` and the
/// `CanonicalFormatter` of `olpc_cjson`, as `oci_client` does before it
/// sends a manifest. The contract gives the bytes a name.
#[verifier::external_body]
fn encode_manifest(manifest: &Manifest) -> (body: Vec<u8>)
    ensures
        body@ == manifest_encoding(manifest@),
{
    let convert = |d: &Descriptor| oci_client::manifest::OciDescriptor {
        media_type: d.media_type.clone(), digest: d.digest.clone(), size: d.size as i64,
        ..Default::default()
    };
    let image = oci_client::manifest::OciImageManifest {
        schema_version: manifest.schema_version, media_type: Some(manifest.media_type.clone()),
        config: convert(&manifest.config), layers: manifest.layers.iter().map(convert).collect(),
        ..Default::default()
    };
    let mut body = Vec::new();
    let mut out = serde_json::Serializer::with_formatter(&mut body, olpc_cjson::CanonicalFormatter::new());
    serde::Serialize::serialize(&image, &mut out).unwrap();
    body
}

impl Manifest {
    /// Makes the manifest of the artifact made of `config` and `layer`.
    pub fn of(config: &ManifestConfig, layer: &Layer) -> (manifest: Manifest)
        ensures
            manifest@ == manifest_of(config@, layer@),
    {
        let mut layers: Vec<Descriptor> = Vec::new();
        layers.push(layer.blob().descriptor());
        let manifest = Manifest {
            schema_version: SCHEMA_VERSION,
            media_type: String::from_str(MANIFEST_MEDIA_TYPE),
            config: config.blob().descriptor(),
            layers,
        };
        assert(manifest@.layers =~= seq![layer@.descriptor()]);
        manifest
    }

    /// The bytes to publish.
    pub fn encode(&self) -> (body: Vec<u8>)
        ensures
            body@ == manifest_encoding(self@),
    {
        encode_manifest(self)
    }

    /// The digest of the bytes to publish.
    pub fn digest(&self) -> (digest: String)
        ensures
            digest@ == sha256_digest(manifest_encoding(self@)),
    {
        let body = encode_manifest(self);
        compute_digest(&body)
    }
}

} // verus!
