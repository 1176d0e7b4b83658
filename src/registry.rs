//! The registry side: which programs are managed, where their images live,
//! the requests that fetch them, and how a manifest response is resolved.

use vstd::prelude::*;
use crate::text::{contains_text, has_part, join2, join3, same_text};

verus! {

/// The registry that serves the images.
pub const REGISTRY_URL: &'static str = "https://registry-1.docker.io";

/// The endpoint that issues pull tokens.
pub const TOKEN_URL: &'static str = "https://auth.docker.io/token";

/// The `service` query parameter of a token request.
pub const TOKEN_SERVICE: &'static str = "registry.docker.io";

/// The namespace that holds one image per managed program.
pub const IMAGE_NAMESPACE: &'static str = "lvillis/";

/// The tag that is installed.
pub const IMAGE_TAG: &'static str = "latest";

/// `Accept` of the first manifest request: an index, a list or a manifest.
pub const ACCEPT_ANY_MANIFEST: &'static str = "application/vnd.oci.image.index.v1+json, application/vnd.docker.distribution.manifest.list.v2+json, application/vnd.docker.distribution.manifest.v2+json";

/// `Accept` of the request for the manifest that a list entry names.
pub const ACCEPT_SINGLE_MANIFEST: &'static str = "application/vnd.docker.distribution.manifest.v2+json, application/vnd.oci.image.manifest.v1+json";

/// The operating system whose image is installed.
pub const TARGET_OS: &'static str = "linux";

/// The architecture whose image is installed.
pub const TARGET_ARCH: &'static str = "amd64";

/// How many programs are managed.
pub const MANAGED_COUNT: usize = 14;

/// The `i`th managed program.
pub open spec fn managed_name(i: int) -> Seq<char> {
    if i == 0 {
        "bat"@
    } else if i == 1 {
        "bottom"@
    } else if i == 2 {
        "bpftool"@
    } else if i == 3 {
        "bpftop"@
    } else if i == 4 {
        "cargo-proxy"@
    } else if i == 5 {
        "docker-compose"@
    } else if i == 6 {
        "dust"@
    } else if i == 7 {
        "eza"@
    } else if i == 8 {
        "just"@
    } else if i == 9 {
        "kyanos"@
    } else if i == 10 {
        "motdyn"@
    } else if i == 11 {
        "sd"@
    } else if i == 12 {
        "tcping"@
    } else {
        "uv"@
    }
}

/// Whether `name` is one of the managed programs.
pub open spec fn is_managed(name: Seq<char>) -> bool {
    exists|i: int| 0 <= i < MANAGED_COUNT && managed_name(i) == name
}

/// The `i`th managed program.
pub fn managed_program(i: usize) -> (r: &'static str)
    requires
        i < MANAGED_COUNT,
    ensures
        r@ == managed_name(i as int),
{
    if i == 0 {
        "bat"
    } else if i == 1 {
        "bottom"
    } else if i == 2 {
        "bpftool"
    } else if i == 3 {
        "bpftop"
    } else if i == 4 {
        "cargo-proxy"
    } else if i == 5 {
        "docker-compose"
    } else if i == 6 {
        "dust"
    } else if i == 7 {
        "eza"
    } else if i == 8 {
        "just"
    } else if i == 9 {
        "kyanos"
    } else if i == 10 {
        "motdyn"
    } else if i == 11 {
        "sd"
    } else if i == 12 {
        "tcping"
    } else {
        "uv"
    }
}

/// Whether `program` is managed.
pub fn check_managed(program: &str) -> (r: bool)
    ensures
        r == is_managed(program@),
{
    let mut i: usize = 0;
    while i < MANAGED_COUNT
        invariant
            i <= MANAGED_COUNT,
            forall|j: int| 0 <= j < i ==> managed_name(j) != program@,
        decreases MANAGED_COUNT - i,
    {
        if same_text(managed_program(i), program) {
            return true;
        }
        i = i + 1;
    }
    false
}

/// The image of one program: repository, tag and registry.
#[derive(Debug)]
pub struct ImageReference {
    pub repository: String,
    pub tag: String,
    pub registry: String,
}

/// The repository that holds `program`'s image.
pub open spec fn repository_of(program: Seq<char>) -> Seq<char> {
    IMAGE_NAMESPACE@ + program
}

/// The image reference for `program`.
pub fn image_reference(program: &str) -> (r: ImageReference)
    ensures
        r.repository@ == repository_of(program@),
        r.tag@ == IMAGE_TAG@,
        r.registry@ == REGISTRY_URL@,
{
    ImageReference {
        repository: join2(IMAGE_NAMESPACE, program),
        tag: String::from_str(IMAGE_TAG),
        registry: String::from_str(REGISTRY_URL),
    }
}

/// The `scope` of a pull token for `repository`.
pub open spec fn scope_of(repository: Seq<char>) -> Seq<char> {
    "repository:"@ + repository + ":pull"@
}

/// The `scope` query parameter of a token request.
pub fn token_scope(repository: &str) -> (r: String)
    ensures
        r@ == scope_of(repository@),
{
    join3("repository:", repository, ":pull")
}

/// The URL of a manifest, by tag or by digest.
pub open spec fn manifest_url_of(registry: Seq<char>, repository: Seq<char>, reference: Seq<
    char,
>) -> Seq<char> {
    registry + "/v2/"@ + repository + "/manifests/"@ + reference
}

/// The URL of a manifest, by tag or by digest.
pub fn manifest_url(registry: &str, repository: &str, reference: &str) -> (r: String)
    ensures
        r@ == manifest_url_of(registry@, repository@, reference@),
{
    let mut r = join3(registry, "/v2/", repository);
    r.append("/manifests/");
    r.append(reference);
    r
}

/// The URL of a blob.
pub open spec fn blob_url_of(registry: Seq<char>, repository: Seq<char>, digest: Seq<char>) -> Seq<
    char,
> {
    registry + "/v2/"@ + repository + "/blobs/"@ + digest
}

/// The URL of a blob.
pub fn blob_url(registry: &str, repository: &str, digest: &str) -> (r: String)
    ensures
        r@ == blob_url_of(registry@, repository@, digest@),
{
    let mut r = join3(registry, "/v2/", repository);
    r.append("/blobs/");
    r.append(digest);
    r
}

/// The `Authorization` header value for a token.
pub open spec fn bearer_of(token: Seq<char>) -> Seq<char> {
    "Bearer "@ + token
}

/// The `Authorization` header value for a token.
pub fn bearer(token: &str) -> (r: String)
    ensures
        r@ == bearer_of(token@),
{
    join2("Bearer ", token)
}

/// The shape of a manifest response, from its content type.
#[derive(Clone, Copy, Debug, PartialEq, Eq)]
pub enum ManifestKind {
    /// An OCI image index or a Docker manifest list: one entry per platform.
    Index,
    /// A single image manifest.
    Image,
    /// Anything else.
    Unsupported,
}

/// The shape that a content type announces.
pub open spec fn kind_of(content_type: Seq<char>) -> ManifestKind {
    if has_part(content_type, "image.index"@) || has_part(content_type, "manifest.list"@) {
        ManifestKind::Index
    } else if has_part(content_type, "manifest.v2"@) || has_part(content_type, "image.manifest"@) {
        ManifestKind::Image
    } else {
        ManifestKind::Unsupported
    }
}

/// The shape that a content type announces.
pub fn manifest_kind(content_type: &str) -> (r: ManifestKind)
    ensures
        r == kind_of(content_type@),
{
    if contains_text(content_type, "image.index") || contains_text(content_type, "manifest.list") {
        ManifestKind::Index
    } else if contains_text(content_type, "manifest.v2") || contains_text(
        content_type,
        "image.manifest",
    ) {
        ManifestKind::Image
    } else {
        ManifestKind::Unsupported
    }
}

/// The platform that an index entry was built for.
#[derive(Debug)]
pub struct Platform {
    pub os: String,
    pub architecture: String,
}

/// One entry of an image index: the digest of a platform's manifest.
#[derive(Debug)]
pub struct ManifestDescriptor {
    pub digest: String,
    pub media_type: String,
    pub platform: Platform,
}

/// A single image manifest: its config blob and its layers, in the order
/// they are applied.
#[derive(Debug)]
pub struct ImageManifest {
    pub config_digest: String,
    pub layers: Vec<String>,
}

/// Whether an entry was built for `os` and `arch`.
pub open spec fn is_for(d: ManifestDescriptor, os: Seq<char>, arch: Seq<char>) -> bool {
    d.platform.os@ == os && d.platform.architecture@ == arch
}

/// The entry that a platform selects: the first one built for it.
pub open spec fn selected(entries: Seq<ManifestDescriptor>, os: Seq<char>, arch: Seq<char>, k: int) -> bool {
    &&& 0 <= k < entries.len()
    &&& is_for(entries[k], os, arch)
    &&& forall|j: int| 0 <= j < k ==> !is_for(#[trigger] entries[j], os, arch)
}

/// The index of the entry built for `os` and `arch`; `None` when there is none.
pub fn select_platform(entries: &Vec<ManifestDescriptor>, os: &str, arch: &str) -> (r: Option<
    usize,
>)
    ensures
        match r {
            Some(k) => selected(entries@, os@, arch@, k as int),
            None => forall|j: int| 0 <= j < entries@.len() ==> !is_for(#[trigger] entries@[j], os@, arch@),
        },
{
    let mut i: usize = 0;
    while i < entries.len()
        invariant
            i <= entries@.len(),
            forall|j: int| 0 <= j < i ==> !is_for(#[trigger] entries@[j], os@, arch@),
        decreases entries@.len() - i,
    {
        let e = &entries[i];
        if same_text(e.platform.os.as_str(), os) && same_text(e.platform.architecture.as_str(), arch) {
            return Some(i);
        }
        i = i + 1;
    }
    None
}

} // verus!
