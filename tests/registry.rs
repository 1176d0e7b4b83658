use sbin::registry::{
    blob_url, bearer, check_managed, image_reference, managed_program, manifest_kind,
    manifest_url, select_platform, token_scope, ManifestDescriptor, ManifestKind, Platform,
    MANAGED_COUNT, REGISTRY_URL,
};
use sbin::text::{contains_text, same_text, trim_text};

fn entry(digest: &str, os: &str, arch: &str) -> ManifestDescriptor {
    ManifestDescriptor {
        digest: digest.to_string(),
        media_type: "application/vnd.oci.image.manifest.v1+json".to_string(),
        platform: Platform { os: os.to_string(), architecture: arch.to_string() },
    }
}

#[test]
fn managed_programs() {
    assert!(check_managed("bat"));
    assert!(check_managed("uv"));
    assert!(check_managed("docker-compose"));
    assert!(!check_managed("ba"));
    assert!(!check_managed("vim"));
    assert!(!check_managed(""));
    let all: Vec<&str> = (0..MANAGED_COUNT).map(managed_program).collect();
    assert_eq!(all.len(), 14);
    assert_eq!(all[0], "bat");
    assert_eq!(all[13], "uv");
}

#[test]
fn reference_and_urls() {
    let r = image_reference("bat");
    assert_eq!(r.repository, "lvillis/bat");
    assert_eq!(r.tag, "latest");
    assert_eq!(r.registry, REGISTRY_URL);
    assert_eq!(token_scope("lvillis/bat"), "repository:lvillis/bat:pull");
    assert_eq!(
        manifest_url("https://registry-1.docker.io", "lvillis/bat", "latest"),
        "https://registry-1.docker.io/v2/lvillis/bat/manifests/latest"
    );
    assert_eq!(
        blob_url("https://registry-1.docker.io", "lvillis/bat", "sha256:ab"),
        "https://registry-1.docker.io/v2/lvillis/bat/blobs/sha256:ab"
    );
    assert_eq!(bearer("tok"), "Bearer tok");
}

#[test]
fn manifest_kinds() {
    assert_eq!(manifest_kind("application/vnd.oci.image.index.v1+json"), ManifestKind::Index);
    assert_eq!(
        manifest_kind("application/vnd.docker.distribution.manifest.list.v2+json"),
        ManifestKind::Index
    );
    assert_eq!(
        manifest_kind("application/vnd.docker.distribution.manifest.v2+json"),
        ManifestKind::Image
    );
    assert_eq!(manifest_kind("application/vnd.oci.image.manifest.v1+json"), ManifestKind::Image);
    assert_eq!(manifest_kind("application/json"), ManifestKind::Unsupported);
    assert_eq!(manifest_kind(""), ManifestKind::Unsupported);
}

#[test]
fn platform_selection() {
    let es = vec![
        entry("sha256:arm", "linux", "arm64"),
        entry("sha256:amd", "linux", "amd64"),
        entry("sha256:win", "windows", "amd64"),
    ];
    assert_eq!(select_platform(&es, "linux", "amd64"), Some(1));
    assert_eq!(select_platform(&es, "linux", "arm64"), Some(0));
    assert_eq!(select_platform(&es, "darwin", "arm64"), None);
    assert_eq!(select_platform(&Vec::new(), "linux", "amd64"), None);
    let twice = vec![entry("a", "linux", "amd64"), entry("b", "linux", "amd64")];
    assert_eq!(select_platform(&twice, "linux", "amd64"), Some(0));
}

#[test]
fn text_helpers() {
    assert!(contains_text("abc", ""));
    assert!(contains_text("abcabd", "abd"));
    assert!(!contains_text("ab", "abc"));
    assert!(same_text("bat", "bat"));
    assert!(!same_text("bat", "bats"));
    assert_eq!(trim_text("  x y \n"), "x y");
    assert_eq!(trim_text(" \t "), "");
}
