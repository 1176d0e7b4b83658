use sbin::install::{Action, Event, InstallError, Installer, ManifestResponse, Outcome};
use sbin::listing::{unversioned, version_label};
use sbin::registry::{ImageManifest, ManifestDescriptor, Platform};
use sbin::version::{parse_version, Version};

fn entry(digest: &str, os: &str, arch: &str) -> ManifestDescriptor {
    ManifestDescriptor {
        digest: digest.to_string(),
        media_type: "application/vnd.docker.distribution.manifest.v2+json".to_string(),
        platform: Platform { os: os.to_string(), architecture: arch.to_string() },
    }
}

fn image(layers: &[&str]) -> ImageManifest {
    ImageManifest {
        config_digest: "sha256:cfg".to_string(),
        layers: layers.iter().map(|d| d.to_string()).collect(),
    }
}

fn run(program: &str, installed: Option<Version>, force: bool) -> Installer {
    let mut r = Installer::new(program, installed, force).unwrap();
    match r.step(Event::Done) {
        Action::RequestToken { scope } => {
            assert_eq!(scope, format!("repository:lvillis/{}:pull", program))
        }
        other => panic!("unexpected {:?}", other),
    }
    r
}

/// Drives a run up to the candidate probe with a one-layer single manifest.
fn to_probe(program: &str, installed: Option<Version>, force: bool) -> Installer {
    let mut r = run(program, installed, force);
    assert!(matches!(r.step(Event::Token("t".to_string())), Action::RequestManifest { .. }));
    assert!(matches!(
        r.step(Event::Manifest(ManifestResponse::Image(image(&["sha256:l1"])))),
        Action::DownloadLayer { index: 0, .. }
    ));
    assert!(matches!(r.step(Event::Done), Action::ApplyLayer { index: 0 }));
    assert!(matches!(r.step(Event::Done), Action::LocateBinary { .. }));
    assert!(matches!(r.step(Event::BinaryPresent(true)), Action::ProbeCandidate { .. }));
    r
}

fn probe(r: &mut Installer, out: &str) -> Action {
    r.step(Event::ProbeOutput(Some(out.to_string())))
}

#[test]
fn end_to_end_bat_through_index() {
    let mut r = run("bat", None, false);
    let mut tokens = 0;
    let mut manifests = Vec::new();
    let mut blobs = Vec::new();
    let mut applied = Vec::new();
    let mut probes = 0;
    let mut copies = Vec::new();

    tokens += 1;
    let mut a = r.step(Event::Token("tok".to_string()));
    loop {
        let e = match a {
            Action::RequestManifest { url, accept, authorization } => {
                assert_eq!(authorization, "Bearer tok");
                manifests.push((url.clone(), accept));
                if manifests.len() == 1 {
                    Event::Manifest(ManifestResponse::Index(vec![
                        entry("sha256:arm", "linux", "arm64"),
                        entry("sha256:amd", "linux", "amd64"),
                    ]))
                } else {
                    Event::Manifest(ManifestResponse::Image(image(&["sha256:l1", "sha256:l2"])))
                }
            }
            Action::DownloadLayer { index, url, authorization } => {
                assert_eq!(authorization, "Bearer tok");
                blobs.push((index, url));
                Event::Done
            }
            Action::ApplyLayer { index } => {
                applied.push(index);
                Event::Done
            }
            Action::LocateBinary { path } => {
                assert_eq!(path, "usr/local/bin/bat");
                Event::BinaryPresent(true)
            }
            Action::ProbeCandidate { path } => {
                assert_eq!(path, "usr/local/bin/bat");
                probes += 1;
                Event::ProbeOutput(Some("bat 0.24.0 (fc95468)".to_string()))
            }
            Action::CopyBinary { path, file_name } => {
                copies.push((path, file_name));
                Event::Done
            }
            Action::Finish(o) => {
                assert_eq!(o, Outcome::Installed);
                break;
            }
            other => panic!("unexpected {:?}", other),
        };
        a = r.step(e);
    }
    assert!(r.is_finished());
    assert_eq!(tokens, 1);
    assert_eq!(manifests.len(), 2);
    assert_eq!(manifests[0].0, "https://registry-1.docker.io/v2/lvillis/bat/manifests/latest");
    assert!(manifests[0].1.starts_with("application/vnd.oci.image.index.v1+json"));
    assert_eq!(manifests[1].0, "https://registry-1.docker.io/v2/lvillis/bat/manifests/sha256:amd");
    assert!(!manifests[1].1.contains("manifest.list"));
    assert_eq!(
        blobs,
        vec![
            (0, "https://registry-1.docker.io/v2/lvillis/bat/blobs/sha256:l1".to_string()),
            (1, "https://registry-1.docker.io/v2/lvillis/bat/blobs/sha256:l2".to_string()),
        ]
    );
    assert_eq!(applied, vec![0, 1]);
    assert_eq!(probes, 1);
    assert_eq!(copies, vec![("usr/local/bin/bat".to_string(), "bat".to_string())]);
}

#[test]
fn index_without_target_platform_fails() {
    let mut r = run("bat", None, false);
    r.step(Event::Token("t".to_string()));
    let a = r.step(Event::Manifest(ManifestResponse::Index(vec![entry("d", "linux", "arm64")])));
    assert!(matches!(a, Action::Abort(InstallError::NoMatchingPlatform)));
    assert!(r.is_finished());
}

#[test]
fn single_manifest_used_as_is() {
    let mut r = run("sd", None, false);
    r.step(Event::Token("t".to_string()));
    match r.step(Event::Manifest(ManifestResponse::Image(image(&["sha256:x"])))) {
        Action::DownloadLayer { index, url, .. } => {
            assert_eq!(index, 0);
            assert_eq!(url, "https://registry-1.docker.io/v2/lvillis/sd/blobs/sha256:x");
        }
        other => panic!("unexpected {:?}", other),
    }
    assert_eq!(r.layers, vec!["sha256:x".to_string()]);
}

#[test]
fn image_without_layers_looks_for_binary() {
    let mut r = run("sd", None, false);
    r.step(Event::Token("t".to_string()));
    let a = r.step(Event::Manifest(ManifestResponse::Image(image(&[]))));
    assert!(matches!(a, Action::LocateBinary { .. }));
    assert!(matches!(r.step(Event::BinaryPresent(false)), Action::Abort(InstallError::BinaryNotFound)));
}

#[test]
fn unsupported_manifest_type() {
    let mut r = run("sd", None, false);
    r.step(Event::Token("t".to_string()));
    match r.step(Event::Manifest(ManifestResponse::Unsupported("text/html".to_string()))) {
        Action::Abort(InstallError::UnsupportedManifestType(ct)) => assert_eq!(ct, "text/html"),
        other => panic!("unexpected {:?}", other),
    }
}

#[test]
fn each_stage_failure_has_its_error() {
    let mut r = run("sd", None, false);
    assert!(matches!(r.step(Event::Failed), Action::Abort(InstallError::Auth)));

    let mut r = run("sd", None, false);
    r.step(Event::Token("t".to_string()));
    assert!(matches!(r.step(Event::Failed), Action::Abort(InstallError::Registry)));

    let mut r = run("sd", None, false);
    r.step(Event::Token("t".to_string()));
    r.step(Event::Manifest(ManifestResponse::Index(vec![entry("d", "linux", "amd64")])));
    let a = r.step(Event::Manifest(ManifestResponse::Index(Vec::new())));
    assert!(matches!(a, Action::Abort(InstallError::Registry)));

    let mut r = run("sd", None, false);
    r.step(Event::Token("t".to_string()));
    r.step(Event::Manifest(ManifestResponse::Image(image(&["a"]))));
    assert!(matches!(r.step(Event::Failed), Action::Abort(InstallError::Blob)));

    let mut r = run("sd", None, false);
    r.step(Event::Token("t".to_string()));
    r.step(Event::Manifest(ManifestResponse::Image(image(&["a"]))));
    r.step(Event::Done);
    assert!(matches!(r.step(Event::Failed), Action::Abort(InstallError::Extraction)));

    let mut r = to_probe("sd", None, false);
    assert!(matches!(r.step(Event::ProbeOutput(None)), Action::Abort(InstallError::VersionProbe)));

    let mut r = to_probe("sd", None, false);
    assert!(matches!(probe(&mut r, "sd unknown"), Action::Abort(InstallError::VersionProbe)));

    let mut r = to_probe("sd", None, false);
    assert!(matches!(probe(&mut r, "sd 1.0.0"), Action::CopyBinary { .. }));
    assert!(matches!(r.step(Event::Failed), Action::Abort(InstallError::Copy)));
}

#[test]
fn unmanaged_program_is_refused() {
    assert_eq!(Installer::new("vim", None, false).unwrap_err(), InstallError::NotManaged);
}

#[test]
fn same_version_skips_unless_forced() {
    let mut r = to_probe("just", parse_version("just 1.38.0"), false);
    assert!(matches!(probe(&mut r, "just 1.38.0"), Action::Finish(Outcome::UpToDate)));

    let mut r = to_probe("just", parse_version("just 1.38.0"), true);
    assert!(matches!(probe(&mut r, "just 1.38.0"), Action::CopyBinary { .. }));
    assert!(matches!(r.step(Event::Done), Action::Finish(Outcome::Reinstalled)));
}

#[test]
fn newer_installed_blocks() {
    let mut r = to_probe("just", parse_version("just 2.0.0"), true);
    assert!(matches!(probe(&mut r, "just 1.0.0"), Action::Finish(Outcome::NewerInstalled)));
}

#[test]
fn upgrade_asks_first() {
    let mut r = to_probe("just", parse_version("1.0.0"), false);
    assert!(matches!(probe(&mut r, "just 2.0.0"), Action::ConfirmUpgrade));
    assert!(matches!(r.step(Event::Confirmed(true)), Action::CopyBinary { .. }));
    assert!(matches!(r.step(Event::Done), Action::Finish(Outcome::Upgraded)));

    let mut r = to_probe("just", parse_version("1.0.0"), false);
    probe(&mut r, "just 2.0.0");
    assert!(matches!(r.step(Event::Confirmed(false)), Action::Finish(Outcome::Declined)));

    let mut r = to_probe("just", parse_version("1.0.0"), true);
    assert!(matches!(probe(&mut r, "just 2.0.0"), Action::CopyBinary { .. }));
}

#[test]
fn list_labels() {
    assert!(unversioned("bpftop"));
    assert!(!unversioned("kyanos"));
    assert_eq!(version_label(true, "kyanos", &Some("kyanos 1.5.0".to_string())), "kyanos 1.5.0");
    assert!(!unversioned("bat"));
    assert_eq!(version_label(false, "bat", &None), "Not installed");
    assert_eq!(version_label(true, "bpftop", &Some("x".to_string())), "Unsupported");
    assert_eq!(version_label(true, "bat", &None), "Unable to retrieve");
    assert_eq!(version_label(true, "bat", &Some(" \n".to_string())), "Unable to retrieve");
    assert_eq!(version_label(true, "bat", &Some("bat 0.24.0\n".to_string())), "bat 0.24.0");
}
