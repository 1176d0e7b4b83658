use sbin::version::{decide, decision_for, installed_version, parse_version, InstallDecision, Version};
use std::cmp::Ordering;

fn v(text: &str) -> Version {
    parse_version(text).expect("version")
}

fn triple(x: &Version) -> (u64, u64, u64) {
    (x.major(), x.minor(), x.patch())
}

#[test]
fn parses_plain_version_after_name() {
    let x = parse_version("tool 1.2.3").unwrap();
    assert_eq!(triple(&x), (1, 2, 3));
    assert_eq!(x.pre(), "");
    assert_eq!(x.build(), "");
}

#[test]
fn parses_v_prefix_and_prerelease() {
    let x = parse_version("tool v1.2.3-beta").unwrap();
    assert_eq!(triple(&x), (1, 2, 3));
    assert_eq!(x.pre(), "beta");
}

#[test]
fn line_without_version_is_unparsable() {
    assert!(parse_version("tool version unknown").is_none());
    assert!(parse_version("").is_none());
    assert!(parse_version("   \t ").is_none());
}

#[test]
fn only_first_line_is_read() {
    assert!(parse_version("tool\n1.2.3").is_none());
    let x = parse_version("just 1.38.0\nbuilt 2.0.0").unwrap();
    assert_eq!(triple(&x), (1, 38, 0));
}

#[test]
fn first_parseable_word_wins() {
    let x = parse_version("tool 1.2 3.4.5 6.7.8").unwrap();
    assert_eq!(triple(&x), (3, 4, 5));
    let x = parse_version("bat 0.24.0 (fc95468)\r\n").unwrap();
    assert_eq!(triple(&x), (0, 24, 0));
}

#[test]
fn build_metadata_is_kept() {
    let x = parse_version("uv 0.4.1+7").unwrap();
    assert_eq!(triple(&x), (0, 4, 1));
    assert_eq!(x.build(), "7");
}

#[test]
fn single_v_prefix_only() {
    assert!(parse_version("vv1.2.3").is_none());
    assert!(parse_version("v").is_none());
}

#[test]
fn decision_table() {
    assert_eq!(decide(&v("1.0.0"), &None, false), InstallDecision::Install);
    assert_eq!(decide(&v("1.0.0"), &None, true), InstallDecision::Install);
    assert_eq!(decide(&v("2.0.0"), &Some(v("1.0.0")), false), InstallDecision::Upgrade);
    assert_eq!(decide(&v("2.0.0"), &Some(v("1.0.0")), true), InstallDecision::Upgrade);
    assert_eq!(decide(&v("1.0.0"), &Some(v("1.0.0")), false), InstallDecision::Skip);
    assert_eq!(decide(&v("1.0.0"), &Some(v("1.0.0")), true), InstallDecision::Reinstall);
    assert_eq!(decide(&v("1.0.0"), &Some(v("2.0.0")), false), InstallDecision::DowngradeBlock);
    assert_eq!(decide(&v("1.0.0"), &Some(v("2.0.0")), true), InstallDecision::DowngradeBlock);
}

#[test]
fn prerelease_precedes_release() {
    assert_eq!(decide(&v("1.0.0"), &Some(v("1.0.0-rc.1")), false), InstallDecision::Upgrade);
    assert_eq!(decide(&v("1.0.0-beta.11"), &Some(v("1.0.0-beta.2")), false), InstallDecision::Upgrade);
    assert_eq!(decide(&v("1.9.0"), &Some(v("1.10.0")), false), InstallDecision::DowngradeBlock);
}

#[test]
fn decision_from_order() {
    assert_eq!(decision_for(None, false), InstallDecision::Install);
    assert_eq!(decision_for(Some(Ordering::Greater), false), InstallDecision::Upgrade);
    assert_eq!(decision_for(Some(Ordering::Equal), false), InstallDecision::Skip);
    assert_eq!(decision_for(Some(Ordering::Equal), true), InstallDecision::Reinstall);
    assert_eq!(decision_for(Some(Ordering::Less), true), InstallDecision::DowngradeBlock);
}

#[test]
fn installed_version_from_probe() {
    assert!(installed_version(&None).is_none());
    assert!(installed_version(&Some("garbage".to_string())).is_none());
    let x = installed_version(&Some("eza v0.20.1 [+git]".to_string())).unwrap();
    assert_eq!(triple(&x), (0, 20, 1));
}
