use check_latest::{
    get_max_minor_version, get_max_patch, get_max_version, get_newest_version, get_version_list,
    CratesioResponse, SemVer, Stage, VersionListItem, Versions,
};

fn registry(entries: &[(&str, bool, &str)]) -> Versions {
    let items = entries
        .iter()
        .map(|(num, yanked, at)| VersionListItem {
            num: Some(String::from(*num)),
            yanked: Some(*yanked),
            created_at: Some(String::from(*at)),
        })
        .collect();
    Versions::new(&CratesioResponse { versions: Some(items) }).unwrap()
}

fn text(r: Option<SemVer>) -> Option<String> {
    r.map(|v| v.to_string())
}

fn some(s: &str) -> Option<String> {
    Some(String::from(s))
}

#[test]
fn newer_version_minor_and_patch() {
    let versions = registry(&[
        ("1.0.0", false, "2020-01-01T00:00:00Z"),
        ("1.1.0", false, "2020-02-01T00:00:00Z"),
        ("2.0.0", false, "2020-03-01T00:00:00Z"),
    ]);
    assert_eq!(text(get_max_version(&versions, "1.0.0").unwrap()), some("2.0.0"));
    assert_eq!(text(get_max_minor_version(&versions, "1.0.0").unwrap()), some("1.1.0"));
    assert_eq!(text(get_max_patch(&versions, "1.0.0").unwrap()), None);
}

#[test]
fn yanked_release_is_not_offered() {
    let versions = registry(&[
        ("1.0.0", true, "2020-02-01T00:00:00Z"),
        ("0.9.0", false, "2020-01-01T00:00:00Z"),
    ]);
    assert_eq!(versions.max_unyanked_version().unwrap().to_string(), "0.9.0");
    assert_eq!(versions.max_version().unwrap().to_string(), "1.0.0 (yanked)");
    assert_eq!(text(get_max_version(&versions, "0.9.0").unwrap()), None);
    assert_eq!(text(get_max_minor_version(&versions, "0.9.0").unwrap()), None);
    assert_eq!(text(get_max_patch(&versions, "0.9.0").unwrap()), None);
    assert_eq!(text(get_newest_version(&versions, "0.9.0").unwrap()), None);
}

#[test]
fn newer_patch_is_found_in_the_same_line() {
    let versions = registry(&[
        ("1.0.0", false, "2020-01-01T00:00:00Z"),
        ("1.0.7", false, "2020-01-05T00:00:00Z"),
        ("1.0.9", true, "2020-01-06T00:00:00Z"),
        ("1.1.3", false, "2020-02-01T00:00:00Z"),
        ("2.4.0", false, "2020-03-01T00:00:00Z"),
    ]);
    assert_eq!(text(get_max_patch(&versions, "1.0.2").unwrap()), some("1.0.7"));
    assert_eq!(text(get_max_patch(&versions, "1.0.7").unwrap()), None);
    assert_eq!(text(get_max_patch(&versions, "1.0.8").unwrap()), None);
    assert_eq!(text(get_max_patch(&versions, "1.1.0").unwrap()), some("1.1.3"));
    assert_eq!(text(get_max_patch(&versions, "1.2.0").unwrap()), None);
    assert_eq!(text(get_max_minor_version(&versions, "1.0.2").unwrap()), some("1.1.3"));
    assert_eq!(text(get_max_minor_version(&versions, "1.1.3").unwrap()), None);
    assert_eq!(text(get_max_minor_version(&versions, "2.0.0").unwrap()), some("2.4.0"));
    assert_eq!(text(get_max_minor_version(&versions, "3.0.0").unwrap()), None);
    assert_eq!(text(get_max_version(&versions, "2.3.9").unwrap()), some("2.4.0"));
    assert_eq!(text(get_max_version(&versions, "2.4.0").unwrap()), None);
    assert_eq!(text(get_max_version(&versions, "2.4.0+local").unwrap()), None);
    assert_eq!(text(get_max_version(&versions, "2.4.0-rc.1").unwrap()), some("2.4.0"));
    assert_eq!(text(get_max_version(&versions, "9.0.0").unwrap()), None);
}

#[test]
fn newest_is_reported_only_if_its_version_is_greater() {
    let versions = registry(&[
        ("2.0.0", false, "2020-01-01T00:00:00Z"),
        ("1.5.1", false, "2020-06-01T00:00:00Z"),
        ("3.0.0", true, "2020-07-01T00:00:00Z"),
    ]);
    assert_eq!(text(get_newest_version(&versions, "1.0.0").unwrap()), some("1.5.1"));
    assert_eq!(text(get_newest_version(&versions, "1.5.1").unwrap()), None);
    assert_eq!(text(get_newest_version(&versions, "2.0.0").unwrap()), None);
    assert_eq!(text(get_max_version(&versions, "1.0.0").unwrap()), some("2.0.0"));
}

#[test]
fn unreadable_current_version_is_an_input_error() {
    let versions = registry(&[("1.0.0", false, "2020-01-01T00:00:00Z")]);
    for check in [get_max_version, get_max_minor_version, get_max_patch, get_newest_version] {
        let e = check(&versions, "one").unwrap_err();
        assert_eq!(e.stage(), Stage::Input);
        assert_eq!(e.to_string(), "Couldn't parse current version");
    }
    let hyphens = "-".repeat(1000);
    assert_eq!(get_max_version(&versions, &hyphens).unwrap_err().stage(), Stage::Input);
}

#[test]
fn empty_registry_has_nothing_newer() {
    let versions = registry(&[]);
    assert_eq!(text(get_max_version(&versions, "0.0.1").unwrap()), None);
    assert_eq!(text(get_max_minor_version(&versions, "0.0.1").unwrap()), None);
    assert_eq!(text(get_max_patch(&versions, "0.0.1").unwrap()), None);
    assert_eq!(text(get_newest_version(&versions, "0.0.1").unwrap()), None);
}

#[test]
fn version_list_leaves_out_what_was_yanked() {
    let versions = registry(&[
        ("1.0.0", false, "2020-01-01T00:00:00Z"),
        ("1.0.7+b", true, "2020-01-05T00:00:00Z"),
        ("0.1.0-rc.1", false, "2020-01-06T00:00:00Z"),
        ("1.1.3", true, "2020-02-01T00:00:00Z"),
        ("2.4.0", false, "2020-03-01T00:00:00Z"),
    ]);
    let numbers: Vec<String> = get_version_list(&versions).iter().map(|v| v.to_string()).collect();
    assert_eq!(numbers, ["1.0.0", "0.1.0-rc.1", "2.4.0"]);
    assert!(get_version_list(&registry(&[])).is_empty());
    assert!(get_version_list(&registry(&[("1.0.0", true, "2020-01-01T00:00:00Z")])).is_empty());
}
