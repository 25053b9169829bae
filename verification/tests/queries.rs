use check_latest::{MaxAndNew, SemVer, Timestamp, Version, Versions};

fn release(text: &str, yanked: bool, at: i64) -> Version {
    Version::new(SemVer::parse(text).unwrap(), yanked, Timestamp::new(at, 0))
}

fn sample() -> Versions {
    Versions::from_releases(vec![
        release("1.0.0", false, 100),
        release("1.1.0", false, 200),
        release("2.0.0", false, 300),
        release("1.1.1", true, 400),
        release("2.1.0", true, 350),
        release("1.0.5", false, 500),
        release("0.9.0", true, 50),
    ])
}

fn text(r: Option<&Version>) -> Option<String> {
    r.map(|v| v.to_string())
}

fn some(s: &str) -> Option<String> {
    Some(String::from(s))
}

#[test]
fn empty_list_answers_nothing() {
    let versions = Versions::from_releases(Vec::new());
    assert!(versions.max_version().is_none());
    assert!(versions.max_unyanked_version().is_none());
    assert!(versions.max_yanked_version().is_none());
    assert!(versions.max_minor_version(1).is_none());
    assert!(versions.max_unyanked_minor_version(1).is_none());
    assert!(versions.max_yanked_minor_version(1).is_none());
    assert!(versions.max_patch(1, 0).is_none());
    assert!(versions.max_unyanked_patch(1, 0).is_none());
    assert!(versions.max_yanked_patch(1, 0).is_none());
    assert!(versions.newest_version().is_none());
    assert!(versions.newest_unyanked_version().is_none());
    assert!(versions.newest_yanked_version().is_none());
    assert!(MaxAndNew::of(&versions).is_none());
}

#[test]
fn max_version_is_not_exceeded() {
    let versions = sample();
    let max = versions.max_version().unwrap();
    assert_eq!(max.to_string(), "2.1.0 (yanked)");
    for v in versions.versions() {
        assert!(!max.version.precedes(&v.version));
    }
}

#[test]
fn max_queries_filter_by_yanked() {
    let versions = sample();
    assert_eq!(text(versions.max_version()), some("2.1.0 (yanked)"));
    assert_eq!(text(versions.max_unyanked_version()), some("2.0.0"));
    assert_eq!(text(versions.max_yanked_version()), some("2.1.0 (yanked)"));
}

#[test]
fn max_queries_filter_by_major() {
    let versions = sample();
    assert_eq!(text(versions.max_minor_version(1)), some("1.1.1 (yanked)"));
    assert_eq!(text(versions.max_unyanked_minor_version(1)), some("1.1.0"));
    assert_eq!(text(versions.max_yanked_minor_version(1)), some("1.1.1 (yanked)"));
    assert_eq!(text(versions.max_minor_version(0)), some("0.9.0 (yanked)"));
    assert_eq!(text(versions.max_unyanked_minor_version(0)), None);
    assert_eq!(text(versions.max_yanked_minor_version(2)), some("2.1.0 (yanked)"));
    assert_eq!(text(versions.max_minor_version(3)), None);
}

#[test]
fn max_queries_filter_by_major_and_minor() {
    let versions = sample();
    assert_eq!(text(versions.max_patch(1, 0)), some("1.0.5"));
    assert_eq!(text(versions.max_unyanked_patch(1, 0)), some("1.0.5"));
    assert_eq!(text(versions.max_yanked_patch(1, 0)), None);
    assert_eq!(text(versions.max_patch(1, 1)), some("1.1.1 (yanked)"));
    assert_eq!(text(versions.max_unyanked_patch(1, 1)), some("1.1.0"));
    assert_eq!(text(versions.max_yanked_patch(1, 1)), some("1.1.1 (yanked)"));
    assert_eq!(text(versions.max_patch(2, 0)), some("2.0.0"));
    assert_eq!(text(versions.max_patch(0, 0)), None);
    assert_eq!(text(versions.max_patch(1, 2)), None);
}

#[test]
fn newest_queries_go_by_time() {
    let versions = sample();
    assert_eq!(text(versions.newest_version()), some("1.0.5"));
    assert_eq!(text(versions.newest_unyanked_version()), some("1.0.5"));
    assert_eq!(text(versions.newest_yanked_version()), some("1.1.1 (yanked)"));
}

#[test]
fn all_yanked_leaves_nothing_unyanked() {
    let versions = Versions::from_releases(vec![
        release("1.0.0", true, 1),
        release("1.1.0", true, 2),
        release("2.0.0", true, 3),
    ]);
    assert!(versions.max_unyanked_version().is_none());
    assert!(versions.max_unyanked_minor_version(1).is_none());
    assert!(versions.max_unyanked_patch(1, 0).is_none());
    assert!(versions.newest_unyanked_version().is_none());
    assert_eq!(text(versions.max_version()), some("2.0.0 (yanked)"));
    assert_eq!(text(versions.newest_version()), some("2.0.0 (yanked)"));
    assert!(MaxAndNew::of(&versions).is_none());
}

#[test]
fn constrained_query_is_query_on_filtered_list() {
    let versions = sample();
    for major in 0..4u64 {
        let filtered = Versions::from_releases(
            sample().versions_owned().into_iter().filter(|v| v.major() == major).collect(),
        );
        assert_eq!(text(versions.max_minor_version(major)), text(filtered.max_version()));
        for minor in 0..3u64 {
            let filtered = Versions::from_releases(
                sample()
                    .versions_owned()
                    .into_iter()
                    .filter(|v| v.major() == major && v.minor() == minor)
                    .collect(),
            );
            assert_eq!(text(versions.max_patch(major, minor)), text(filtered.max_version()));
        }
    }
    let unyanked =
        Versions::from_releases(sample().versions_owned().into_iter().filter(|v| !v.yanked).collect());
    assert_eq!(text(versions.max_unyanked_version()), text(unyanked.max_version()));
    assert_eq!(text(versions.newest_unyanked_version()), text(unyanked.newest_version()));
}

#[test]
fn newest_and_max_can_disagree() {
    let versions =
        Versions::from_releases(vec![release("2.0.0", false, 1000), release("1.5.1", false, 2000)]);
    assert_eq!(text(versions.max_version()), some("2.0.0"));
    assert_eq!(text(versions.newest_version()), some("1.5.1"));
    let summary = MaxAndNew::of(&versions).unwrap();
    assert_eq!(summary.max_version.to_string(), "2.0.0");
    assert_eq!(summary.newest_version.to_string(), "1.5.1");
}

#[test]
fn same_query_twice_gives_the_same() {
    let versions = sample();
    assert_eq!(text(versions.max_version()), text(versions.max_version()));
    assert_eq!(text(versions.max_unyanked_patch(1, 0)), text(versions.max_unyanked_patch(1, 0)));
    assert_eq!(text(versions.newest_yanked_version()), text(versions.newest_yanked_version()));
    let first = versions.max_unyanked_version().unwrap();
    let second = versions.max_unyanked_version().unwrap();
    assert!(std::ptr::eq(first, second));
}

#[test]
fn first_of_equal_maxima_is_returned() {
    let versions = Versions::from_releases(vec![
        release("1.0.0", false, 7),
        release("2.0.0+first", false, 7),
        release("2.0.0+second", true, 7),
        release("2.0.0", false, 7),
    ]);
    assert_eq!(text(versions.max_version()), some("2.0.0+first"));
    assert_eq!(text(versions.max_yanked_version()), some("2.0.0+second (yanked)"));
    assert_eq!(text(versions.newest_version()), some("1.0.0"));
    assert_eq!(text(versions.newest_yanked_version()), some("2.0.0+second (yanked)"));
}

#[test]
fn pre_release_is_below_its_release_in_queries() {
    let versions = Versions::from_releases(vec![
        release("1.0.0-rc.1", false, 1),
        release("1.0.0-alpha", false, 2),
        release("1.0.0-rc.1", false, 3),
    ]);
    let max = versions.max_version().unwrap();
    assert_eq!(max.to_string(), "1.0.0-rc.1");
    assert_eq!(max.created_at, Timestamp::new(1, 0));
}

#[test]
fn list_can_be_changed_before_asking_again() {
    let mut versions = sample();
    assert_eq!(versions.versions().len(), 7);
    versions.versions_mut().push(release("3.0.0", false, 600));
    assert_eq!(versions.versions().len(), 8);
    assert_eq!(text(versions.max_version()), some("3.0.0"));
    assert_eq!(text(versions.newest_version()), some("3.0.0"));
    versions.versions_mut().clear();
    assert!(versions.max_version().is_none());
    assert!(versions.versions_owned().is_empty());
}

#[test]
fn time_breaks_ties_by_nanoseconds() {
    let a = Version::new(SemVer::new(1, 0, 0), false, Timestamp::new(10, 5));
    let b = Version::new(SemVer::new(1, 0, 1), false, Timestamp::new(10, 6));
    let c = Version::new(SemVer::new(1, 0, 2), false, Timestamp::new(9, 999));
    let versions = Versions::from_releases(vec![a, b, c]);
    assert_eq!(text(versions.newest_version()), some("1.0.1"));
}

#[test]
fn owned_queries_hand_out_the_release() {
    assert_eq!(sample().max_version_owned().unwrap().to_string(), "2.1.0 (yanked)");
    assert_eq!(sample().max_unyanked_version_owned().unwrap().to_string(), "2.0.0");
    assert_eq!(sample().max_yanked_version_owned().unwrap().to_string(), "2.1.0 (yanked)");
    assert_eq!(sample().max_minor_version_owned(1).unwrap().to_string(), "1.1.1 (yanked)");
    assert_eq!(sample().max_unyanked_minor_version_owned(1).unwrap().to_string(), "1.1.0");
    assert_eq!(sample().max_yanked_minor_version_owned(2).unwrap().to_string(), "2.1.0 (yanked)");
    assert_eq!(sample().max_patch_owned(1, 0).unwrap().to_string(), "1.0.5");
    assert_eq!(sample().max_unyanked_patch_owned(1, 1).unwrap().to_string(), "1.1.0");
    assert!(sample().max_yanked_patch_owned(1, 0).is_none());
    assert_eq!(sample().newest_version_owned().unwrap().to_string(), "1.0.5");
    assert_eq!(sample().newest_unyanked_version_owned().unwrap().to_string(), "1.0.5");
    let newest = sample().newest_yanked_version_owned().unwrap();
    assert_eq!(newest.to_string(), "1.1.1 (yanked)");
    assert_eq!(newest.created_at, Timestamp::new(400, 0));
    assert!(Versions::from_releases(Vec::new()).max_version_owned().is_none());
}
