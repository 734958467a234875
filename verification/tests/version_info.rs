use mbus_events::timestamp::Timestamp;
use mbus_events::version::{GitVersion, VersionInfo};

#[test]
fn long_describe_strings_split_into_tag_count_and_hash() {
    let gv = GitVersion::parse_git_ver("v2.7.3-15-gabc123def456");
    assert_eq!(gv.tag, Some("v2.7.3".to_string()));
    assert_eq!(gv.num_commits, Some("15".to_string()));
    assert_eq!(gv.commit_hash, "abc123def456");
}

#[test]
fn tags_containing_separators_split_at_the_last_one() {
    let gv = GitVersion::parse_git_ver("release-candidate-3-g0123456789ab");
    assert_eq!(gv.tag, Some("release-candidate".to_string()));
    assert_eq!(gv.num_commits, Some("3".to_string()));
    assert_eq!(gv.commit_hash, "0123456789ab");
}

#[test]
fn bare_hashes_are_taken_whole() {
    let gv = GitVersion::parse_git_ver("abc123def456");
    assert_eq!(gv.commit_hash, "abc123def456");
    assert_eq!(gv.tag, None);
    assert_eq!(gv.num_commits, None);

    // Uppercase hex digits do not match the long form.
    let gv = GitVersion::parse_git_ver("v1.0.0-2-gABC123DEF456");
    assert_eq!(gv.commit_hash, "v1.0.0-2-gABC123DEF456");
    assert_eq!(gv.tag, None);
}

#[test]
fn version_info_fills_placeholders() {
    let info = VersionInfo::new(
        "v1.2.3-4-gfeedfacecafe".to_string(),
        "".to_string(),
        "".to_string(),
        Some("1.2.3".to_string()),
        None,
        "debug".to_string(),
    );
    assert_eq!(info.commit_hash, "feedfacecafe");
    assert_eq!(info.version_tag, Some("v1.2.3".to_string()));
    assert_eq!(info.pkg_name, "unknown");
    assert_eq!(info.bin_name, "");
    assert_eq!(info.fmt_description(), "Application 'unknown' (debug)");
    assert_eq!(info.version_string(), "version 1.2.3, revision feedfacecafe (v1.2.3)");
}

#[test]
fn description_names_a_distinct_binary() {
    let info = VersionInfo::new(
        "deadbeef".to_string(),
        "pkg".to_string(),
        "A control plane".to_string(),
        None,
        Some("pkg-cli".to_string()),
        "".to_string(),
    );
    assert_eq!(info.fmt_description(), "A control plane (pkg-cli)");
    assert_eq!(info.version_string(), "revision deadbeef");

    let same_name = VersionInfo::new(
        "deadbeef".to_string(),
        "pkg".to_string(),
        "A control plane".to_string(),
        None,
        Some("pkg".to_string()),
        "".to_string(),
    );
    assert_eq!(same_name.fmt_description(), "A control plane");
}

#[test]
fn normalize_folds_nanos_into_seconds() {
    let mut t = Timestamp { seconds: 1, nanos: 1_500_000_000 };
    t.normalize();
    assert_eq!(t, Timestamp { seconds: 2, nanos: 500_000_000 });

    let mut t = Timestamp { seconds: 5, nanos: -500_000_000 };
    t.normalize();
    assert_eq!(t, Timestamp { seconds: 4, nanos: 500_000_000 });

    let mut t = Timestamp { seconds: 0, nanos: -2_000_000_001 };
    t.normalize();
    assert_eq!(t, Timestamp { seconds: -3, nanos: 999_999_999 });

    let mut t = Timestamp { seconds: 7, nanos: 999_999_999 };
    t.normalize();
    assert_eq!(t, Timestamp { seconds: 7, nanos: 999_999_999 });
}

#[test]
fn normalize_clamps_at_the_representable_extremes() {
    let mut t = Timestamp { seconds: i64::MAX, nanos: 2_000_000_000 };
    t.normalize();
    assert_eq!(t, Timestamp { seconds: i64::MAX, nanos: 999_999_999 });

    let mut t = Timestamp { seconds: i64::MIN, nanos: -1 };
    t.normalize();
    assert_eq!(t, Timestamp { seconds: i64::MIN, nanos: 0 });

    let mut t = Timestamp { seconds: i64::MIN, nanos: -1_999_999_999 };
    t.normalize();
    assert_eq!(t, Timestamp { seconds: i64::MIN, nanos: 0 });
}
