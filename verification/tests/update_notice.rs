use cram::update::{
    cache_from_release, cache_path, get_cached_update_notice, should_check_for_update, UpdateCache,
};

const RELEASES: &str = "https://github.com/revises-org/cram/releases";

fn cache(version: &str) -> UpdateCache {
    UpdateCache {
        last_check: 100,
        latest_version: version.into(),
        html_url: None,
    }
}

#[test]
fn test_disabled_returns_none() {
    assert_eq!(get_cached_update_notice(true, None, "0.1.2"), None);
    assert_eq!(get_cached_update_notice(true, Some(&cache("v999.0.0")), "0.1.2"), None);
}

#[test]
fn test_cached_notice_with_mock_cache() {
    // Older version -> None
    let cache_older = UpdateCache {
        last_check: 100,
        latest_version: "0.0.1".into(),
        html_url: None,
    };
    assert_eq!(get_cached_update_notice(false, Some(&cache_older), "0.1.2"), None);

    // Newer version -> Some
    let cache_newer = UpdateCache {
        last_check: 100,
        latest_version: "v999.0.0".into(),
        html_url: Some("https://example.com/release".into()),
    };
    let notice = get_cached_update_notice(false, Some(&cache_newer), "0.1.2");
    assert!(notice.is_some());
    let (ver, url) = notice.unwrap();
    assert_eq!(ver, "999.0.0");
    assert_eq!(url, "https://github.com/revises-org/cram/releases");

    // Newer prerelease -> None when current is stable
    let cache_pre = UpdateCache {
        last_check: 100,
        latest_version: "v999.0.0-rc.1".into(),
        html_url: None,
    };
    assert_eq!(get_cached_update_notice(false, Some(&cache_pre), "0.1.2"), None);
}

#[test]
fn test_semver_comparison_logic() {
    let notice = |latest: &str, current: &str| get_cached_update_notice(false, Some(&cache(latest)), current);
    assert_eq!(notice("0.10.0", "0.9.0"), Some(("0.10.0".to_string(), RELEASES.to_string())));
    // A prerelease of 0.10.0 ranks above 0.9.0: 0.9.0 is not newer than it ...
    assert_eq!(notice("0.9.0", "0.10.0-rc.1"), None);
    // ... and it is newer than a prerelease of 0.9.0
    assert_eq!(notice("0.10.0-rc.1", "0.9.0-rc.1"), Some(("0.10.0-rc.1".to_string(), RELEASES.to_string())));
    // Ignore prereleases if current is stable
    assert_eq!(notice("0.10.0-rc.1", "0.9.0"), None);
    // Allowed because current is also a prerelease
    assert_eq!(notice("0.10.0-rc.2", "0.10.0-rc.1"), Some(("0.10.0-rc.2".to_string(), RELEASES.to_string())));
}

#[test]
fn notice_edge_cases() {
    assert_eq!(get_cached_update_notice(false, None, "0.1.2"), None);
    assert_eq!(get_cached_update_notice(false, Some(&cache("0.1.2")), "0.1.2"), None);
    assert_eq!(get_cached_update_notice(false, Some(&cache("not-a-version")), "0.1.2"), None);
    assert_eq!(get_cached_update_notice(false, Some(&cache("1.0.0")), "garbage"), None);
    assert_eq!(
        get_cached_update_notice(false, Some(&cache("vv1.0.0")), "0.1.2"),
        Some(("1.0.0".to_string(), RELEASES.to_string()))
    );
    // a release ranks above its own pre-release
    assert_eq!(
        get_cached_update_notice(false, Some(&cache("1.0.0")), "1.0.0-rc.1"),
        Some(("1.0.0".to_string(), RELEASES.to_string()))
    );
    assert_eq!(get_cached_update_notice(false, Some(&cache("1.0.0-alpha")), "1.0.0-beta"), None);
}

#[test]
fn recheck_interval() {
    assert!(!should_check_for_update(true, 1_000_000, None));
    assert!(should_check_for_update(false, 1_000_000, None));
    assert!(!should_check_for_update(false, 100 + 86399, Some(100)));
    assert!(should_check_for_update(false, 100 + 86400, Some(100)));
    // a cache dated in the future counts as fresh
    assert!(!should_check_for_update(false, 50, Some(100)));
}

#[test]
fn cache_written_from_release() {
    let c = cache_from_release(42, "v1.2.3", Some("https://example.com/r".into())).unwrap();
    assert_eq!(c, UpdateCache {
        last_check: 42,
        latest_version: "1.2.3".into(),
        html_url: Some("https://example.com/r".into()),
    });
    assert_eq!(cache_from_release(42, "release-1", None), None);
    // reading back the written entry announces exactly the stored version
    let notice = get_cached_update_notice(false, Some(&c), "0.1.2").unwrap();
    assert_eq!(notice.0, c.latest_version);
    assert_eq!(cache_path("/home/u/.cram"), "/home/u/.cram/update-check.json");
}
