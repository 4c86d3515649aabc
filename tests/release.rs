use based_ffmpreg::executable::{
    artifact_reusable, fs_tag_name, RefreshPlan, UpdateScheduler, YtDlp, UPDATE_CHECK_INTERVAL_MS,
};
use based_ffmpreg::release::{Asset, Release, Releases, ToolRelease};
use std::cmp::Ordering;

fn asset(name: &str, size: u64) -> Asset {
    Asset {
        name: name.to_string(),
        browser_download_url: format!("https://dl/{name}"),
        size,
    }
}

fn release(tag: &str, assets: Vec<Asset>, prerelease: bool, draft: bool) -> Release {
    Release { tag_name: tag.to_string(), assets, prerelease, draft }
}

fn feed() -> Releases {
    Releases(vec![
        release("2025.02.01", vec![asset("yt-dlp_linux", 1)], false, true),
        release("2025.01.20", vec![asset("yt-dlp_linux", 2)], true, false),
        release("2025.01.15", vec![asset("yt-dlp.exe", 3)], false, false),
        release("2025.01.10", vec![asset("yt-dlp.exe", 4), asset("yt-dlp_linux", 5)], false, false),
        release("2024.12.01", vec![asset("yt-dlp_linux", 6)], false, false),
    ])
}

#[test]
fn latest_skips_drafts_prereleases_and_missing_assets() {
    let t = feed().latest("yt-dlp_linux").unwrap();
    assert_eq!(t.tag_name, "2025.01.10");
    assert_eq!(t.browser_download_url, "https://dl/yt-dlp_linux");
    assert_eq!(t.size, 5);
    assert_eq!(feed().latest("yt-dlp.exe").unwrap().tag_name, "2025.01.15");
    assert!(feed().latest("yt-dlp_macos").is_none());
    assert!(Releases(vec![]).latest("yt-dlp_linux").is_none());
}

#[test]
fn assets_compare_by_name() {
    assert!(asset("a", 1) == asset("a", 2));
    assert!(asset("a", 1) != asset("b", 1));
    assert_eq!(asset("a", 9).partial_cmp(&asset("b", 1)), Some(Ordering::Less));
    assert_eq!(asset("ab", 1).partial_cmp(&asset("a", 1)), Some(Ordering::Greater));
    assert_eq!(asset("é", 1).partial_cmp(&asset("z", 1)), Some(Ordering::Greater));
    assert_eq!(asset("same", 1).partial_cmp(&asset("same", 7)), Some(Ordering::Equal));
}

#[test]
fn tags_become_file_names() {
    assert_eq!(fs_tag_name("2025.01.10").into_iter().collect::<String>(), "2025-01-10");
    assert_eq!(fs_tag_name("v1_ä").into_iter().collect::<String>(), "v1--");
    let t = ToolRelease { tag_name: "2025.01.10".to_string(), browser_download_url: String::new(), size: 0 };
    assert_eq!(YtDlp::for_release(&t, "yt-dlp_linux").exe_path, "yt_dlp_exe/yt_dlp_2025-01-10");
    assert_eq!(YtDlp::for_release(&t, "yt-dlp.exe").exe_path, "yt_dlp_exe/yt_dlp_2025-01-10.exe");
    assert_eq!(YtDlp::for_release(&t, ".hidden").exe_path, "yt_dlp_exe/yt_dlp_2025-01-10");
}

#[test]
fn second_refresh_downloads_nothing() {
    let installed = YtDlp { tag_name: "2024.12.01".to_string(), exe_path: "old".to_string() };
    let fetched = match installed.plan_refresh(&feed(), "yt-dlp_linux") {
        RefreshPlan::Fetch(t) => t,
        other => panic!("expected a fetch, got {other:?}"),
    };
    assert_eq!(fetched.tag_name, "2025.01.10");
    let updated = YtDlp::for_release(&fetched, "yt-dlp_linux");
    assert!(matches!(updated.plan_refresh(&feed(), "yt-dlp_linux"), RefreshPlan::AlreadyCurrent));
    assert!(matches!(updated.plan_refresh(&feed(), "yt-dlp_macos"), RefreshPlan::NoRelease));
}

#[test]
fn cached_artifact_needs_exact_size() {
    assert!(artifact_reusable(Some(5), 5));
    assert!(!artifact_reusable(Some(4), 5));
    assert!(!artifact_reusable(None, 5));
}

#[test]
fn update_checks_are_spaced() {
    let mut s = UpdateScheduler::new(1000);
    assert!(!s.try_begin(1000 + UPDATE_CHECK_INTERVAL_MS));
    assert_eq!(s.last_check_ms, 1000);
    assert!(s.try_begin(1001 + UPDATE_CHECK_INTERVAL_MS));
    assert_eq!(s.last_check_ms, 1001 + UPDATE_CHECK_INTERVAL_MS);
    assert!(!s.try_begin(2000 + UPDATE_CHECK_INTERVAL_MS));
    assert!(!s.try_begin(0));
}
