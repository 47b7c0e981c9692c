use openhash_node::log_store::LogStore;
use openhash_node::model::{GitHubAsset, GitHubRelease};
use openhash_node::update::{
    action_for_plan, check_download_status, check_feed_status, download_status_accepted,
    log_download_complete, log_update_check,
    find_asset, plan_download, range_header_value, report_update_failure, select_release_asset,
    DownloadPlan, DownloadProgress, UpdateAction, UpdateError, EXECUTABLE_NAME,
};

fn asset(name: &str, url: &str) -> GitHubAsset {
    GitHubAsset::new(name.to_string(), url.to_string())
}

fn release() -> GitHubRelease {
    GitHubRelease::new(
        "v1.2.0".to_string(),
        vec![
            asset("openhash-linux", "https://x/linux"),
            asset("openhash.exe", "https://x/first"),
            asset("openhash.exe", "https://x/second"),
        ],
    )
}

#[test]
fn find_asset_takes_first_exact_match() {
    assert_eq!(find_asset(&release(), "openhash.exe"), Some(1));
    assert_eq!(find_asset(&release(), "openhash-linux"), Some(0));
    assert_eq!(find_asset(&release(), "openhash"), None);
    assert_eq!(find_asset(&GitHubRelease::new("v0".to_string(), vec![]), "openhash.exe"), None);
}

#[test]
fn select_release_asset_logs_tag_and_returns_url() {
    let mut logs = LogStore::new();
    assert_eq!(select_release_asset(&mut logs, &release()), Ok("https://x/first".to_string()));
    assert!(logs.text().ends_with("] Found release: v1.2.0\n"));
}

#[test]
fn select_release_asset_without_executable_fails() {
    let mut logs = LogStore::new();
    let r = GitHubRelease::new("v2".to_string(), vec![asset("other", "u")]);
    assert_eq!(select_release_asset(&mut logs, &r), Err(UpdateError::AssetNotFound));
    assert_eq!(logs.line_count(), 2);
    assert!(logs.text().ends_with("] openhash.exe not found in release assets\n"));
}

#[test]
fn executable_name_is_fixed() {
    assert_eq!(EXECUTABLE_NAME, "openhash.exe");
}

#[test]
fn no_local_file_fetches_everything() {
    let mut logs = LogStore::new();
    let plan = plan_download(&mut logs, None, 500);
    assert_eq!(plan, DownloadPlan::Fetch { offset: 0, discard_existing: false });
    assert_eq!(logs.line_count(), 0);
}

#[test]
fn partial_file_resumes_at_its_length() {
    let mut logs = LogStore::new();
    let plan = plan_download(&mut logs, Some(1234), 5000);
    assert_eq!(plan, DownloadPlan::Fetch { offset: 1234, discard_existing: false });
    assert_eq!(range_header_value(1234), Some("bytes=1234-".to_string()));
    assert!(logs.text().ends_with("] Resuming download from 1234 bytes.\n"));
    let mut progress = DownloadProgress::new(1234, 5000);
    progress.record_chunk(3000);
    let last = progress.record_chunk(766);
    assert_eq!(last, DownloadProgress { current: 5000, total: 5000 });
}

#[test]
fn complete_file_is_not_fetched_again() {
    let mut logs = LogStore::new();
    assert_eq!(plan_download(&mut logs, Some(5000), 5000), DownloadPlan::UpToDate);
    assert!(logs.text().ends_with("] openhash.exe is already up to date.\n"));
}

#[test]
fn oversized_file_is_discarded() {
    let mut logs = LogStore::new();
    let plan = plan_download(&mut logs, Some(6000), 5000);
    assert_eq!(plan, DownloadPlan::Fetch { offset: 0, discard_existing: true });
    assert_eq!(range_header_value(0), None);
    assert!(logs
        .text()
        .ends_with("] Existing file is larger than expected, restarting download.\n"));
}

#[test]
fn unknown_size_never_counts_as_up_to_date() {
    let mut logs = LogStore::new();
    assert_eq!(
        plan_download(&mut logs, Some(0), 0),
        DownloadPlan::Fetch { offset: 0, discard_existing: false }
    );
    assert_eq!(logs.line_count(), 0);
    assert_eq!(
        plan_download(&mut logs, Some(10), 0),
        DownloadPlan::Fetch { offset: 0, discard_existing: true }
    );
}

#[test]
fn empty_local_file_with_known_size_starts_at_zero() {
    let mut logs = LogStore::new();
    assert_eq!(
        plan_download(&mut logs, Some(0), 100),
        DownloadPlan::Fetch { offset: 0, discard_existing: false }
    );
    assert_eq!(range_header_value(0), None);
}

#[test]
fn interrupted_download_resumes_where_it_stopped() {
    let mut logs = LogStore::new();
    let plan = plan_download(&mut logs, None, 100);
    assert_eq!(plan, DownloadPlan::Fetch { offset: 0, discard_existing: false });
    let mut progress = DownloadProgress::new(0, 100);
    progress.record_chunk(40);
    let err = UpdateError::ChunkFailed("connection reset".to_string());
    assert_eq!(
        report_update_failure(&mut logs, &err),
        "Error while downloading chunk: connection reset"
    );
    let on_disk = progress.current;
    assert!(on_disk < 100);
    let again = plan_download(&mut logs, Some(on_disk), 100);
    assert_eq!(again, DownloadPlan::Fetch { offset: 40, discard_existing: false });
    assert_eq!(range_header_value(on_disk), Some("bytes=40-".to_string()));
}

#[test]
fn progress_counts_chunks_and_saturates() {
    let mut progress = DownloadProgress::new(0, 0);
    assert_eq!(progress.record_chunk(10), DownloadProgress { current: 10, total: 0 });
    assert_eq!(progress.record_chunk(0), DownloadProgress { current: 10, total: 0 });
    let mut full = DownloadProgress::new(u64::MAX - 1, 7);
    assert_eq!(full.record_chunk(5).current, u64::MAX);
}

#[test]
fn accepted_download_statuses() {
    assert!(download_status_accepted(200));
    assert!(download_status_accepted(206));
    assert!(download_status_accepted(299));
    assert!(!download_status_accepted(199));
    assert!(!download_status_accepted(300));
    assert!(!download_status_accepted(404));
    assert!(!download_status_accepted(416));
}

#[test]
fn rejected_status_is_logged() {
    let mut logs = LogStore::new();
    assert_eq!(check_download_status(&mut logs, 206, "Partial Content"), Ok(()));
    assert_eq!(logs.line_count(), 0);
    assert_eq!(
        check_download_status(&mut logs, 404, "Not Found"),
        Err(UpdateError::BadStatus(404, "Not Found".to_string()))
    );
    assert!(logs.text().ends_with("] Failed to download executable: Status 404 Not Found\n"));
}

#[test]
fn update_error_messages() {
    let d = || "boom".to_string();
    let cases = vec![
        (UpdateError::FetchFailed(d()), "Failed to fetch release info: boom"),
        (UpdateError::FeedStatus, "Failed to fetch release information from GitHub"),
        (UpdateError::ParseFailed(d()), "Failed to parse release info: boom"),
        (UpdateError::AssetNotFound, "openhash.exe not found in release assets"),
        (UpdateError::SizeFailed(d()), "Failed to get file size: boom"),
        (UpdateError::MetadataFailed(d()), "Failed to get metadata for existing file: boom"),
        (UpdateError::RemoveFailed(d()), "Failed to remove corrupted file: boom"),
        (UpdateError::RequestFailed(d()), "Failed to download executable: boom"),
        (
            UpdateError::BadStatus(500, "Internal Server Error".to_string()),
            "Failed to download executable: Status 500 Internal Server Error",
        ),
        (UpdateError::FileMetadataFailed(d()), "Failed to get file metadata: boom"),
        (UpdateError::OpenFailed(d()), "Failed to open file for writing: boom"),
        (UpdateError::ChunkFailed(d()), "Error while downloading chunk: boom"),
        (UpdateError::WriteFailed(d()), "Error while writing to file: boom"),
        (
            UpdateError::CompleteNoticeFailed(d()),
            "Failed to emit download_complete event: boom",
        ),
        (
            UpdateError::ProgressNoticeFailed(d()),
            "Failed to emit download_progress event: boom",
        ),
        (UpdateError::PermissionsFailed(d()), "Failed to set executable permissions: boom"),
    ];
    for (e, text) in cases {
        assert_eq!(e.message(), text);
    }
}

#[test]
fn up_to_date_plan_announces_completion() {
    assert_eq!(action_for_plan(DownloadPlan::UpToDate, 5000), UpdateAction::AnnounceComplete);
}

#[test]
fn resume_plan_requests_remaining_bytes() {
    let plan = DownloadPlan::Fetch { offset: 40, discard_existing: false };
    assert_eq!(
        action_for_plan(plan, 100),
        UpdateAction::Transfer {
            remove_first: false,
            range: Some("bytes=40-".to_string()),
            progress: DownloadProgress { current: 40, total: 100 },
        }
    );
}

#[test]
fn restart_plan_deletes_then_counts_from_zero() {
    let plan = DownloadPlan::Fetch { offset: 0, discard_existing: true };
    let action = action_for_plan(plan, 100);
    assert_eq!(
        action,
        UpdateAction::Transfer {
            remove_first: true,
            range: None,
            progress: DownloadProgress { current: 0, total: 100 },
        }
    );
    if let UpdateAction::Transfer { mut progress, .. } = action {
        assert_eq!(progress.record_chunk(60).current, 60);
        assert_eq!(progress.record_chunk(40), DownloadProgress { current: 100, total: 100 });
    }
}

#[test]
fn feed_status_failure_is_logged() {
    let mut logs = LogStore::new();
    assert_eq!(check_feed_status(&mut logs, true), Ok(()));
    assert_eq!(logs.line_count(), 0);
    assert_eq!(check_feed_status(&mut logs, false), Err(UpdateError::FeedStatus));
    assert!(logs.text().ends_with("] Failed to fetch release information from GitHub\n"));
}

#[test]
fn update_start_and_completion_are_logged() {
    let mut logs = LogStore::new();
    log_update_check(&mut logs);
    log_download_complete(&mut logs);
    let text = logs.text();
    assert_eq!(logs.line_count(), 2);
    assert!(text.contains(" UTC] Checking for updates...\n"));
    assert!(text.ends_with(" UTC] Download completed successfully\n"));
}
