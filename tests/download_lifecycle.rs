use browser_downloads::download_manager::{DownloadManager, FailureOutcome};
use browser_downloads::models::{launch_args, BrowserInfo, BrowserType, DownloadProgress, DownloadStatus};

fn chrome(version: &str) -> BrowserInfo {
    BrowserInfo {
        id: "b1".to_string(),
        browser_type: BrowserType::Chrome,
        version: version.to_string(),
        platform: "linux64".to_string(),
        install_path: String::new(),
        executable_path: String::new(),
        download_date_ms: 0,
        file_size: 0,
        is_running: false,
    }
}

#[test]
fn non_retryable_failure_ends_in_failed() {
    let mut m = DownloadManager::new();
    let unit = m.start_download("t1", chrome("999")).unwrap();
    assert_eq!(m.get_progress("t1").unwrap().status, DownloadStatus::Pending);
    assert!(m.begin_attempt("t1", unit));
    assert_eq!(m.get_progress("t1").unwrap().status, DownloadStatus::Downloading);
    assert_eq!(m.fail_attempt("t1", unit, "Invalid version: 999", 0), FailureOutcome::GaveUp);
    let t = m.get_progress("t1").unwrap();
    assert_eq!(t.status, DownloadStatus::Failed);
    assert_eq!(t.retry_count, 0);
    let msg = t.error_message.unwrap();
    assert!(!msg.is_empty());
    assert_eq!(msg, "无效的浏览器版本号");
}

#[test]
fn two_timeouts_then_success() {
    let mut m = DownloadManager::new();
    let unit = m.start_download("t2", chrome("stable")).unwrap();
    let mut seen = vec![m.get_progress("t2").unwrap().status];
    assert!(m.begin_attempt("t2", unit));
    seen.push(m.get_progress("t2").unwrap().status);
    assert_eq!(m.fail_attempt("t2", unit, "Connection timed out", 0), FailureOutcome::RetryAfter(1000));
    seen.push(m.get_progress("t2").unwrap().status);
    assert!(m.begin_attempt("t2", unit));
    seen.push(m.get_progress("t2").unwrap().status);
    assert_eq!(m.fail_attempt("t2", unit, "Connection timed out", 1000), FailureOutcome::RetryAfter(2000));
    seen.push(m.get_progress("t2").unwrap().status);
    assert!(m.begin_attempt("t2", unit));
    seen.push(m.get_progress("t2").unwrap().status);
    let progress = DownloadProgress {
        progress_per_10k: 5000,
        downloaded_bytes: 50,
        total_bytes: 100,
        estimated_time_remaining: Some(3),
    };
    let snap = m.apply_progress("t2", unit, progress).unwrap();
    assert_eq!(snap.downloaded_bytes, 50);
    let info = m
        .complete_download("t2", unit, "/opt/b".to_string(), "/opt/b/chrome".to_string(), "120.0.1".to_string())
        .unwrap();
    seen.push(m.get_progress("t2").unwrap().status);
    assert_eq!(
        seen,
        vec![
            DownloadStatus::Pending,
            DownloadStatus::Downloading,
            DownloadStatus::Retrying,
            DownloadStatus::Downloading,
            DownloadStatus::Retrying,
            DownloadStatus::Downloading,
            DownloadStatus::Completed,
        ]
    );
    let t = m.get_progress("t2").unwrap();
    assert_eq!(t.retry_count, 2);
    assert_eq!(t.progress_per_10k, 10_000);
    assert_eq!(info.version, "120.0.1");
    assert_eq!(info.install_path, "/opt/b");
    assert_eq!(info.executable_path, "/opt/b/chrome");
    assert_eq!(info.file_size, 100);
    assert!(m.retry_manager().get_retry_history("t2").is_none());
}

#[test]
fn removed_task_ignores_its_old_unit() {
    let mut m = DownloadManager::new();
    let unit = m.start_download("t3", chrome("1")).unwrap();
    assert!(m.begin_attempt("t3", unit));
    assert_eq!(m.remove_task("t3"), Ok(()));
    assert!(m.get_progress("t3").is_none());
    let p = DownloadProgress { progress_per_10k: 1, downloaded_bytes: 1, total_bytes: 2, estimated_time_remaining: None };
    assert!(m.apply_progress("t3", unit, p).is_none());
    assert_eq!(m.fail_attempt("t3", unit, "timeout", 0), FailureOutcome::Superseded);
    assert!(m.complete_download("t3", unit, "p".to_string(), "e".to_string(), "v".to_string()).is_none());
    assert!(!m.begin_attempt("t3", unit));
    assert!(m.list_download_tasks().is_empty());
    let again = m.start_download("t3", chrome("1")).unwrap();
    assert_ne!(again, unit);
    assert!(!m.begin_attempt("t3", unit));
    assert_eq!(m.get_progress("t3").unwrap().status, DownloadStatus::Pending);
}

#[test]
fn second_start_is_refused_while_running() {
    let mut m = DownloadManager::new();
    let _unit = m.start_download("t4", chrome("1")).unwrap();
    assert_eq!(m.start_download("t4", chrome("2")), Err("Download task already running".to_string()));
    assert_eq!(m.get_progress("t4").unwrap().browser_info.version, "1");
}

#[test]
fn caller_retries_are_capped() {
    let mut m = DownloadManager::new();
    assert_eq!(m.retry_download("missing"), Err("Download task not found".to_string()));
    let mut unit = m.start_download("t5", chrome("1")).unwrap();
    for round in 0..3u32 {
        assert!(m.begin_attempt("t5", unit));
        assert_eq!(m.fail_attempt("t5", unit, "Invalid version", 0), FailureOutcome::GaveUp);
        assert_eq!(m.get_progress("t5").unwrap().retry_count, round);
        unit = m.retry_download("t5").unwrap();
        let t = m.get_progress("t5").unwrap();
        assert_eq!(t.status, DownloadStatus::Retrying);
        assert_eq!(t.retry_count, round + 1);
        assert!(t.error_message.is_none());
        let expected = if round < 2 { "Download task already running" } else { "Maximum retry attempts reached" };
        assert_eq!(m.retry_download("t5"), Err(expected.to_string()));
    }
    assert!(m.begin_attempt("t5", unit));
    assert_eq!(m.fail_attempt("t5", unit, "Invalid version", 0), FailureOutcome::GaveUp);
    assert_eq!(m.retry_download("t5"), Err("Maximum retry attempts reached".to_string()));
}

#[test]
fn list_holds_each_task_once() {
    let mut m = DownloadManager::new();
    m.start_download("x", chrome("1")).unwrap();
    m.start_download("y", chrome("2")).unwrap();
    let mut ids: Vec<String> = m.list_download_tasks().into_iter().map(|t| t.id).collect();
    ids.sort();
    assert_eq!(ids, vec!["x".to_string(), "y".to_string()]);
}

#[test]
fn launch_args_put_defaults_first() {
    assert_eq!(launch_args(None), vec!["--no-first-run", "--disable-default-apps"]);
    assert_eq!(
        launch_args(Some(vec!["--incognito".to_string()])),
        vec!["--no-first-run", "--disable-default-apps", "--incognito"]
    );
}

#[test]
fn requested_record_is_fresh() {
    let info = BrowserInfo::requested(BrowserType::Firefox, "120", "linux64", 42);
    assert_eq!(info.id.len(), 36);
    assert_eq!(info.version, "120");
    assert_eq!(info.platform, "linux64");
    assert_eq!(info.download_date_ms, 42);
    assert!(info.install_path.is_empty() && !info.is_running && info.file_size == 0);
}
