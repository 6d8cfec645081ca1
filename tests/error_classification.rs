use browser_downloads::error::{extract_http_status_code, parse_status_number, DownloadError, ErrorSeverity, RetryStrategy};

#[test]
fn classifies_connection_timed_out() {
    assert_eq!(DownloadError::from_message("Connection timed out"), DownloadError::NetworkTimeout);
}

#[test]
fn classifies_http_503() {
    assert_eq!(
        DownloadError::from_message("HTTP 503 Service Unavailable"),
        DownloadError::HttpServerError(503)
    );
}

#[test]
fn classifies_no_space_left() {
    assert_eq!(
        DownloadError::from_message("no space left on device"),
        DownloadError::FileSystemInsufficientSpace
    );
}

#[test]
fn classifies_unrecognized_text_as_unknown() {
    let text = "Something Odd happened";
    assert_eq!(DownloadError::from_message(text), DownloadError::Unknown(text.to_string()));
}

#[test]
fn classifies_http_client_and_status_forms() {
    assert_eq!(DownloadError::from_message("http 404 not here"), DownloadError::HttpClientError(404));
    assert_eq!(DownloadError::from_message("HTTP request failed, status: 429"), DownloadError::HttpClientError(429));
    assert_eq!(DownloadError::from_message("http failure: error 502"), DownloadError::HttpServerError(502));
    assert_eq!(
        DownloadError::from_message("HTTP 302 redirect"),
        DownloadError::Unknown("HTTP 302 redirect".to_string())
    );
    assert_eq!(
        DownloadError::from_message("http without code"),
        DownloadError::Unknown("http without code".to_string())
    );
}

#[test]
fn classification_order_prefers_network_cues() {
    // Both a timeout cue and an HTTP cue: the network cue wins.
    assert_eq!(DownloadError::from_message("HTTP 500 after timeout"), DownloadError::NetworkTimeout);
    assert_eq!(DownloadError::from_message("ECONNREFUSED"), DownloadError::NetworkConnRefused);
    assert_eq!(DownloadError::from_message("Low bandwidth"), DownloadError::NetworkSlowConnection);
    assert_eq!(DownloadError::from_message("No route to host"), DownloadError::NetworkUnreachable);
}

#[test]
fn classifies_filesystem_logical_and_resource_cues() {
    assert_eq!(DownloadError::from_message("Permission denied"), DownloadError::FileSystemPermissionDenied);
    assert_eq!(DownloadError::from_message("Checksum mismatch"), DownloadError::FileSystemCorruptedDownload);
    assert_eq!(DownloadError::from_message("Invalid browser: opera"), DownloadError::InvalidBrowserType);
    assert_eq!(DownloadError::from_message("Invalid version 999"), DownloadError::InvalidVersion);
    assert_eq!(DownloadError::from_message("Platform not supported"), DownloadError::InvalidPlatform);
    assert_eq!(DownloadError::from_message("Download not available"), DownloadError::DownloadUrlNotFound);
    assert_eq!(DownloadError::from_message("Out of memory"), DownloadError::SystemResourceExhausted);
    assert_eq!(DownloadError::from_message("child process exited"), DownloadError::SystemProcessError);
}

#[test]
fn classify_lowered_uses_the_given_code() {
    assert_eq!(
        DownloadError::classify_lowered("http failure", "HTTP failure", Some(503)),
        DownloadError::HttpServerError(503)
    );
    assert_eq!(
        DownloadError::classify_lowered("http failure", "HTTP failure", Some(404)),
        DownloadError::HttpClientError(404)
    );
    assert_eq!(
        DownloadError::classify_lowered("http failure", "HTTP failure", None),
        DownloadError::Unknown("HTTP failure".to_string())
    );
}

#[test]
fn extracts_status_codes() {
    assert_eq!(extract_http_status_code("http 404"), Some(404));
    assert_eq!(extract_http_status_code("status : 500"), Some(500));
    assert_eq!(extract_http_status_code("error 418"), Some(418));
    assert_eq!(extract_http_status_code("nothing here"), None);
    assert_eq!(parse_status_number("503"), Some(503));
    assert_eq!(parse_status_number("65536"), None);
    assert_eq!(parse_status_number("5a3"), None);
    assert_eq!(parse_status_number(""), None);
}

#[test]
fn properties_are_fixed_per_kind() {
    let kinds = vec![
        DownloadError::NetworkTimeout,
        DownloadError::NetworkSlowConnection,
        DownloadError::HttpServerError(503),
        DownloadError::HttpClientError(429),
        DownloadError::HttpClientError(404),
        DownloadError::FileSystemIoError("x".to_string()),
        DownloadError::SystemProcessError,
        DownloadError::Unknown("y".to_string()),
    ];
    for k in &kinds {
        assert_eq!(k.is_retryable(), k.clone().is_retryable());
        assert_eq!(k.severity(), k.clone().severity());
        assert_eq!(k.retry_strategy(), k.clone().retry_strategy());
    }
}

#[test]
fn retryability_severity_and_strategy() {
    assert!(DownloadError::NetworkTimeout.is_retryable());
    assert!(DownloadError::HttpClientError(429).is_retryable());
    assert!(!DownloadError::HttpClientError(408).is_retryable());
    assert!(!DownloadError::InvalidVersion.is_retryable());
    assert!(!DownloadError::Unknown("z".to_string()).is_retryable());
    assert_eq!(DownloadError::NetworkSlowConnection.severity(), ErrorSeverity::Low);
    assert_eq!(DownloadError::HttpRedirectLoop.severity(), ErrorSeverity::High);
    assert_eq!(DownloadError::SystemProcessError.severity(), ErrorSeverity::Critical);
    assert_eq!(DownloadError::InvalidVersion.severity(), ErrorSeverity::Medium);
    assert_eq!(
        DownloadError::NetworkTimeout.retry_strategy(),
        RetryStrategy::ExponentialBackoff {
            max_attempts: 5,
            initial_delay_ms: 1000,
            max_delay_ms: 30000,
            backoff_factor_percent: 200
        }
    );
    assert_eq!(
        DownloadError::HttpClientError(429).retry_strategy(),
        RetryStrategy::LinearBackoff { max_attempts: 3, delay_increment_ms: 10000 }
    );
    assert_eq!(DownloadError::HttpClientError(404).retry_strategy(), RetryStrategy::NoRetry);
    assert_eq!(DownloadError::HttpRedirectLoop.retry_strategy(), RetryStrategy::NoRetry);
}

#[test]
fn user_messages_and_technical_details() {
    assert_eq!(DownloadError::HttpServerError(503).user_message(), "服务器错误 (503), 正在重试");
    assert_eq!(DownloadError::HttpClientError(404).user_message(), "请求错误 (404), 请检查下载链接");
    assert_eq!(DownloadError::Unknown("boom".to_string()).user_message(), "未知错误: boom");
    assert_eq!(DownloadError::FileSystemIoError("disk".to_string()).user_message(), "文件操作失败: disk");
    assert_eq!(DownloadError::InvalidVersion.user_message(), "无效的浏览器版本号");
    let samples = vec![
        DownloadError::NetworkTimeout,
        DownloadError::HttpServerError(503),
        DownloadError::HttpClientError(7),
        DownloadError::FileSystemIoError("a \"quoted\" path\n".to_string()),
        DownloadError::Unknown("x".to_string()),
    ];
    for e in &samples {
        assert_eq!(e.technical_details(), format!("{:?}", e));
    }
}
