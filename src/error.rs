//! The closed taxonomy of download failures, their fixed properties, and the
//! classifier that maps free text onto the taxonomy.

use vstd::prelude::*;
use vstd::string::*;
use crate::text::{
    chars_of, contains_chars, debug_text, debug_text_of, decimal, lower_of, lowercase, occurs_in,
    text_around, text_with_number,
};

verus! {

/// A classified download failure.
#[derive(Debug, Clone, PartialEq)]
pub enum DownloadError {
    NetworkTimeout,
    NetworkUnreachable,
    NetworkConnRefused,
    NetworkSlowConnection,
    HttpServerError(u16),
    HttpClientError(u16),
    HttpRedirectLoop,
    FileSystemInsufficientSpace,
    FileSystemPermissionDenied,
    FileSystemCorruptedDownload,
    FileSystemIoError(String),
    InvalidBrowserType,
    InvalidVersion,
    InvalidPlatform,
    DownloadUrlNotFound,
    SystemResourceExhausted,
    SystemProcessError,
    Unknown(String),
}

/// The mathematical value of a `DownloadError`: the same kinds, with texts
/// as character sequences.
pub enum ErrorView {
    NetworkTimeout,
    NetworkUnreachable,
    NetworkConnRefused,
    NetworkSlowConnection,
    HttpServerError(u16),
    HttpClientError(u16),
    HttpRedirectLoop,
    FileSystemInsufficientSpace,
    FileSystemPermissionDenied,
    FileSystemCorruptedDownload,
    FileSystemIoError(Seq<char>),
    InvalidBrowserType,
    InvalidVersion,
    InvalidPlatform,
    DownloadUrlNotFound,
    SystemResourceExhausted,
    SystemProcessError,
    Unknown(Seq<char>),
}

impl View for DownloadError {
    type V = ErrorView;

    open spec fn view(&self) -> ErrorView {
        match self {
            DownloadError::NetworkTimeout => ErrorView::NetworkTimeout,
            DownloadError::NetworkUnreachable => ErrorView::NetworkUnreachable,
            DownloadError::NetworkConnRefused => ErrorView::NetworkConnRefused,
            DownloadError::NetworkSlowConnection => ErrorView::NetworkSlowConnection,
            DownloadError::HttpServerError(c) => ErrorView::HttpServerError(*c),
            DownloadError::HttpClientError(c) => ErrorView::HttpClientError(*c),
            DownloadError::HttpRedirectLoop => ErrorView::HttpRedirectLoop,
            DownloadError::FileSystemInsufficientSpace => ErrorView::FileSystemInsufficientSpace,
            DownloadError::FileSystemPermissionDenied => ErrorView::FileSystemPermissionDenied,
            DownloadError::FileSystemCorruptedDownload => ErrorView::FileSystemCorruptedDownload,
            DownloadError::FileSystemIoError(m) => ErrorView::FileSystemIoError(m@),
            DownloadError::InvalidBrowserType => ErrorView::InvalidBrowserType,
            DownloadError::InvalidVersion => ErrorView::InvalidVersion,
            DownloadError::InvalidPlatform => ErrorView::InvalidPlatform,
            DownloadError::DownloadUrlNotFound => ErrorView::DownloadUrlNotFound,
            DownloadError::SystemResourceExhausted => ErrorView::SystemResourceExhausted,
            DownloadError::SystemProcessError => ErrorView::SystemProcessError,
            DownloadError::Unknown(m) => ErrorView::Unknown(m@),
        }
    }
}

/// How serious an error is, from least to most.
#[derive(Debug, Clone, Copy, PartialEq, Eq, Structural)]
pub enum ErrorSeverity {
    Low,
    Medium,
    High,
    Critical,
}

/// Whether and how long to wait before another attempt. Delays are in
/// milliseconds; the backoff factor is in hundredths (`200` doubles).
#[derive(Debug, Clone, Copy, PartialEq, Eq, Structural)]
pub enum RetryStrategy {
    NoRetry,
    Immediate { max_attempts: u32 },
    ExponentialBackoff {
        max_attempts: u32,
        initial_delay_ms: u64,
        max_delay_ms: u64,
        backoff_factor_percent: u32,
    },
    LinearBackoff { max_attempts: u32, delay_increment_ms: u64 },
}

/// Whether an error of this kind is worth another attempt.
pub open spec fn retryable(e: ErrorView) -> bool {
    match e {
        ErrorView::NetworkTimeout
        | ErrorView::NetworkUnreachable
        | ErrorView::NetworkConnRefused
        | ErrorView::NetworkSlowConnection => true,
        ErrorView::HttpServerError(_) => true,
        ErrorView::HttpClientError(code) => code == 429,
        ErrorView::FileSystemCorruptedDownload | ErrorView::FileSystemIoError(_) => true,
        ErrorView::SystemResourceExhausted | ErrorView::SystemProcessError => true,
        _ => false,
    }
}

/// The severity of each kind.
pub open spec fn severity_of(e: ErrorView) -> ErrorSeverity {
    match e {
        ErrorView::NetworkSlowConnection => ErrorSeverity::Low,
        ErrorView::FileSystemInsufficientSpace
        | ErrorView::FileSystemPermissionDenied
        | ErrorView::SystemResourceExhausted
        | ErrorView::HttpRedirectLoop => ErrorSeverity::High,
        ErrorView::SystemProcessError => ErrorSeverity::Critical,
        _ => ErrorSeverity::Medium,
    }
}

/// Severe enough to count towards opening a task's breaker.
pub open spec fn is_severe(s: ErrorSeverity) -> bool {
    s == ErrorSeverity::High || s == ErrorSeverity::Critical
}

/// The default strategy for each kind.
pub open spec fn strategy_of(e: ErrorView) -> RetryStrategy {
    match e {
        ErrorView::NetworkTimeout
        | ErrorView::NetworkUnreachable
        | ErrorView::NetworkConnRefused => RetryStrategy::ExponentialBackoff {
            max_attempts: 5,
            initial_delay_ms: 1000,
            max_delay_ms: 30000,
            backoff_factor_percent: 200,
        },
        ErrorView::NetworkSlowConnection => RetryStrategy::LinearBackoff {
            max_attempts: 2,
            delay_increment_ms: 5000,
        },
        ErrorView::HttpServerError(_) => RetryStrategy::ExponentialBackoff {
            max_attempts: 3,
            initial_delay_ms: 2000,
            max_delay_ms: 15000,
            backoff_factor_percent: 150,
        },
        ErrorView::HttpClientError(code) => if code == 429 {
            RetryStrategy::LinearBackoff { max_attempts: 3, delay_increment_ms: 10000 }
        } else {
            RetryStrategy::NoRetry
        },
        ErrorView::FileSystemCorruptedDownload
        | ErrorView::FileSystemIoError(_) => RetryStrategy::ExponentialBackoff {
            max_attempts: 2,
            initial_delay_ms: 1000,
            max_delay_ms: 5000,
            backoff_factor_percent: 200,
        },
        ErrorView::SystemResourceExhausted
        | ErrorView::SystemProcessError => RetryStrategy::LinearBackoff {
            max_attempts: 3,
            delay_increment_ms: 3000,
        },
        _ => RetryStrategy::NoRetry,
    }
}

/// The message shown to users for each kind.
pub open spec fn user_message_of(e: ErrorView) -> Seq<char> {
    match e {
        ErrorView::NetworkTimeout => "网络连接超时，请检查网络连接"@,
        ErrorView::NetworkUnreachable => "无法访问下载服务器，请检查网络设置"@,
        ErrorView::NetworkConnRefused => "下载服务器拒绝连接，可能服务器暂时不可用"@,
        ErrorView::NetworkSlowConnection => "网络连接缓慢，正在重试下载"@,
        ErrorView::HttpServerError(code) => "服务器错误 ("@ + decimal(code as nat) + "), 正在重试"@,
        ErrorView::HttpClientError(code) => "请求错误 ("@ + decimal(code as nat) + "), 请检查下载链接"@,
        ErrorView::HttpRedirectLoop => "下载链接重定向过多，请联系技术支持"@,
        ErrorView::FileSystemInsufficientSpace => "磁盘空间不足，请清理磁盘空间后重试"@,
        ErrorView::FileSystemPermissionDenied => "文件权限不足，请以管理员权限运行程序"@,
        ErrorView::FileSystemCorruptedDownload => "下载文件损坏，正在重新下载"@,
        ErrorView::FileSystemIoError(m) => "文件操作失败: "@ + m + ""@,
        ErrorView::InvalidBrowserType => "不支持的浏览器类型"@,
        ErrorView::InvalidVersion => "无效的浏览器版本号"@,
        ErrorView::InvalidPlatform => "不支持的操作系统平台"@,
        ErrorView::DownloadUrlNotFound => "找不到下载链接，该版本可能不存在"@,
        ErrorView::SystemResourceExhausted => "系统资源不足，正在重试"@,
        ErrorView::SystemProcessError => "系统进程错误，请重启应用程序"@,
        ErrorView::Unknown(m) => "未知错误: "@ + m + ""@,
    }
}

/// Every kind has a non-empty message for users.
pub proof fn lemma_user_message_nonempty(e: ErrorView)
    ensures
        user_message_of(e).len() > 0,
{
    reveal_strlit("网络连接超时，请检查网络连接");
    reveal_strlit("无法访问下载服务器，请检查网络设置");
    reveal_strlit("下载服务器拒绝连接，可能服务器暂时不可用");
    reveal_strlit("网络连接缓慢，正在重试下载");
    reveal_strlit("服务器错误 (");
    reveal_strlit("), 正在重试");
    reveal_strlit("请求错误 (");
    reveal_strlit("), 请检查下载链接");
    reveal_strlit("下载链接重定向过多，请联系技术支持");
    reveal_strlit("磁盘空间不足，请清理磁盘空间后重试");
    reveal_strlit("文件权限不足，请以管理员权限运行程序");
    reveal_strlit("下载文件损坏，正在重新下载");
    reveal_strlit("文件操作失败: ");
    reveal_strlit("不支持的浏览器类型");
    reveal_strlit("无效的浏览器版本号");
    reveal_strlit("不支持的操作系统平台");
    reveal_strlit("找不到下载链接，该版本可能不存在");
    reveal_strlit("系统资源不足，正在重试");
    reveal_strlit("系统进程错误，请重启应用程序");
    reveal_strlit("未知错误: ");
}

/// The full structured form of each kind, for logs.
pub open spec fn technical_of(e: ErrorView) -> Seq<char> {
    match e {
        ErrorView::NetworkTimeout => "NetworkTimeout"@,
        ErrorView::NetworkUnreachable => "NetworkUnreachable"@,
        ErrorView::NetworkConnRefused => "NetworkConnRefused"@,
        ErrorView::NetworkSlowConnection => "NetworkSlowConnection"@,
        ErrorView::HttpServerError(code) => "HttpServerError("@ + decimal(code as nat) + ")"@,
        ErrorView::HttpClientError(code) => "HttpClientError("@ + decimal(code as nat) + ")"@,
        ErrorView::HttpRedirectLoop => "HttpRedirectLoop"@,
        ErrorView::FileSystemInsufficientSpace => "FileSystemInsufficientSpace"@,
        ErrorView::FileSystemPermissionDenied => "FileSystemPermissionDenied"@,
        ErrorView::FileSystemCorruptedDownload => "FileSystemCorruptedDownload"@,
        ErrorView::FileSystemIoError(m) => "FileSystemIoError("@ + debug_text_of(m) + ")"@,
        ErrorView::InvalidBrowserType => "InvalidBrowserType"@,
        ErrorView::InvalidVersion => "InvalidVersion"@,
        ErrorView::InvalidPlatform => "InvalidPlatform"@,
        ErrorView::DownloadUrlNotFound => "DownloadUrlNotFound"@,
        ErrorView::SystemResourceExhausted => "SystemResourceExhausted"@,
        ErrorView::SystemProcessError => "SystemProcessError"@,
        ErrorView::Unknown(m) => "Unknown("@ + debug_text_of(m) + ")"@,
    }
}

/// The kind of an error with its texts left out; HTTP kinds keep their
/// status code.
pub open spec fn kind_of(e: ErrorView) -> ErrorView {
    match e {
        ErrorView::FileSystemIoError(_) => ErrorView::FileSystemIoError(Seq::empty()),
        ErrorView::Unknown(_) => ErrorView::Unknown(Seq::empty()),
        _ => e,
    }
}

/// Retryability, severity and the default strategy are fixed by the kind of
/// an error and, for HTTP kinds, its status code: errors of one kind get the
/// same answers whatever text they carry.
pub proof fn lemma_properties_fixed_by_kind(a: DownloadError, b: DownloadError)
    requires
        kind_of(a@) == kind_of(b@),
    ensures
        retryable(a@) == retryable(b@),
        severity_of(a@) == severity_of(b@),
        strategy_of(a@) == strategy_of(b@),
{
}

/// A character is an ASCII decimal digit.
pub open spec fn is_digit(c: char) -> bool {
    48 <= (c as u32) <= 57
}

/// The value of a sequence of decimal digits.
pub open spec fn digits_value(s: Seq<char>) -> nat
    decreases s.len(),
{
    if s.len() == 0 {
        0
    } else {
        digits_value(s.drop_last()) * 10 + ((s.last() as u32) - 48) as nat
    }
}

/// A nonempty run of decimal digits whose value fits in `u16`.
pub open spec fn status_number(s: Seq<char>) -> Option<u16> {
    if s.len() > 0 && (forall|i: int| 0 <= i < s.len() ==> is_digit(#[trigger] s[i]))
        && digits_value(s) <= 65535 {
        Some(digits_value(s) as u16)
    } else {
        None
    }
}

/// What the regex crate gives as the first capture group of the leftmost
/// match of `pattern` in `text` (`None` where nothing matches).
pub uninterp spec fn regex_group_one(pattern: Seq<char>, text: Seq<char>) -> Option<Seq<char>>;

/// The status number carried by a capture, if any.
pub open spec fn status_in_group(g: Option<Seq<char>>) -> Option<u16> {
    match g {
        Some(s) => status_number(s),
        None => None,
    }
}

/// The HTTP status code found in a lowercase message: the first of the
/// patterns "http N", "status: N", "error N" that yields a number.
pub open spec fn http_status_in(m: Seq<char>) -> Option<u16> {
    let a = status_in_group(regex_group_one("http\\s+(\\d{3})"@, m));
    let b = status_in_group(regex_group_one("status\\s*:\\s*(\\d{3})"@, m));
    let c = status_in_group(regex_group_one("error\\s+(\\d{3})"@, m));
    if a is Some {
        a
    } else if b is Some {
        b
    } else {
        c
    }
}

/// The classification of a message, given its lowercase form and the status
/// code found in that form. Cues are tried in a fixed order; the first wins.
pub open spec fn classify_spec(lower: Seq<char>, message: Seq<char>, code: Option<u16>) -> ErrorView {
    if occurs_in("timeout"@, lower) || occurs_in("timed out"@, lower) {
        ErrorView::NetworkTimeout
    } else if occurs_in("network unreachable"@, lower) || occurs_in("no route to host"@, lower) {
        ErrorView::NetworkUnreachable
    } else if occurs_in("connection refused"@, lower) || occurs_in("econnrefused"@, lower) {
        ErrorView::NetworkConnRefused
    } else if occurs_in("slow"@, lower) || occurs_in("bandwidth"@, lower) {
        ErrorView::NetworkSlowConnection
    } else if occurs_in("http"@, lower) {
        match code {
            Some(c) => if c >= 500 {
                ErrorView::HttpServerError(c)
            } else if c >= 400 {
                ErrorView::HttpClientError(c)
            } else {
                ErrorView::Unknown(message)
            },
            None => ErrorView::Unknown(message),
        }
    } else if occurs_in("no space"@, lower) || occurs_in("disk full"@, lower) {
        ErrorView::FileSystemInsufficientSpace
    } else if occurs_in("permission denied"@, lower) || occurs_in("access denied"@, lower) {
        ErrorView::FileSystemPermissionDenied
    } else if occurs_in("corrupted"@, lower) || occurs_in("checksum"@, lower) {
        ErrorView::FileSystemCorruptedDownload
    } else if occurs_in("invalid browser"@, lower) {
        ErrorView::InvalidBrowserType
    } else if occurs_in("invalid version"@, lower) || occurs_in("version not found"@, lower) {
        ErrorView::InvalidVersion
    } else if occurs_in("platform not supported"@, lower) || occurs_in("invalid platform"@, lower) {
        ErrorView::InvalidPlatform
    } else if occurs_in("url not found"@, lower) || occurs_in("download not available"@, lower) {
        ErrorView::DownloadUrlNotFound
    } else if occurs_in("resource exhausted"@, lower) || occurs_in("out of memory"@, lower) {
        ErrorView::SystemResourceExhausted
    } else if occurs_in("process"@, lower) {
        ErrorView::SystemProcessError
    } else {
        ErrorView::Unknown(message)
    }
}

/// The classification of a free-text message.
pub open spec fn classified(message: Seq<char>) -> ErrorView {
    classify_spec(lower_of(message), message, http_status_in(lower_of(message)))
}

/// Relies on `regex::Regex::new`, `Regex::captures` and `Captures::get`: the
/// text of the first group of the leftmost match, `None` where the pattern
/// does not compile or does not match.
#[verifier::external_body]
fn first_capture(pattern: &str, text: &str) -> (r: Option<String>)
    ensures
        match r {
            Some(s) => regex_group_one(pattern@, text@) == Some(s@),
            None => regex_group_one(pattern@, text@) is None,
        },
{
    let re = regex::Regex::new(pattern).ok()?;
    re.captures(text).and_then(|c| c.get(1)).map(|m| m.as_str().to_string())
}

proof fn lemma_digits_value_grows(s: Seq<char>, k: int)
    requires
        0 <= k <= s.len(),
        forall|i: int| 0 <= i < s.len() ==> is_digit(#[trigger] s[i]),
    ensures
        digits_value(s.subrange(0, k)) <= digits_value(s),
    decreases s.len(),
{
    if k < s.len() {
        assert(s.drop_last() =~= s.subrange(0, s.len() - 1));
        assert(s.drop_last().subrange(0, k) =~= s.subrange(0, k));
        lemma_digits_value_grows(s.drop_last(), k);
    } else {
        assert(s.subrange(0, k) =~= s);
    }
}

/// Reads a nonempty run of ASCII digits as a number that fits in `u16`.
pub fn parse_status_number(s: &str) -> (r: Option<u16>)
    ensures
        r == status_number(s@),
{
    let cs = chars_of(s);
    if cs.len() == 0 {
        return None;
    }
    let mut value: u64 = 0;
    let mut i: usize = 0;
    while i < cs.len()
        invariant
            cs@ == s@,
            i <= cs@.len(),
            value == digits_value(cs@.subrange(0, i as int)),
            value <= 65535,
            forall|j: int| 0 <= j < i ==> is_digit(#[trigger] cs@[j]),
        decreases cs@.len() - i,
    {
        let c = cs[i];
        if !((c as u32) >= 48 && (c as u32) <= 57) {
            assert(!is_digit(s@[i as int]));
            return None;
        }
        proof {
            let p = cs@.subrange(0, i + 1);
            assert(p.drop_last() =~= cs@.subrange(0, i as int));
        }
        value = value * 10 + (c as u32 - 48) as u64;
        i += 1;
        if value > 65535 {
            proof {
                if forall|j: int| 0 <= j < cs@.len() ==> is_digit(#[trigger] cs@[j]) {
                    lemma_digits_value_grows(cs@, i as int);
                }
            }
            return None;
        }
    }
    assert(cs@.subrange(0, i as int) =~= s@);
    Some(value as u16)
}

fn status_from_pattern(pattern: &str, message: &str) -> (r: Option<u16>)
    ensures
        r == status_in_group(regex_group_one(pattern@, message@)),
{
    match first_capture(pattern, message) {
        Some(g) => parse_status_number(g.as_str()),
        None => None,
    }
}

/// The HTTP status code in a lowercase message, from the patterns
/// "http N", "status: N" and "error N", tried in that order.
pub fn extract_http_status_code(message: &str) -> (r: Option<u16>)
    ensures
        r == http_status_in(message@),
{
    let a = status_from_pattern("http\\s+(\\d{3})", message);
    if a.is_some() {
        return a;
    }
    let b = status_from_pattern("status\\s*:\\s*(\\d{3})", message);
    if b.is_some() {
        return b;
    }
    status_from_pattern("error\\s+(\\d{3})", message)
}

impl DownloadError {
    /// A copy of this error.
    pub fn duplicate(&self) -> (r: DownloadError)
        ensures
            r == *self,
    {
        match self {
            DownloadError::FileSystemIoError(m) => DownloadError::FileSystemIoError(m.clone()),
            DownloadError::Unknown(m) => DownloadError::Unknown(m.clone()),
            DownloadError::NetworkTimeout => DownloadError::NetworkTimeout,
            DownloadError::NetworkUnreachable => DownloadError::NetworkUnreachable,
            DownloadError::NetworkConnRefused => DownloadError::NetworkConnRefused,
            DownloadError::NetworkSlowConnection => DownloadError::NetworkSlowConnection,
            DownloadError::HttpServerError(c) => DownloadError::HttpServerError(*c),
            DownloadError::HttpClientError(c) => DownloadError::HttpClientError(*c),
            DownloadError::HttpRedirectLoop => DownloadError::HttpRedirectLoop,
            DownloadError::FileSystemInsufficientSpace => DownloadError::FileSystemInsufficientSpace,
            DownloadError::FileSystemPermissionDenied => DownloadError::FileSystemPermissionDenied,
            DownloadError::FileSystemCorruptedDownload => DownloadError::FileSystemCorruptedDownload,
            DownloadError::InvalidBrowserType => DownloadError::InvalidBrowserType,
            DownloadError::InvalidVersion => DownloadError::InvalidVersion,
            DownloadError::InvalidPlatform => DownloadError::InvalidPlatform,
            DownloadError::DownloadUrlNotFound => DownloadError::DownloadUrlNotFound,
            DownloadError::SystemResourceExhausted => DownloadError::SystemResourceExhausted,
            DownloadError::SystemProcessError => DownloadError::SystemProcessError,
        }
    }

    /// Whether an error of this kind is worth another attempt.
    pub fn is_retryable(&self) -> (r: bool)
        ensures
            r == retryable(self@),
    {
        match self {
            DownloadError::NetworkTimeout
            | DownloadError::NetworkUnreachable
            | DownloadError::NetworkConnRefused
            | DownloadError::NetworkSlowConnection => true,
            DownloadError::HttpServerError(_) => true,
            DownloadError::HttpClientError(code) => *code == 429,
            DownloadError::FileSystemCorruptedDownload | DownloadError::FileSystemIoError(_) => true,
            DownloadError::FileSystemInsufficientSpace
            | DownloadError::FileSystemPermissionDenied => false,
            DownloadError::SystemResourceExhausted | DownloadError::SystemProcessError => true,
            DownloadError::InvalidBrowserType
            | DownloadError::InvalidVersion
            | DownloadError::InvalidPlatform
            | DownloadError::DownloadUrlNotFound => false,
            DownloadError::HttpRedirectLoop | DownloadError::Unknown(_) => false,
        }
    }

    /// How serious an error of this kind is.
    pub fn severity(&self) -> (r: ErrorSeverity)
        ensures
            r == severity_of(self@),
    {
        match self {
            DownloadError::NetworkSlowConnection => ErrorSeverity::Low,
            DownloadError::NetworkTimeout
            | DownloadError::NetworkUnreachable
            | DownloadError::NetworkConnRefused
            | DownloadError::HttpServerError(_)
            | DownloadError::FileSystemCorruptedDownload => ErrorSeverity::Medium,
            DownloadError::FileSystemInsufficientSpace
            | DownloadError::FileSystemPermissionDenied
            | DownloadError::SystemResourceExhausted
            | DownloadError::HttpRedirectLoop => ErrorSeverity::High,
            DownloadError::SystemProcessError => ErrorSeverity::Critical,
            _ => ErrorSeverity::Medium,
        }
    }

    /// The strategy recommended for errors of this kind.
    pub fn retry_strategy(&self) -> (r: RetryStrategy)
        ensures
            r == strategy_of(self@),
    {
        match self {
            DownloadError::NetworkTimeout
            | DownloadError::NetworkUnreachable
            | DownloadError::NetworkConnRefused => RetryStrategy::ExponentialBackoff {
                max_attempts: 5,
                initial_delay_ms: 1000,
                max_delay_ms: 30000,
                backoff_factor_percent: 200,
            },
            DownloadError::NetworkSlowConnection => RetryStrategy::LinearBackoff {
                max_attempts: 2,
                delay_increment_ms: 5000,
            },
            DownloadError::HttpServerError(_) => RetryStrategy::ExponentialBackoff {
                max_attempts: 3,
                initial_delay_ms: 2000,
                max_delay_ms: 15000,
                backoff_factor_percent: 150,
            },
            DownloadError::HttpClientError(code) => {
                if *code == 429 {
                    RetryStrategy::LinearBackoff { max_attempts: 3, delay_increment_ms: 10000 }
                } else {
                    RetryStrategy::NoRetry
                }
            },
            DownloadError::FileSystemCorruptedDownload
            | DownloadError::FileSystemIoError(_) => RetryStrategy::ExponentialBackoff {
                max_attempts: 2,
                initial_delay_ms: 1000,
                max_delay_ms: 5000,
                backoff_factor_percent: 200,
            },
            DownloadError::SystemResourceExhausted
            | DownloadError::SystemProcessError => RetryStrategy::LinearBackoff {
                max_attempts: 3,
                delay_increment_ms: 3000,
            },
            _ => RetryStrategy::NoRetry,
        }
    }

    /// The message shown to users.
    pub fn user_message(&self) -> (r: String)
        ensures
            r@ == user_message_of(self@),
    {
        match self {
            DownloadError::NetworkTimeout => String::from_str("网络连接超时，请检查网络连接"),
            DownloadError::NetworkUnreachable => String::from_str("无法访问下载服务器，请检查网络设置"),
            DownloadError::NetworkConnRefused => String::from_str("下载服务器拒绝连接，可能服务器暂时不可用"),
            DownloadError::NetworkSlowConnection => String::from_str("网络连接缓慢，正在重试下载"),
            DownloadError::HttpServerError(code) => text_with_number("服务器错误 (", *code as u64, "), 正在重试"),
            DownloadError::HttpClientError(code) => text_with_number("请求错误 (", *code as u64, "), 请检查下载链接"),
            DownloadError::HttpRedirectLoop => String::from_str("下载链接重定向过多，请联系技术支持"),
            DownloadError::FileSystemInsufficientSpace => String::from_str("磁盘空间不足，请清理磁盘空间后重试"),
            DownloadError::FileSystemPermissionDenied => String::from_str("文件权限不足，请以管理员权限运行程序"),
            DownloadError::FileSystemCorruptedDownload => String::from_str("下载文件损坏，正在重新下载"),
            DownloadError::FileSystemIoError(m) => text_around("文件操作失败: ", m.as_str(), ""),
            DownloadError::InvalidBrowserType => String::from_str("不支持的浏览器类型"),
            DownloadError::InvalidVersion => String::from_str("无效的浏览器版本号"),
            DownloadError::InvalidPlatform => String::from_str("不支持的操作系统平台"),
            DownloadError::DownloadUrlNotFound => String::from_str("找不到下载链接，该版本可能不存在"),
            DownloadError::SystemResourceExhausted => String::from_str("系统资源不足，正在重试"),
            DownloadError::SystemProcessError => String::from_str("系统进程错误，请重启应用程序"),
            DownloadError::Unknown(m) => text_around("未知错误: ", m.as_str(), ""),
        }
    }

    /// The full structured form, for logs.
    pub fn technical_details(&self) -> (r: String)
        ensures
            r@ == technical_of(self@),
    {
        match self {
            DownloadError::NetworkTimeout => String::from_str("NetworkTimeout"),
            DownloadError::NetworkUnreachable => String::from_str("NetworkUnreachable"),
            DownloadError::NetworkConnRefused => String::from_str("NetworkConnRefused"),
            DownloadError::NetworkSlowConnection => String::from_str("NetworkSlowConnection"),
            DownloadError::HttpServerError(code) => text_with_number("HttpServerError(", *code as u64, ")"),
            DownloadError::HttpClientError(code) => text_with_number("HttpClientError(", *code as u64, ")"),
            DownloadError::HttpRedirectLoop => String::from_str("HttpRedirectLoop"),
            DownloadError::FileSystemInsufficientSpace => String::from_str("FileSystemInsufficientSpace"),
            DownloadError::FileSystemPermissionDenied => String::from_str("FileSystemPermissionDenied"),
            DownloadError::FileSystemCorruptedDownload => String::from_str("FileSystemCorruptedDownload"),
            DownloadError::FileSystemIoError(m) => {
                let q = debug_text(m.as_str());
                text_around("FileSystemIoError(", q.as_str(), ")")
            },
            DownloadError::InvalidBrowserType => String::from_str("InvalidBrowserType"),
            DownloadError::InvalidVersion => String::from_str("InvalidVersion"),
            DownloadError::InvalidPlatform => String::from_str("InvalidPlatform"),
            DownloadError::DownloadUrlNotFound => String::from_str("DownloadUrlNotFound"),
            DownloadError::SystemResourceExhausted => String::from_str("SystemResourceExhausted"),
            DownloadError::SystemProcessError => String::from_str("SystemProcessError"),
            DownloadError::Unknown(m) => {
                let q = debug_text(m.as_str());
                text_around("Unknown(", q.as_str(), ")")
            },
        }
    }

    /// Classifies a message from its lowercase form `lower`, the message
    /// `message` as given and the status code found in `lower`.
    pub fn classify_lowered(lower: &str, message: &str, code: Option<u16>) -> (r: DownloadError)
        ensures
            r@ == classify_spec(lower@, message@, code),
    {
        let h = chars_of(lower);
        if contains_chars(&h, "timeout") || contains_chars(&h, "timed out") {
            DownloadError::NetworkTimeout
        } else if contains_chars(&h, "network unreachable") || contains_chars(&h, "no route to host") {
            DownloadError::NetworkUnreachable
        } else if contains_chars(&h, "connection refused") || contains_chars(&h, "econnrefused") {
            DownloadError::NetworkConnRefused
        } else if contains_chars(&h, "slow") || contains_chars(&h, "bandwidth") {
            DownloadError::NetworkSlowConnection
        } else if contains_chars(&h, "http") {
            match code {
                Some(c) => {
                    if c >= 500 {
                        DownloadError::HttpServerError(c)
                    } else if c >= 400 {
                        DownloadError::HttpClientError(c)
                    } else {
                        DownloadError::Unknown(String::from_str(message))
                    }
                },
                None => DownloadError::Unknown(String::from_str(message)),
            }
        } else if contains_chars(&h, "no space") || contains_chars(&h, "disk full") {
            DownloadError::FileSystemInsufficientSpace
        } else if contains_chars(&h, "permission denied") || contains_chars(&h, "access denied") {
            DownloadError::FileSystemPermissionDenied
        } else if contains_chars(&h, "corrupted") || contains_chars(&h, "checksum") {
            DownloadError::FileSystemCorruptedDownload
        } else if contains_chars(&h, "invalid browser") {
            DownloadError::InvalidBrowserType
        } else if contains_chars(&h, "invalid version") || contains_chars(&h, "version not found") {
            DownloadError::InvalidVersion
        } else if contains_chars(&h, "platform not supported") || contains_chars(&h, "invalid platform") {
            DownloadError::InvalidPlatform
        } else if contains_chars(&h, "url not found") || contains_chars(&h, "download not available") {
            DownloadError::DownloadUrlNotFound
        } else if contains_chars(&h, "resource exhausted") || contains_chars(&h, "out of memory") {
            DownloadError::SystemResourceExhausted
        } else if contains_chars(&h, "process") {
            DownloadError::SystemProcessError
        } else {
            DownloadError::Unknown(String::from_str(message))
        }
    }

    /// Classifies a free-text failure message. Never fails: text without a
    /// known cue becomes `Unknown` with the text as given.
    pub fn from_message(message: &str) -> (r: DownloadError)
        ensures
            r@ == classified(message@),
    {
        let lower = lowercase(message);
        let code = extract_http_status_code(lower.as_str());
        DownloadError::classify_lowered(lower.as_str(), message, code)
    }
}

} // verus!
