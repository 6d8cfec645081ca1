//! The records the orchestrator keeps: what is downloaded, and how far.

use vstd::prelude::*;
use vstd::string::*;
use crate::text::same_text;

verus! {

/// The browsers that can be downloaded.
#[derive(Debug, Clone, Copy, PartialEq, Eq, Structural)]
pub enum BrowserType {
    Chrome,
    Chromium,
    Firefox,
    ChromeDriver,
}

/// Where a download task stands.
#[derive(Debug, Clone, Copy, PartialEq, Eq, Structural)]
pub enum DownloadStatus {
    Pending,
    Downloading,
    Completed,
    Failed,
    Retrying,
}

/// An installed or requested browser. Paths are kept as text and the
/// download date as milliseconds since the Unix epoch.
#[derive(Debug, Clone)]
pub struct BrowserInfo {
    pub id: String,
    pub browser_type: BrowserType,
    pub version: String,
    pub platform: String,
    pub install_path: String,
    pub executable_path: String,
    pub download_date_ms: i64,
    pub file_size: u64,
    pub is_running: bool,
}

/// The whole of a progress ratio, in parts per ten thousand.
pub const PROGRESS_COMPLETE: u32 = 10_000;

/// One progress report of a download; the ratio is in parts per ten
/// thousand.
#[derive(Debug, Clone, Copy, PartialEq, Eq, Structural)]
pub struct DownloadProgress {
    pub progress_per_10k: u32,
    pub downloaded_bytes: u64,
    pub total_bytes: u64,
    pub estimated_time_remaining: Option<u64>,
}

/// One requested download, tracked by id through its lifecycle.
#[derive(Debug, Clone)]
pub struct DownloadTask {
    pub id: String,
    pub browser_info: BrowserInfo,
    pub status: DownloadStatus,
    pub progress_per_10k: u32,
    pub downloaded_bytes: u64,
    pub total_bytes: u64,
    pub estimated_time_remaining: Option<u64>,
    pub error_message: Option<String>,
    pub retry_count: u32,
}

/// A version offered for download. The release date is in milliseconds
/// since the Unix epoch.
#[derive(Debug, Clone)]
pub struct ChromeVersion {
    pub version: String,
    pub platform: String,
    pub download_url: Option<String>,
    pub file_size: Option<u64>,
    pub release_date_ms: Option<i64>,
}

/// What the application reports of the system it runs on.
#[derive(Debug, Clone)]
pub struct SystemInfo {
    pub platform: String,
    pub arch: String,
    pub available_versions: Vec<ChromeVersion>,
}

/// The platform reported to callers: one per system, with the Apple
/// architecture told apart.
pub open spec fn reported_platform_of(os: Seq<char>, arch: Seq<char>) -> Seq<char> {
    if os == "windows"@ {
        "win64"@
    } else if os == "macos"@ {
        if arch == "aarch64"@ {
            "mac_arm"@
        } else {
            "mac_x64"@
        }
    } else if os == "linux"@ {
        "linux64"@
    } else {
        "unknown"@
    }
}

impl SystemInfo {
    /// The report for a system and architecture (named as Rust names them),
    /// with no versions listed.
    pub fn for_system(os: &str, arch: &str) -> (r: SystemInfo)
        ensures
            r.platform@ == reported_platform_of(os@, arch@),
            r.arch@ == arch@,
            r.available_versions@.len() == 0,
    {
        let platform = if same_text(os, "windows") {
            "win64"
        } else if same_text(os, "macos") {
            if same_text(arch, "aarch64") {
                "mac_arm"
            } else {
                "mac_x64"
            }
        } else if same_text(os, "linux") {
            "linux64"
        } else {
            "unknown"
        };
        SystemInfo {
            platform: String::from_str(platform),
            arch: String::from_str(arch),
            available_versions: Vec::new(),
        }
    }
}

/// The name of a browser type as the download executor knows it.
pub open spec fn browser_type_name_of(t: BrowserType) -> Seq<char> {
    match t {
        BrowserType::Chrome => "chrome"@,
        BrowserType::Chromium => "chromium"@,
        BrowserType::Firefox => "firefox"@,
        BrowserType::ChromeDriver => "chromedriver"@,
    }
}

fn copy_text(s: &Option<String>) -> (r: Option<String>)
    ensures
        r == *s,
{
    match s {
        Some(m) => Some(m.clone()),
        None => None,
    }
}

impl BrowserType {
    /// The browser type with name `name`, as the download executor knows
    /// it; other names are refused.
    pub fn from_name(name: &str) -> (r: Result<BrowserType, String>)
        ensures
            match r {
                Ok(t) => browser_type_name_of(t) == name@,
                Err(e) => e@ == "Invalid browser type"@ && forall|t: BrowserType|
                    browser_type_name_of(t) != name@,
            },
    {
        if same_text(name, "chrome") {
            Ok(BrowserType::Chrome)
        } else if same_text(name, "chromium") {
            Ok(BrowserType::Chromium)
        } else if same_text(name, "firefox") {
            Ok(BrowserType::Firefox)
        } else if same_text(name, "chromedriver") {
            Ok(BrowserType::ChromeDriver)
        } else {
            Err(String::from_str("Invalid browser type"))
        }
    }

    /// The name of this type as the download executor knows it.
    pub fn name(&self) -> (r: &'static str)
        ensures
            r@ == browser_type_name_of(*self),
    {
        match self {
            BrowserType::Chrome => "chrome",
            BrowserType::Chromium => "chromium",
            BrowserType::Firefox => "firefox",
            BrowserType::ChromeDriver => "chromedriver",
        }
    }
}

/// The arguments every launched browser gets before the caller's own.
pub open spec fn launch_args_of(extra: Option<Seq<String>>) -> Seq<Seq<char>> {
    let base = seq!["--no-first-run"@, "--disable-default-apps"@];
    match extra {
        Some(e) => base + e.map_values(|a: String| a@),
        None => base,
    }
}

/// The command-line arguments for launching a browser: first-run prompts
/// and default apps off, then `extra` in order.
pub fn launch_args(extra: Option<Vec<String>>) -> (r: Vec<String>)
    ensures
        r@.map_values(|a: String| a@) == launch_args_of(
            match extra {
                Some(e) => Some(e@),
                None => None,
            },
        ),
{
    let mut args: Vec<String> = Vec::new();
    args.push(String::from_str("--no-first-run"));
    args.push(String::from_str("--disable-default-apps"));
    match extra {
        Some(e) => {
            let mut i: usize = 0;
            while i < e.len()
                invariant
                    i <= e@.len(),
                    args@.len() == 2 + i,
                    args@[0]@ == "--no-first-run"@,
                    args@[1]@ == "--disable-default-apps"@,
                    forall|j: int| 0 <= j < i ==> args@[2 + j] == e@[j],
                decreases e@.len() - i,
            {
                args.push(e[i].clone());
                i += 1;
            }
            let ghost lhs = args@.map_values(|a: String| a@);
            let ghost rhs = launch_args_of(Some(e@));
            assert forall|j: int| 0 <= j < lhs.len() implies lhs[j] == rhs[j] by {
                if j >= 2 {
                    assert(args@[2 + (j - 2)] == e@[j - 2]);
                }
            }
            assert(lhs =~= rhs);
        },
        None => {
            assert(args@.map_values(|a: String| a@) =~= launch_args_of(None));
        },
    }
    args
}

impl BrowserInfo {
    /// The record of a browser about to be downloaded: a fresh id, dated
    /// `now_ms`, with no paths, no size yet, not running.
    pub fn requested(browser_type: BrowserType, version: &str, platform: &str, now_ms: i64) -> (r: BrowserInfo)
        ensures
            r.id@.len() == 36,
            r.browser_type == browser_type,
            r.version@ == version@,
            r.platform@ == platform@,
            r.install_path@.len() == 0,
            r.executable_path@.len() == 0,
            r.download_date_ms == now_ms,
            r.file_size == 0,
            !r.is_running,
    {
        BrowserInfo {
            id: crate::launch_params::generate_id(),
            browser_type,
            version: String::from_str(version),
            platform: String::from_str(platform),
            install_path: String::new(),
            executable_path: String::new(),
            download_date_ms: now_ms,
            file_size: 0,
            is_running: false,
        }
    }

    /// A copy of this record.
    pub fn duplicate(&self) -> (r: BrowserInfo)
        ensures
            r == *self,
    {
        BrowserInfo {
            id: self.id.clone(),
            browser_type: self.browser_type,
            version: self.version.clone(),
            platform: self.platform.clone(),
            install_path: self.install_path.clone(),
            executable_path: self.executable_path.clone(),
            download_date_ms: self.download_date_ms,
            file_size: self.file_size,
            is_running: self.is_running,
        }
    }
}

impl DownloadTask {
    /// A copy of this record.
    pub fn duplicate(&self) -> (r: DownloadTask)
        ensures
            r == *self,
    {
        DownloadTask {
            id: self.id.clone(),
            browser_info: self.browser_info.duplicate(),
            status: self.status,
            progress_per_10k: self.progress_per_10k,
            downloaded_bytes: self.downloaded_bytes,
            total_bytes: self.total_bytes,
            estimated_time_remaining: self.estimated_time_remaining,
            error_message: copy_text(&self.error_message),
            retry_count: self.retry_count,
        }
    }
}

} // verus!
