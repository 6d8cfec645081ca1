//! Platform names, executable names and paths. The operating system and
//! architecture come in as the names Rust gives them (`"windows"`,
//! `"macos"`, `"linux"`; `"x86_64"`, `"x86"`, `"aarch64"`).

use vstd::prelude::*;
use vstd::string::*;
use crate::models::BrowserType;
use crate::text::{decimal, ends_with, ends_with_text, same_text};

verus! {

/// The platform identifier used by browser download sites.
pub open spec fn platform_of(os: Seq<char>, arch: Seq<char>) -> Seq<char> {
    if os == "windows"@ {
        if arch == "x86_64"@ {
            "win64"@
        } else if arch == "x86"@ {
            "win32"@
        } else {
            "windows"@
        }
    } else if os == "macos"@ {
        if arch == "aarch64"@ {
            "mac_arm"@
        } else {
            "mac_x64"@
        }
    } else if os == "linux"@ {
        if arch == "x86_64"@ {
            "linux64"@
        } else {
            "linux"@
        }
    } else {
        "unknown"@
    }
}

/// The executable of each browser type on each system.
pub open spec fn executable_name_of(t: BrowserType, os: Seq<char>) -> Seq<char> {
    match t {
        BrowserType::Chrome => if os == "windows"@ {
            "chrome.exe"@
        } else if os == "macos"@ {
            "Google Chrome.app/Contents/MacOS/Google Chrome"@
        } else {
            "google-chrome"@
        },
        BrowserType::Chromium => if os == "windows"@ {
            "chrome.exe"@
        } else if os == "macos"@ {
            "Chromium.app/Contents/MacOS/Chromium"@
        } else {
            "chromium-browser"@
        },
        BrowserType::Firefox => if os == "windows"@ {
            "firefox.exe"@
        } else if os == "macos"@ {
            "Firefox.app/Contents/MacOS/firefox"@
        } else {
            "firefox"@
        },
        BrowserType::ChromeDriver => if os == "windows"@ {
            "chromedriver.exe"@
        } else {
            "chromedriver"@
        },
    }
}

/// Where an unpacked browser's executable may be, relative to its install
/// directory, most likely first.
pub open spec fn executable_candidates_of(t: BrowserType, os: Seq<char>) -> Seq<Seq<char>> {
    match t {
        BrowserType::Chrome => if os == "windows"@ {
            seq!["chrome.exe"@, "Application/chrome.exe"@]
        } else if os == "macos"@ {
            seq![
                "Google Chrome.app/Contents/MacOS/Google Chrome"@,
                "chrome-mac/Google Chrome.app/Contents/MacOS/Google Chrome"@,
                "chrome-mac-arm64/Google Chrome.app/Contents/MacOS/Google Chrome"@,
                "chrome-mac-x64/Google Chrome.app/Contents/MacOS/Google Chrome"@,
            ]
        } else {
            seq!["chrome"@, "google-chrome"@, "chrome-linux/chrome"@]
        },
        BrowserType::Chromium => if os == "windows"@ {
            seq!["chrome.exe"@, "Application/chrome.exe"@]
        } else if os == "macos"@ {
            seq!["Chromium.app/Contents/MacOS/Chromium"@, "chrome-mac/Chromium.app/Contents/MacOS/Chromium"@]
        } else {
            seq!["chrome"@, "chromium"@, "chrome-linux/chrome"@]
        },
        BrowserType::Firefox => if os == "windows"@ {
            seq!["firefox.exe"@, "firefox/firefox.exe"@]
        } else if os == "macos"@ {
            seq!["Firefox.app/Contents/MacOS/firefox"@]
        } else {
            seq!["firefox"@]
        },
        BrowserType::ChromeDriver => if os == "windows"@ {
            seq!["chromedriver.exe"@]
        } else {
            seq!["chromedriver"@]
        },
    }
}

/// What std's `Path::join` gives, as text, for a base and a relative part.
pub uninterp spec fn joined_path_of(base: Seq<char>, part: Seq<char>) -> Seq<char>;

/// What std's `Path::with_extension` gives, as text, for a path and an
/// extension.
pub uninterp spec fn with_extension_of(path: Seq<char>, ext: Seq<char>) -> Seq<char>;

/// Relies on `std::path::Path::join`: the base followed by the part, with a
/// separator between them where needed.
#[verifier::external_body]
fn join_path(base: &str, part: &str) -> (r: String)
    ensures
        r@ == joined_path_of(base@, part@),
{
    std::path::Path::new(base).join(part).to_string_lossy().into_owned()
}

/// The text holds no path separator.
pub open spec fn no_separator(s: Seq<char>) -> bool {
    forall|i: int| 0 <= i < s.len() ==> s[i] != '/' && s[i] != '\\'
}

/// Relies on `std::path::Path::with_extension`: the path with the extension
/// of its file name replaced by `ext`, which holds no path separator.
#[verifier::external_body]
fn replace_extension(path: &str, ext: &str) -> (r: String)
    requires
        no_separator(ext@),
    ensures
        r@ == with_extension_of(path@, ext@),
{
    std::path::Path::new(path).with_extension(ext).to_string_lossy().into_owned()
}

/// The platform identifier for a system and architecture.
pub fn get_platform(os: &str, arch: &str) -> (r: &'static str)
    ensures
        r@ == platform_of(os@, arch@),
{
    if same_text(os, "windows") {
        if same_text(arch, "x86_64") {
            "win64"
        } else if same_text(arch, "x86") {
            "win32"
        } else {
            "windows"
        }
    } else if same_text(os, "macos") {
        if same_text(arch, "aarch64") {
            "mac_arm"
        } else {
            "mac_x64"
        }
    } else if same_text(os, "linux") {
        if same_text(arch, "x86_64") {
            "linux64"
        } else {
            "linux"
        }
    } else {
        "unknown"
    }
}

/// Whether the system is Windows.
pub fn is_windows(os: &str) -> (r: bool)
    ensures
        r == (os@ == "windows"@),
{
    same_text(os, "windows")
}

/// Whether the system is macOS.
pub fn is_macos(os: &str) -> (r: bool)
    ensures
        r == (os@ == "macos"@),
{
    same_text(os, "macos")
}

/// Whether the system is Linux.
pub fn is_linux(os: &str) -> (r: bool)
    ensures
        r == (os@ == "linux"@),
{
    same_text(os, "linux")
}

/// The file extension of executables on the system.
pub fn get_executable_extension(os: &str) -> (r: &'static str)
    ensures
        r@ == (if os@ == "windows"@ { ".exe"@ } else { ""@ }),
{
    if is_windows(os) {
        ".exe"
    } else {
        ""
    }
}

/// The executable of a browser type on the system.
pub fn get_browser_executable_name(browser_type: &BrowserType, os: &str) -> (r: &'static str)
    ensures
        r@ == executable_name_of(*browser_type, os@),
{
    let windows = is_windows(os);
    let macos = is_macos(os);
    match browser_type {
        BrowserType::Chrome => {
            if windows {
                "chrome.exe"
            } else if macos {
                "Google Chrome.app/Contents/MacOS/Google Chrome"
            } else {
                "google-chrome"
            }
        },
        BrowserType::Chromium => {
            if windows {
                "chrome.exe"
            } else if macos {
                "Chromium.app/Contents/MacOS/Chromium"
            } else {
                "chromium-browser"
            }
        },
        BrowserType::Firefox => {
            if windows {
                "firefox.exe"
            } else if macos {
                "Firefox.app/Contents/MacOS/firefox"
            } else {
                "firefox"
            }
        },
        BrowserType::ChromeDriver => {
            if windows {
                "chromedriver.exe"
            } else {
                "chromedriver"
            }
        },
    }
}

/// Where an unpacked browser's executable may be, relative to its install
/// directory, most likely first. The first is the one to assume when none
/// exists.
pub fn executable_candidates(browser_type: &BrowserType, os: &str) -> (r: Vec<&'static str>)
    ensures
        r@.len() == executable_candidates_of(*browser_type, os@).len(),
        forall|i: int| 0 <= i < r@.len() ==> #[trigger] r@[i]@ == executable_candidates_of(*browser_type, os@)[i],
{
    let windows = is_windows(os);
    let macos = is_macos(os);
    let r = match browser_type {
        BrowserType::Chrome => {
            if windows {
                vec!["chrome.exe", "Application/chrome.exe"]
            } else if macos {
                vec![
                    "Google Chrome.app/Contents/MacOS/Google Chrome",
                    "chrome-mac/Google Chrome.app/Contents/MacOS/Google Chrome",
                    "chrome-mac-arm64/Google Chrome.app/Contents/MacOS/Google Chrome",
                    "chrome-mac-x64/Google Chrome.app/Contents/MacOS/Google Chrome",
                ]
            } else {
                vec!["chrome", "google-chrome", "chrome-linux/chrome"]
            }
        },
        BrowserType::Chromium => {
            if windows {
                vec!["chrome.exe", "Application/chrome.exe"]
            } else if macos {
                vec!["Chromium.app/Contents/MacOS/Chromium", "chrome-mac/Chromium.app/Contents/MacOS/Chromium"]
            } else {
                vec!["chrome", "chromium", "chrome-linux/chrome"]
            }
        },
        BrowserType::Firefox => {
            if windows {
                vec!["firefox.exe", "firefox/firefox.exe"]
            } else if macos {
                vec!["Firefox.app/Contents/MacOS/firefox"]
            } else {
                vec!["firefox"]
            }
        },
        BrowserType::ChromeDriver => {
            if windows {
                vec!["chromedriver.exe"]
            } else {
                vec!["chromedriver"]
            }
        },
    };
    r
}

/// Which candidate to use, given which of them exist: the first that
/// exists, else the first.
pub fn pick_executable(exists: &Vec<bool>) -> (r: usize)
    ensures
        (exists|i: int| 0 <= i < exists@.len() && exists@[i]) ==> r < exists@.len() && exists@[r as int]
            && forall|j: int| 0 <= j < r ==> !exists@[j],
        !(exists|i: int| 0 <= i < exists@.len() && exists@[i]) ==> r == 0,
{
    let mut i: usize = 0;
    while i < exists.len()
        invariant
            i <= exists@.len(),
            forall|j: int| 0 <= j < i ==> !exists@[j],
        decreases exists@.len() - i,
    {
        if exists[i] {
            return i;
        }
        i += 1;
    }
    0
}

/// Every browser type can be downloaded on every system.
pub fn is_browser_supported(browser_type: &BrowserType) -> (r: bool)
    ensures
        r,
{
    match browser_type {
        BrowserType::Chrome | BrowserType::Chromium => true,
        BrowserType::Firefox => true,
        BrowserType::ChromeDriver => true,
    }
}

/// The path of executable `name` in directory `base`, with the `exe`
/// extension on Windows where the name lacks it.
pub fn get_executable_path(base: &str, name: &str, os: &str) -> (r: String)
    ensures
        r@ == (if os@ == "windows"@ && !ends_with(name@, ".exe"@) {
            with_extension_of(joined_path_of(base@, name@), "exe"@)
        } else {
            joined_path_of(base@, name@)
        }),
{
    let path = join_path(base, name);
    if is_windows(os) && !ends_with_text(name, ".exe") {
        proof { reveal_strlit("exe"); }
        replace_extension(path.as_str(), "exe")
    } else {
        path
    }
}

/// The directory for downloaded browsers inside the application data
/// directory.
pub fn get_browsers_dir(app_data_dir: &str) -> (r: String)
    ensures
        r@ == joined_path_of(app_data_dir@, "browsers"@),
{
    join_path(app_data_dir, "browsers")
}

/// The database file inside the application data directory.
pub fn get_database_path(app_data_dir: &str) -> (r: String)
    ensures
        r@ == joined_path_of(app_data_dir@, "database.sqlite"@),
{
    join_path(app_data_dir, "database.sqlite")
}

/// The default directory for browsers inside the application directory.
pub fn get_default_browsers_dir(app_dir: &str) -> (r: String)
    ensures
        r@ == joined_path_of(app_dir@, "browsers"@),
{
    join_path(app_dir, "browsers")
}

/// A one-line description of the system: its name, platform identifier
/// and architecture.
pub fn get_system_info(os: &str, arch: &str) -> (r: String)
    ensures
        r@ == os@ + " "@ + platform_of(os@, arch@) + " ("@ + arch@ + ")"@,
{
    let mut s = String::from_str(os);
    s.append(" ");
    s.append(get_platform(os, arch));
    s.append(" (");
    s.append(arch);
    s.append(")");
    s
}

/// The application data directory from the environment's values: on
/// Windows `APPDATA`, else `USERPROFILE\AppData\Roaming`; on macOS
/// `HOME/Library/Application Support`; elsewhere `XDG_DATA_HOME`, else
/// `HOME/.local/share`; each followed by the application's name.
pub open spec fn app_data_dir_of(
    os: Seq<char>,
    appdata: Option<Seq<char>>,
    userprofile: Option<Seq<char>>,
    xdg_data_home: Option<Seq<char>>,
    home: Option<Seq<char>>,
) -> Option<Seq<char>> {
    let base = if os == "windows"@ {
        match appdata {
            Some(a) => Some(a),
            None => match userprofile {
                Some(u) => Some(joined_path_of(joined_path_of(u, "AppData"@), "Roaming"@)),
                None => None,
            },
        }
    } else if os == "macos"@ {
        match home {
            Some(h) => Some(joined_path_of(joined_path_of(h, "Library"@), "Application Support"@)),
            None => None,
        }
    } else {
        match xdg_data_home {
            Some(x) => Some(x),
            None => match home {
                Some(h) => Some(joined_path_of(joined_path_of(h, ".local"@), "share"@)),
                None => None,
            },
        }
    };
    match base {
        Some(b) => Some(joined_path_of(b, "chrome-tester"@)),
        None => None,
    }
}

/// The text of an optional string.
pub open spec fn text_of(o: Option<String>) -> Option<Seq<char>> {
    match o {
        Some(s) => Some(s@),
        None => None,
    }
}

/// The application data directory, from the values of `APPDATA`,
/// `USERPROFILE`, `XDG_DATA_HOME` and `HOME` (`None` where unset).
pub fn app_data_dir_from(
    os: &str,
    appdata: Option<String>,
    userprofile: Option<String>,
    xdg_data_home: Option<String>,
    home: Option<String>,
) -> (r: Result<String, String>)
    ensures
        match app_data_dir_of(os@, text_of(appdata), text_of(userprofile), text_of(xdg_data_home), text_of(home)) {
            Some(d) => r matches Ok(p) && p@ == d,
            None => r matches Err(e) && e@ == "Unable to determine app data directory"@,
        },
{
    let base: Option<String> = if is_windows(os) {
        match appdata {
            Some(a) => Some(a),
            None => match userprofile {
                Some(u) => Some(join_path(join_path(u.as_str(), "AppData").as_str(), "Roaming")),
                None => None,
            },
        }
    } else if is_macos(os) {
        match home {
            Some(h) => Some(join_path(join_path(h.as_str(), "Library").as_str(), "Application Support")),
            None => None,
        }
    } else {
        match xdg_data_home {
            Some(x) => Some(x),
            None => match home {
                Some(h) => Some(join_path(join_path(h.as_str(), ".local").as_str(), "share")),
                None => None,
            },
        }
    };
    match base {
        Some(b) => Ok(join_path(b.as_str(), "chrome-tester")),
        None => Err(String::from_str("Unable to determine app data directory")),
    }
}

/// The application directory under the user's home: `home` is `HOME`, or
/// else `USERPROFILE`; on Linux and others `XDG_DATA_HOME` replaces
/// `home/.local/share` where set.
pub open spec fn app_dir_of(os: Seq<char>, home: Seq<char>, xdg_data_home: Option<Seq<char>>) -> Seq<char> {
    let base = if os == "windows"@ {
        joined_path_of(joined_path_of(home, "AppData"@), "Roaming"@)
    } else if os == "macos"@ {
        joined_path_of(joined_path_of(home, "Library"@), "Application Support"@)
    } else {
        match xdg_data_home {
            Some(x) => x,
            None => joined_path_of(joined_path_of(home, ".local"@), "share"@),
        }
    };
    joined_path_of(base, "chrome-tester"@)
}

/// The application directory, from the home directory and the value of
/// `XDG_DATA_HOME`.
pub fn app_dir_from(os: &str, home: &str, xdg_data_home: Option<String>) -> (r: String)
    ensures
        r@ == app_dir_of(os@, home@, text_of(xdg_data_home)),
{
    let base = if is_windows(os) {
        join_path(join_path(home, "AppData").as_str(), "Roaming")
    } else if is_macos(os) {
        join_path(join_path(home, "Library").as_str(), "Application Support")
    } else {
        match xdg_data_home {
            Some(x) => x,
            None => join_path(join_path(home, ".local").as_str(), "share"),
        }
    };
    join_path(base.as_str(), "chrome-tester")
}

/// The separator between the directories of `PATH`.
pub fn path_list_separator(os: &str) -> (r: char)
    ensures
        r == (if os@ == "windows"@ { ';' } else { ':' }),
{
    if is_windows(os) {
        ';'
    } else {
        ':'
    }
}

/// The file name to look for on the `PATH`: on Windows the `.exe`
/// extension is added where missing.
pub fn executable_file_name(name: &str, os: &str) -> (r: String)
    ensures
        r@ == (if os@ == "windows"@ && !ends_with(name@, ".exe"@) { name@ + ".exe"@ } else { name@ }),
{
    let mut s = String::from_str(name);
    if is_windows(os) && !ends_with_text(name, ".exe") {
        s.append(".exe");
    }
    s
}

/// A duration in seconds as text: seconds below a minute, minutes and
/// seconds below an hour, hours and minutes above.
pub open spec fn duration_text(seconds: nat) -> Seq<char> {
    if seconds < 60 {
        decimal(seconds) + "s"@
    } else if seconds < 3600 {
        if seconds % 60 == 0 {
            decimal(seconds / 60) + "m"@
        } else {
            decimal(seconds / 60) + "m "@ + decimal(seconds % 60) + "s"@
        }
    } else {
        if (seconds % 3600) / 60 == 0 {
            decimal(seconds / 3600) + "h"@
        } else {
            decimal(seconds / 3600) + "h "@ + decimal((seconds % 3600) / 60) + "m"@
        }
    }
}

/// Formats a duration given in seconds.
pub fn format_duration(seconds: u64) -> (r: String)
    ensures
        r@ == duration_text(seconds as nat),
{
    let mut s = String::new();
    if seconds < 60 {
        crate::text::push_decimal(&mut s, seconds);
        s.append("s");
    } else if seconds < 3600 {
        crate::text::push_decimal(&mut s, seconds / 60);
        if seconds % 60 == 0 {
            s.append("m");
        } else {
            s.append("m ");
            crate::text::push_decimal(&mut s, seconds % 60);
            s.append("s");
        }
    } else {
        crate::text::push_decimal(&mut s, seconds / 3600);
        if (seconds % 3600) / 60 == 0 {
            s.append("h");
        } else {
            s.append("h ");
            crate::text::push_decimal(&mut s, (seconds % 3600) / 60);
            s.append("m");
        }
    }
    assert(s@ =~= duration_text(seconds as nat));
    s
}

} // verus!
