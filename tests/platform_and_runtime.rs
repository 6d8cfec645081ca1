use browser_downloads::checksum::checksum_of;
use browser_downloads::models::{BrowserType, SystemInfo};
use browser_downloads::nodejs_runtime::{parse_script_line, LineKind, NodejsRuntime, ScriptOutcome};
use browser_downloads::platform::{
    app_data_dir_from, app_dir_from, executable_candidates, pick_executable, executable_file_name, path_list_separator, format_duration, get_browser_executable_name, get_browsers_dir, get_database_path,
    get_executable_extension, get_executable_path, get_platform, get_system_info, is_browser_supported, is_linux,
    is_macos, is_windows,
};

#[test]
fn platform_identifiers() {
    assert_eq!(get_platform("windows", "x86_64"), "win64");
    assert_eq!(get_platform("windows", "x86"), "win32");
    assert_eq!(get_platform("windows", "aarch64"), "windows");
    assert_eq!(get_platform("macos", "aarch64"), "mac_arm");
    assert_eq!(get_platform("macos", "x86_64"), "mac_x64");
    assert_eq!(get_platform("linux", "x86_64"), "linux64");
    assert_eq!(get_platform("linux", "aarch64"), "linux");
    assert_eq!(get_platform("freebsd", "x86_64"), "unknown");
    assert!(is_windows("windows") && !is_windows("linux"));
    assert!(is_macos("macos") && is_linux("linux"));
    assert_eq!(get_executable_extension("windows"), ".exe");
    assert_eq!(get_executable_extension("linux"), "");
    assert_eq!(get_system_info("linux", "x86_64"), "linux linux64 (x86_64)");
}

#[test]
fn executable_names_and_candidates() {
    assert_eq!(get_browser_executable_name(&BrowserType::Chromium, "linux"), "chromium-browser");
    assert_eq!(get_browser_executable_name(&BrowserType::Firefox, "windows"), "firefox.exe");
    assert_eq!(executable_candidates(&BrowserType::Chrome, "linux"), vec!["chrome", "google-chrome", "chrome-linux/chrome"]);
    assert_eq!(executable_candidates(&BrowserType::ChromeDriver, "windows"), vec!["chromedriver.exe"]);
    assert!(is_browser_supported(&BrowserType::ChromeDriver));
}

#[test]
fn paths_are_joined() {
    assert_eq!(get_browsers_dir("/data/app"), "/data/app/browsers");
    assert_eq!(get_database_path("/data/app"), "/data/app/database.sqlite");
    assert_eq!(get_executable_path("/opt", "chrome", "linux"), "/opt/chrome");
    assert_eq!(get_executable_path("/opt", "chrome", "windows"), "/opt/chrome.exe");
    assert_eq!(get_executable_path("/opt", "chrome.exe", "windows"), "/opt/chrome.exe");
}

#[test]
fn durations_are_formatted() {
    assert_eq!(format_duration(0), "0s");
    assert_eq!(format_duration(59), "59s");
    assert_eq!(format_duration(60), "1m");
    assert_eq!(format_duration(125), "2m 5s");
    assert_eq!(format_duration(3600), "1h");
    assert_eq!(format_duration(3725), "1h 2m");
}

#[test]
fn script_lines_are_read() {
    let p = parse_script_line("PROGRESS:{\"progress\":0.5}");
    assert_eq!(p.kind, LineKind::Progress);
    assert_eq!(p.text, "{\"progress\":0.5}");
    let c = parse_script_line("COMPLETED:  /opt/chrome  ");
    assert_eq!(c.kind, LineKind::Completed);
    assert_eq!(c.text, "/opt/chrome");
    let e = parse_script_line("ERROR: HTTP 404");
    assert_eq!(e.kind, LineKind::Failure);
    assert_eq!(e.text, "HTTP 404");
    assert_eq!(parse_script_line("hello").kind, LineKind::Other);
}

#[test]
fn script_outcome_follows_the_lines() {
    let mut o = ScriptOutcome::new("stable");
    o.absorb(&parse_script_line("VERSION:   "));
    o.absorb(&parse_script_line("VERSION: 120.0.1"));
    o.absorb(&parse_script_line("COMPLETED: /opt/b"));
    assert_eq!(o.finish(true, Some(0)), Ok(("/opt/b".to_string(), "120.0.1".to_string())));
    let none = ScriptOutcome::new("1");
    assert_eq!(none.finish(true, Some(0)), Err("Download completed but install path not found".to_string()));
    let failed = ScriptOutcome::new("1");
    assert_eq!(failed.finish(false, Some(-2)), Err("Node.js process failed with exit code: Some(-2)".to_string()));
    let killed = ScriptOutcome::new("1");
    assert_eq!(killed.finish(false, None), Err("Node.js process failed with exit code: None".to_string()));
    let rt = NodejsRuntime::with_node_path("/usr/bin/node".to_string());
    assert_eq!(rt.node_path(), "/usr/bin/node");
}

#[test]
fn checksum_is_sha256_hex() {
    assert_eq!(
        checksum_of(b"abc"),
        "ba7816bf8f01cfea414140de5dae2223b00361a396177a9cb410ff61f20015ad"
    );
    assert_eq!(checksum_of(b"").len(), 64);
}

#[test]
fn app_directories_follow_the_environment() {
    assert_eq!(
        app_data_dir_from("linux", None, None, Some("/xdg".to_string()), Some("/home/u".to_string())),
        Ok("/xdg/chrome-tester".to_string())
    );
    assert_eq!(
        app_data_dir_from("linux", None, None, None, Some("/home/u".to_string())),
        Ok("/home/u/.local/share/chrome-tester".to_string())
    );
    assert_eq!(
        app_data_dir_from("macos", None, None, None, Some("/Users/u".to_string())),
        Ok("/Users/u/Library/Application Support/chrome-tester".to_string())
    );
    assert_eq!(
        app_data_dir_from("linux", None, None, None, None),
        Err("Unable to determine app data directory".to_string())
    );
    assert_eq!(app_dir_from("linux", "/home/u", None), "/home/u/.local/share/chrome-tester");
    assert_eq!(app_dir_from("linux", "/home/u", Some("/x".to_string())), "/x/chrome-tester");
    assert_eq!(path_list_separator("windows"), ';');
    assert_eq!(path_list_separator("linux"), ':');
    assert_eq!(executable_file_name("node", "windows"), "node.exe");
    assert_eq!(executable_file_name("node.exe", "windows"), "node.exe");
    assert_eq!(executable_file_name("node", "linux"), "node");
}

#[test]
fn browser_type_names_and_system_report() {
    assert_eq!(BrowserType::from_name("chromedriver"), Ok(BrowserType::ChromeDriver));
    assert_eq!(BrowserType::from_name("opera"), Err("Invalid browser type".to_string()));
    assert_eq!(BrowserType::Chromium.name(), "chromium");
    let info = SystemInfo::for_system("windows", "x86");
    assert_eq!(info.platform, "win64");
    assert_eq!(info.arch, "x86");
    assert!(info.available_versions.is_empty());
    assert_eq!(SystemInfo::for_system("macos", "aarch64").platform, "mac_arm");
    assert_eq!(SystemInfo::for_system("linux", "aarch64").platform, "linux64");
}

#[test]
fn script_text_trimming_matches_std() {
    for raw in ["\u{3000}\u{a0} /opt/x \u{2028}\t", "\u{85}\u{1680}v\u{200a}", "   ", "a\u{200b}"] {
        let line = format!("COMPLETED:{}", raw);
        assert_eq!(parse_script_line(&line).text, raw.trim());
    }
}

#[test]
fn executable_pick_prefers_the_first_that_exists() {
    assert_eq!(pick_executable(&vec![false, true, true]), 1);
    assert_eq!(pick_executable(&vec![false, false]), 0);
    assert_eq!(pick_executable(&vec![true]), 0);
}
