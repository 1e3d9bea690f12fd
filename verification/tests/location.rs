use std::path::PathBuf;

use debug_capture::config::{is_enabled, DebugLoggingConfig};
use debug_capture::location::{fallback_dir, resolve_output_dir, OutputDir, FALLBACK_SUBDIR};

fn configured_root(dir: Option<OutputDir>) -> String {
    match dir {
        Some(OutputDir::Configured(root)) => root,
        _ => panic!("expected the configured directory"),
    }
}

fn fallback_parts(dir: Option<OutputDir>) -> (PathBuf, String) {
    match dir {
        Some(OutputDir::InDataDir { data_dir, child }) => (data_dir, child),
        _ => panic!("expected a directory inside the data directory"),
    }
}

#[test]
fn is_enabled_reads_the_flag() {
    let on = DebugLoggingConfig { enabled: true, output_dir: None };
    let off = DebugLoggingConfig { enabled: false, output_dir: Some(String::from("/tmp/x")) };
    assert!(is_enabled(&on));
    assert!(!is_enabled(&off));
}

#[test]
fn configured_dir_wins() {
    let cfg = DebugLoggingConfig { enabled: true, output_dir: Some(String::from("/var/captures")) };
    let dir = resolve_output_dir(&cfg, Some(PathBuf::from("/home/user/.data")));
    assert_eq!(configured_root(dir), "/var/captures");
}

#[test]
fn configured_dir_needs_no_data_dir() {
    let cfg = DebugLoggingConfig { enabled: true, output_dir: Some(String::from("/var/captures")) };
    let dir = resolve_output_dir(&cfg, None);
    assert_eq!(configured_root(dir), "/var/captures");
}

#[test]
fn data_dir_is_the_fallback() {
    let cfg = DebugLoggingConfig { enabled: true, output_dir: None };
    let dir = resolve_output_dir(&cfg, Some(PathBuf::from("/home/user/.data")));
    let (data_dir, child) = fallback_parts(dir);
    assert_eq!(data_dir, PathBuf::from("/home/user/.data"));
    assert_eq!(child, "debug_logs");
    assert_eq!(FALLBACK_SUBDIR, "debug_logs");
}

#[test]
fn no_dir_without_either() {
    let cfg = DebugLoggingConfig { enabled: true, output_dir: None };
    assert!(resolve_output_dir(&cfg, None).is_none());
}

#[test]
fn resolution_does_not_look_at_the_switch() {
    let cfg = DebugLoggingConfig { enabled: false, output_dir: None };
    let dir = resolve_output_dir(&cfg, Some(PathBuf::from("data")));
    let (data_dir, child) = fallback_parts(dir);
    assert_eq!(data_dir, PathBuf::from("data"));
    assert_eq!(child, "debug_logs");
}

#[test]
fn fallback_dir_is_the_subdirectory() {
    let (data_dir, child) = fallback_parts(Some(fallback_dir(PathBuf::from("/srv/app"))));
    assert_eq!(data_dir, PathBuf::from("/srv/app"));
    assert_eq!(child, "debug_logs");
}

#[test]
fn data_dir_is_carried_as_it_came() {
    let odd = PathBuf::from("relative/../with space/\u{e9}t\u{e9}/");
    let (data_dir, _) = fallback_parts(Some(fallback_dir(odd.clone())));
    assert_eq!(data_dir.as_os_str(), odd.as_os_str());
}
