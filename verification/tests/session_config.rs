use ramp::config::rewrite_config;
use ramp::helper::{capitalize_first, get_user_home, HomeError};
use ramp::session::{PathKey, Paths, Session, SessionError};

fn linux_session() -> Session {
    Session::new("linux", "/home/ada".to_string())
}

#[test]
fn new_session_on_linux_has_projects_dir() {
    let s = linux_session();
    assert_eq!(s.os, "linux");
    assert_eq!(s.home, "/home/ada");
    assert_eq!(s.projects_path, Some("/home/ada/ramp".to_string()));
    assert_eq!(s.current_project, None);
    assert_eq!(s.certs.macos, "Apple Development");
    assert_eq!(s.android_ndk_version, "26.1.10909125");
    assert_eq!(s.android_platform_version, "31");
    assert_eq!(s.paths.sdk_path, None);
    assert_eq!(s.paths.keystore_path, None);
}

#[test]
fn new_session_on_macos_has_projects_dir() {
    let s = Session::new("macos", "/Users/ada".to_string());
    assert_eq!(s.projects_path, Some("/Users/ada/ramp".to_string()));
}

#[test]
fn new_session_on_other_os_has_no_projects_dir() {
    let s = Session::new("windows", "C:/Users/ada".to_string());
    assert_eq!(s.projects_path, None);
}

#[test]
fn set_then_get_gives_value() {
    let mut s = linux_session();
    assert_eq!(s.set_path("sdk_path", "/opt/sdk".to_string()), Ok(()));
    assert_eq!(s.get_path("sdk_path"), Ok("/opt/sdk".to_string()));
    assert_eq!(s.paths.sdk_path, Some("/opt/sdk".to_string()));
}

#[test]
fn set_path_leaves_other_paths() {
    let mut s = linux_session();
    s.set_path("ndk_path", "/ndk".to_string()).unwrap();
    s.set_path("cargo_path", "/cargo".to_string()).unwrap();
    assert_eq!(s.get_path("ndk_path"), Ok("/ndk".to_string()));
    assert_eq!(s.get_path("cargo_path"), Ok("/cargo".to_string()));
    assert_eq!(s.get_path("rustup_path"), Err(SessionError::PathNotSet(PathKey::Rustup)));
}

#[test]
fn set_path_rejects_unknown_name() {
    let mut s = linux_session();
    assert_eq!(s.set_path("bogus_path", "/x".to_string()), Err(SessionError::UnknownPathName));
    assert_eq!(s.paths.sdk_path, None);
}

#[test]
fn get_path_rejects_unknown_name() {
    let s = linux_session();
    assert_eq!(s.get_path("bogus_path"), Err(SessionError::UnknownKey("bogus_path".to_string())));
}

#[test]
fn get_path_reports_unset_path() {
    let s = linux_session();
    assert_eq!(s.get_path("homebrew_path"), Err(SessionError::PathNotSet(PathKey::Homebrew)));
}

#[test]
fn keystore_lookup_reads_java_slot() {
    let mut s = linux_session();
    s.set_path("keystore_path", "/keys".to_string()).unwrap();
    assert_eq!(s.paths.keystore_path, Some("/keys".to_string()));
    assert_eq!(s.get_path("keystore_path"), Err(SessionError::PathNotSet(PathKey::Keystore)));
    s.set_path("java_path", "/jdk".to_string()).unwrap();
    assert_eq!(s.get_path("keystore_path"), Ok("/jdk".to_string()));
    assert_eq!(s.path_for(PathKey::Keystore), Ok("/jdk".to_string()));
}

#[test]
fn path_key_names_round_trip() {
    for k in [PathKey::Sdk, PathKey::Ndk, PathKey::Cargo, PathKey::CargoApk, PathKey::Zigbuild,
              PathKey::Rustup, PathKey::Homebrew, PathKey::CmdlineTools, PathKey::BuildTools,
              PathKey::Sdkmanager, PathKey::PlatformTools, PathKey::Platforms, PathKey::NdkBundle,
              PathKey::Java, PathKey::Keystore] {
        assert_eq!(PathKey::from_name(k.name()), Some(k));
    }
    assert_eq!(PathKey::from_name("sdk"), None);
    assert_eq!(PathKey::Platforms.name(), "platforms_path");
}

#[test]
fn paths_set_and_get() {
    let mut p = Paths::empty();
    p.set(PathKey::Java, "/j".to_string());
    assert_eq!(p.get(PathKey::Java), Some("/j".to_string()));
    assert_eq!(p.get(PathKey::Keystore), None);
}

#[test]
fn get_all_paths_reads_config_lines() {
    let mut s = linux_session();
    s.get_all_paths(Some("sdk_path = /a\nfoo=bar\nno equals here\nndk_path=/b \nsdk_path=/c\n".to_string()));
    assert_eq!(s.paths.sdk_path, Some("/c".to_string()));
    assert_eq!(s.paths.ndk_path, Some("/b".to_string()));
    assert_eq!(s.paths.cargo_path, None);
}

#[test]
fn get_all_paths_without_file_keeps_paths() {
    let mut s = linux_session();
    s.set_path("java_path", "/j".to_string()).unwrap();
    s.get_all_paths(None);
    assert_eq!(s.paths.java_path, Some("/j".to_string()));
}

#[test]
fn get_all_paths_splits_at_first_equals() {
    let mut s = linux_session();
    s.get_all_paths(Some("java_path=/opt/a=b\r\n".to_string()));
    assert_eq!(s.paths.java_path, Some("/opt/a=b".to_string()));
}

#[test]
fn update_current_project_outcomes() {
    let mut s = linux_session();
    assert_eq!(s.update_current_project("demo".to_string(), false, true), Err(SessionError::ProjectNotFound));
    assert_eq!(s.current_project, None);
    assert_eq!(s.update_current_project("demo".to_string(), true, false), Err(SessionError::NotRampProject));
    assert_eq!(s.current_project, None);
    assert_eq!(s.update_current_project("demo".to_string(), true, true), Ok(()));
    assert_eq!(s.current_project, Some("demo".to_string()));
}

#[test]
fn project_dir_and_marker() {
    let s = linux_session();
    assert_eq!(s.project_dir("demo"), "/home/ada/ramp/demo");
    assert_eq!(s.project_marker("demo"), "/home/ada/ramp/demo/.ramp");
    let w = Session::new("windows", "C:".to_string());
    assert_eq!(w.project_dir("demo"), "/demo");
}

#[test]
fn rewrite_config_replaces_existing_entry() {
    let text = rewrite_config(Some("sdk_path=/a\nndk_path=/b\n".to_string()), "sdk_path", "/z");
    assert_eq!(text, "sdk_path=/z\nndk_path=/b\n");
}

#[test]
fn rewrite_config_appends_missing_entry() {
    assert_eq!(rewrite_config(None, "cargo_path", "/c"), "cargo_path=/c\n");
    assert_eq!(rewrite_config(Some("x=1".to_string()), "cargo_path", "/c"), "x=1\ncargo_path=/c\n");
}

#[test]
fn rewrite_config_replaces_every_matching_line() {
    let text = rewrite_config(Some("sdk_path=/a\nsdk_path=/b\n".to_string()), "sdk_path", "/z");
    assert_eq!(text, "sdk_path=/z\nsdk_path=/z\n");
}

#[test]
fn config_read_back_after_rewrite() {
    let text = rewrite_config(Some("ndk_path=/b\nsdk_path=/a\n".to_string()), "sdk_path", "  /new  ");
    let mut s = linux_session();
    s.get_all_paths(Some(text));
    assert_eq!(s.get_path("sdk_path"), Ok("/new".to_string()));
    assert_eq!(s.get_path("ndk_path"), Ok("/b".to_string()));
}

#[test]
fn capitalize_first_cases() {
    assert_eq!(capitalize_first("demo"), "Demo");
    assert_eq!(capitalize_first("Demo"), "Demo");
    assert_eq!(capitalize_first(""), "");
    assert_eq!(capitalize_first("1abc"), "1abc");
    assert_eq!(capitalize_first("édition"), "Édition");
    assert_eq!(capitalize_first("élan"), "Élan");
    assert_eq!(capitalize_first("ßa"), "SSa");
}

#[test]
fn user_home_prefers_sudo_user() {
    assert_eq!(get_user_home(Some("ada".to_string()), Some("/root".to_string())), Ok("/Users/ada".to_string()));
    assert_eq!(get_user_home(None, Some("/home/ada".to_string())), Ok("/home/ada".to_string()));
    assert_eq!(get_user_home(None, None), Err(HomeError::HomeNotSet));
}
