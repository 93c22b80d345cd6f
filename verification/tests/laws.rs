use ramp::session::{Session, SessionError, PathKey};
use ramp::toolchain::{android_paths, cargo_tool_path, install_build_targets, rust_paths};

#[test]
fn every_recorded_path_is_accepted() {
    let mut session = Session::new("macos", "/Users/ada".to_string());
    let mut all = android_paths(&session);
    all.extend(rust_paths(&session));
    all.push(cargo_tool_path(&session, "cargo_apk_path", "cargo-apk"));
    all.push(cargo_tool_path(&session, "zigbuild_path", "cargo-zigbuild"));
    all.push(("homebrew_path".to_string(), "/opt/homebrew/bin/brew".to_string()));
    all.push(("keystore_path".to_string(), "/Users/ada/Library/Keychains".to_string()));
    for (name, value) in all {
        assert_eq!(session.set_path(&name, value), Ok(()));
    }
}

#[test]
fn set_then_get_for_every_path_but_keystore() {
    let mut session = Session::new("linux", "/home/ada".to_string());
    for (name, value) in android_paths(&session) {
        session.set_path(&name, value.clone()).unwrap();
        assert_eq!(session.get_path(&name), Ok(value));
    }
    let mut fresh = Session::new("linux", "/home/ada".to_string());
    fresh.set_path("keystore_path", "/ks".to_string()).unwrap();
    assert_eq!(fresh.get_path("keystore_path"), Err(SessionError::PathNotSet(PathKey::Keystore)));
}

#[test]
fn setting_one_path_keeps_the_others() {
    let mut session = Session::new("linux", "/home/ada".to_string());
    session.set_path("sdk_path", "/sdk".to_string()).unwrap();
    session.set_path("ndk_path", "/ndk".to_string()).unwrap();
    assert_eq!(session.get_path("sdk_path"), Ok("/sdk".to_string()));
}

#[test]
fn missing_targets_are_exactly_unlisted_wanted_ones() {
    let installed = "aarch64-apple-ios\nx86_64-unknown-linux-gnu\n";
    let missing = install_build_targets("macos", installed);
    assert!(!missing.contains(&"aarch64-apple-ios".to_string()));
    assert!(!missing.contains(&"x86_64-unknown-linux-gnu".to_string()));
    assert!(missing.contains(&"aarch64-apple-darwin".to_string()));
    assert!(missing.contains(&"wasm32-unknown-unknown".to_string()));
    assert!(install_build_targets("linux", "x86_64-unknown-linux-gnu aarch64-unknown-linux-gnu aarch64-linux-android i686-linux-android x86_64-linux-android x86_64-pc-windows-gnu wasm32-unknown-unknown").is_empty());
}

#[test]
fn template_rename_gives_the_signed_bundle() {
    let mut session = Session::new("macos", "/Users/ada".to_string());
    session.current_project = Some("demo".to_string());
    let steps = ramp::template::template_naming(&session, "demo", None);
    match &steps[1] {
        ramp::template::TemplateStep::RenameDirectory { current, target_name } => {
            assert_eq!(current, "/Users/ada/ramp/demo/ios/Ramp.app");
            let renamed = std::path::Path::new(current).parent().unwrap().join(target_name);
            assert_eq!(renamed.to_str().unwrap(), ramp::signing::app_bundle(&session, "ios"));
        }
        _ => panic!("expected a rename"),
    }
}

#[test]
fn ios_build_copies_into_the_signed_bundle() {
    let mut session = Session::new("macos", "/Users/ada".to_string());
    session.current_project = Some("demo".to_string());
    session.set_path("cargo_path", "/c".to_string()).unwrap();
    session.set_path("homebrew_path", "/b".to_string()).unwrap();
    let plan = ramp::builder::build_output(&session, "ios", false, "/usr/bin").unwrap();
    let (_, destination) = plan.post_build.unwrap();
    assert_eq!(destination, format!("{}/", ramp::signing::app_bundle(&session, "ios")));
}

#[test]
fn setting_a_path_twice_changes_nothing_more() {
    let mut session = Session::new("linux", "/home/ada".to_string());
    let first = ramp::config::rewrite_config(Some("ndk_path=/n\n".to_string()), "sdk_path", "/sdk");
    session.set_path("sdk_path", "/sdk".to_string()).unwrap();
    let second = ramp::config::rewrite_config(Some(first.clone()), "sdk_path", "/sdk");
    assert_eq!(session.set_path("sdk_path", "/sdk".to_string()), Ok(()));
    assert_eq!(second, first);
    assert_eq!(session.get_path("sdk_path"), Ok("/sdk".to_string()));
    assert_eq!(session.get_path("ndk_path"), Err(SessionError::PathNotSet(PathKey::Ndk)));
}

#[test]
fn set_path_then_load_reads_the_value() {
    let text = ramp::config::rewrite_config(Some("sdk_path=/old\ncargo_path=/c\n".to_string()), "sdk_path", "/new");
    let mut session = Session::new("linux", "/home/ada".to_string());
    session.get_all_paths(Some(text));
    assert_eq!(session.get_path("sdk_path"), Ok("/new".to_string()));
    assert_eq!(session.get_path("cargo_path"), Ok("/c".to_string()));
}
