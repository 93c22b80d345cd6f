use ramp::builder::{build_output, BuildError};
use ramp::device::{
    apk_names, check_provision_profile, get_bundle_id, get_device_identifier, get_udid_by_target,
    is_android_device_connected, mobileprovision_files, plist_bundle_id, profile_installed,
    recommended_profile_name, select_udid, ApkError, DeviceError, ProvisionCheck,
};
use ramp::session::{PathKey, Session, SessionError};
use ramp::template::{replace_strings, template_naming, TemplateStep};

fn demo_session(os: &str) -> Session {
    let mut s = Session::new(os, "/home/ada".to_string());
    s.current_project = Some("demo".to_string());
    s.set_path("cargo_path", "/c/cargo".to_string()).unwrap();
    s.set_path("homebrew_path", "/brew/bin".to_string()).unwrap();
    s
}

fn replace_step(step: &TemplateStep) -> (String, Vec<(String, String)>) {
    match step {
        TemplateStep::ReplaceStrings { file, replacements } => (file.clone(), replacements.clone()),
        TemplateStep::RenameDirectory { .. } => panic!("expected a replacement"),
    }
}

fn rename_step(step: &TemplateStep) -> (String, String) {
    match step {
        TemplateStep::RenameDirectory { current, target_name } => (current.clone(), target_name.clone()),
        TemplateStep::ReplaceStrings { .. } => panic!("expected a rename"),
    }
}

fn pair(a: &str, b: &str) -> (String, String) {
    (a.to_string(), b.to_string())
}

#[test]
fn template_naming_without_bundle() {
    let s = Session::new("linux", "/home/ada".to_string());
    let steps = template_naming(&s, "demo", None);
    assert_eq!(steps.len(), 6);
    let reps = vec![pair("Ramp", "Demo"), pair("ramp", "demo"), pair("com.example.name", "com.ramp.demo")];
    assert_eq!(replace_step(&steps[0]), ("/home/ada/ramp/demo/Cargo.toml".to_string(), reps.clone()));
    assert_eq!(rename_step(&steps[1]), ("/home/ada/ramp/demo/ios/Ramp.app".to_string(), "Demo.app".to_string()));
    assert_eq!(replace_step(&steps[2]), ("/home/ada/ramp/demo/ios/Demo.app/Info.plist".to_string(), reps.clone()));
    assert_eq!(rename_step(&steps[3]), ("/home/ada/ramp/demo/macos/Ramp.app".to_string(), "Demo.app".to_string()));
    assert_eq!(
        replace_step(&steps[4]),
        ("/home/ada/ramp/demo/macos/Demo.app/Contents/Info.plist".to_string(), reps)
    );
    assert_eq!(
        replace_step(&steps[5]),
        ("/home/ada/ramp/demo/ios/Demo.app/Info.plist".to_string(), vec![pair("ramp_template", "demo")])
    );
}

#[test]
fn template_naming_with_bundle() {
    let s = Session::new("macos", "/Users/ada".to_string());
    let steps = template_naming(&s, "demo", Some("org.ada.demo".to_string()));
    assert_eq!(steps.len(), 7);
    assert_eq!(
        replace_step(&steps[5]),
        ("/Users/ada/ramp/demo/ios/Demo.app/Info.plist".to_string(), vec![pair("com.ramp.demo", "org.ada.demo")])
    );
}

#[test]
fn replace_strings_in_order() {
    let reps = vec![pair("Ramp", "Demo"), pair("ramp", "demo")];
    assert_eq!(replace_strings("Ramp ramp RampRamp", &reps), "Demo demo DemoDemo");
    let chained = vec![pair("a", "b"), pair("b", "c")];
    assert_eq!(replace_strings("ab", &chained), "cc");
    assert_eq!(replace_strings("x", &vec![pair("", "-")]), "-x-");
}

#[test]
fn build_windows_debug() {
    let s = demo_session("linux");
    let plan = build_output(&s, "windows", false, "/usr/bin").unwrap();
    assert_eq!(plan.project_path, "/home/ada/ramp/demo");
    assert_eq!(plan.output_path, "/home/ada/ramp/demo/target/x86_64-pc-windows-gnu/debug/demo.exe");
    assert_eq!(plan.script, "/c/cargo build --target x86_64-pc-windows-gnu");
    assert!(plan.envs.is_empty());
    assert_eq!(plan.post_build, None);
}

#[test]
fn build_windows_release() {
    let s = demo_session("linux");
    let plan = build_output(&s, "windows", true, "/usr/bin").unwrap();
    assert_eq!(plan.output_path, "TODO output paths for release builds");
    assert_eq!(plan.script, "/c/cargo build --target x86_64-pc-windows-gnu --release ");
}

#[test]
fn build_android_sets_environment() {
    let mut s = demo_session("linux");
    s.set_path("java_path", "/jdk".to_string()).unwrap();
    s.set_path("sdk_path", "/sdk".to_string()).unwrap();
    s.set_path("ndk_path", "/ndk".to_string()).unwrap();
    let plan = build_output(&s, "android", false, "/usr/bin").unwrap();
    assert_eq!(plan.output_path, "/home/ada/ramp/demo/target/debug/apk/Demo.apk");
    assert_eq!(plan.script, "/c/cargo apk build --lib ");
    assert_eq!(plan.envs, vec![pair("JAVA_HOME", "/jdk"), pair("ANDROID_HOME", "/sdk"), pair("NDK_HOME", "/ndk")]);
}

#[test]
fn build_android_needs_java() {
    let s = demo_session("linux");
    match build_output(&s, "android", false, "/usr/bin") {
        Err(BuildError::Session(SessionError::PathNotSet(PathKey::Java))) => {}
        other => panic!("unexpected {:?}", other),
    }
}

#[test]
fn build_linux_on_macos_uses_zigbuild() {
    let mut s = demo_session("macos");
    s.set_path("zigbuild_path", "/zig".to_string()).unwrap();
    let plan = build_output(&s, "linux", false, "/usr/bin").unwrap();
    assert_eq!(plan.script, "/zig build --target aarch64-unknown-linux-gnu");
    assert_eq!(plan.envs, vec![pair("PATH", "/brew/bin:/usr/bin")]);
    assert_eq!(plan.output_path, "/home/ada/ramp/demo/target/aarch64-unknown-linux-gnu/debug/demo");
}

#[test]
fn build_ios_on_macos_copies_binary() {
    let s = demo_session("macos");
    let plan = build_output(&s, "ios", false, "/usr/bin").unwrap();
    assert_eq!(plan.script, "/c/cargo build --target aarch64-apple-ios");
    assert_eq!(
        plan.post_build,
        Some(pair("/home/ada/ramp/demo/target/aarch64-apple-ios/debug/demo", "/home/ada/ramp/demo/ios/Demo.app/"))
    );
}

#[test]
fn build_ios_on_linux_is_unsupported() {
    let s = demo_session("linux");
    match build_output(&s, "ios", false, "/usr/bin") {
        Err(BuildError::UnsupportedTarget(t)) => assert_eq!(t, "ios"),
        other => panic!("unexpected {:?}", other),
    }
}

#[test]
fn build_unknown_target_is_unsupported() {
    let s = demo_session("linux");
    assert!(matches!(build_output(&s, "plan9", false, "/usr/bin"), Err(BuildError::UnsupportedTarget(_))));
}

#[test]
fn build_needs_cargo() {
    let mut s = Session::new("linux", "/home/ada".to_string());
    s.current_project = Some("demo".to_string());
    assert!(matches!(
        build_output(&s, "wasm", false, "/usr/bin"),
        Err(BuildError::Session(SessionError::PathNotSet(PathKey::Cargo)))
    ));
}

const PLIST: &str = "<dict>\n  <key>CFBundleIdentifier</key>\n  <string> com.ramp.demo </string>\n</dict>";

#[test]
fn plist_bundle_id_reads_value() {
    assert_eq!(plist_bundle_id(PLIST).unwrap(), "com.ramp.demo");
}

#[test]
fn plist_bundle_id_errors() {
    assert!(matches!(plist_bundle_id("<dict></dict>"), Err(DeviceError::BundleKeyMissing)));
    assert!(matches!(plist_bundle_id("<key>CFBundleIdentifier</key>"), Err(DeviceError::BundleValueMissing)));
    assert!(matches!(
        plist_bundle_id("<key>CFBundleIdentifier</key><string>x"),
        Err(DeviceError::BundleValueMissing)
    ));
}

#[test]
fn get_bundle_id_with_pattern() {
    let plist = "<key>CFBundleIdentifier</key>\n\t<string>com.ramp.demo</string>";
    assert_eq!(get_bundle_id(plist).unwrap(), "com.ramp.demo");
    assert!(matches!(get_bundle_id("<dict/>"), Err(DeviceError::BundleKeyMissing)));
}

const XCTRACE: &str = "== Devices ==\nada's MacBook Pro (ABCDEF01-2345-6789-ABCD-EF0123456789)\niPhone (17.2) (00008110-001a2b3c4d5e6f70)\n== Simulators ==\n";

#[test]
fn udid_of_iphone() {
    assert_eq!(get_udid_by_target("iPhone", XCTRACE).unwrap(), "00008110-001a2b3c4d5e6f70");
}

#[test]
fn udid_of_macbook() {
    assert_eq!(get_udid_by_target("macos", XCTRACE).unwrap(), "ABCDEF01-2345-6789-ABCD-EF0123456789");
}

#[test]
fn udid_errors() {
    assert!(matches!(get_udid_by_target("watch", XCTRACE), Err(DeviceError::InvalidTarget)));
    assert!(matches!(get_udid_by_target("ipad", XCTRACE), Err(DeviceError::NoDevice)));
    let two = "iPhone (17.2) (00008110-001a2b3c4d5e6f70)\niPhone (16.0) (00008110-00aaaaaaaaaaaaaa)\n";
    match get_udid_by_target("iphone", two) {
        Err(DeviceError::MultipleDevices(all)) => {
            assert_eq!(all, vec!["00008110-001a2b3c4d5e6f70".to_string(), "00008110-00aaaaaaaaaaaaaa".to_string()])
        }
        other => panic!("unexpected {:?}", other),
    }
}

#[test]
fn select_udid_checks_length() {
    let found = vec![Some(Some("short".to_string())), None, Some(None)];
    assert!(matches!(select_udid("iphone", &found), Err(DeviceError::NoDevice)));
}

#[test]
fn device_identifier_cases() {
    let one = "Name   Identifier   State\nada's iPhone   1A2B3C4D-1A2B-1A2B-1A2B-1A2B3C4D5E6F   available\n";
    assert_eq!(get_device_identifier(one).unwrap(), "1A2B3C4D-1A2B-1A2B-1A2B-1A2B3C4D5E6F");
    assert!(matches!(get_device_identifier("No devices found."), Err(DeviceError::NoDeviceId)));
    let two = "1A2B3C4D-1A2B-1A2B-1A2B-1A2B3C4D5E6F\n2A2B3C4D-1A2B-1A2B-1A2B-1A2B3C4D5E6F\n";
    assert!(matches!(get_device_identifier(two), Err(DeviceError::MultipleDeviceIds)));
}

#[test]
fn android_device_detection() {
    assert!(is_android_device_connected("List of devices attached\nemulator-5554\tdevice\n\n"));
    assert!(!is_android_device_connected("List of devices attached\n\n"));
    assert!(!is_android_device_connected("List of devices attached\nA\tdevice\nB\tdevice\n"));
    assert!(!is_android_device_connected("List of devices attached\nA\tunauthorized\n"));
    assert!(!is_android_device_connected(""));
}

#[test]
fn apk_names_read_manifest() {
    let toml = "[package]\nname = \"demo\"\n[package.metadata.android]\napk_name = \"demo\"\npackage = 'com.ramp.demo'\n";
    let (apk, package) = apk_names(toml).unwrap();
    assert_eq!(apk, "demo");
    assert_eq!(package, "com.ramp.demo");
}

#[test]
fn apk_names_errors() {
    assert!(matches!(apk_names("package = \"x\"\n"), Err(ApkError::ApkNameMissing)));
    assert!(matches!(apk_names("apk_name = \"demo\"\n"), Err(ApkError::PackageMissing)));
}

const PROFILE: &str = "<plist><dict>\n<key>Name</key>\n<string> Ramp Release </string>\n<key>ProvisionedDevices</key>\n<array>\n<string>00008110-001a2b3c4d5e6f70</string>\n</array>\n</dict></plist>";

#[test]
fn provision_profile_lists_device() {
    match check_provision_profile(PROFILE, "00008110-001a2b3c4d5e6f70") {
        ProvisionCheck::CheckInstalled(name) => assert_eq!(name, "Ramp Release"),
        other => panic!("unexpected {:?}", other),
    }
}

#[test]
fn provision_profile_other_device() {
    assert!(matches!(check_provision_profile(PROFILE, "00008110-00ffffffffffffff"), ProvisionCheck::NotProvisioned));
    assert!(matches!(check_provision_profile("<plist/>", "x"), ProvisionCheck::NotProvisioned));
}

#[test]
fn provision_profile_without_name() {
    let xml = "<key>ProvisionedDevices</key><array><string>u1</string></array>";
    assert!(matches!(check_provision_profile(xml, "u1"), ProvisionCheck::NameMissing));
}

#[test]
fn installed_profiles_listing() {
    assert!(profile_installed("ProfileName: Ramp Release\n", "Ramp Release"));
    assert!(!profile_installed("ProfileName: Other\n", "Ramp Release"));
}

#[test]
fn provision_file_filter() {
    let names = vec!["a.mobileprovision".to_string(), "b.txt".to_string(), "c.mobileprovision".to_string()];
    assert_eq!(mobileprovision_files(&names), vec!["a.mobileprovision".to_string(), "c.mobileprovision".to_string()]);
}

#[test]
fn recommended_profile_names() {
    assert_eq!(recommended_profile_name(true), "Ramp Debug");
    assert_eq!(recommended_profile_name(false), "Ramp Release");
}
