use image::ImageEncoder;
use ramp::icons::{convert_png_to_ico, ico_of_pixels, png_of_pixels, resize_png, update_icons, IconError};
use ramp::manifest::{get_adb_launch_payload, PayloadError};
use ramp::project::{
    android_deploy, create_app_bundle_id, deploy_target, get_ios_sdk, ios_install_args, ios_launch_args,
    new_project, retry_git_install, tool_in, DeployTarget, ProjectError,
};
use ramp::session::{PathKey, Session, SessionError};
use ramp::device::ApkError;
use ramp::signing::{
    app_bundle, csr_subject, default_keystore, ideviceprovision, import_accepted, keychain_ready,
    keychain_state, profile_files, profile_move, provision_check_decoded, provision_check_listed,
    provision_check_start, setup_keychain, sign_build, sign_outcome, KeychainState, ProfileFiles,
    ProvisionAction, ProvisionError, SignError,
};
use ramp::toolchain::{
    android_paths, brew_dir, cargo_tool_path, command_line_tools_package, config_path, existing_brew_path,
    install_build_targets, install_rustup, installed_brew_path, java_is_openjdk, jdk_setup, needs_jdk,
    retry_install, rust_paths, sdk_configured, sdk_packages, sdk_root_arg, tools_download,
    windows_linker_config, CltError, JdkInstall, RustupInstall, ToolchainError,
};
use ramp::ui::{ErrorComponent, RampGUI};

fn s(x: &str) -> String {
    x.to_string()
}

fn demo(os: &str) -> Session {
    let mut session = Session::new(os, s("/Users/ada"));
    session.current_project = Some(s("demo"));
    session
}

const DUMP: &str = "N: android=http://schemas.android.com/apk/res/android\n  E: manifest (line=2)\n    A: package=\"com.ramp.demo\" (Raw: \"com.ramp.demo\")\n    E: application (line=5)\n      E: activity (line=6)\n        A: android:name(0x01010003)=\".MainActivity\" (Raw: \".MainActivity\")\n        E: intent-filter (line=7)\n          E: action (line=8)\n            A: android:name(0x01010003)=\"android.intent.action.MAIN\"\n          E: category (line=9)\n            A: android:name(0x01010003)=\"android.intent.category.LAUNCHER\"\n";

#[test]
fn launch_payload_from_dump() {
    assert_eq!(get_adb_launch_payload(DUMP), Ok(s("-n \"com.ramp.demo/com.ramp.demo.MainActivity\"")));
}

#[test]
fn launch_payload_absolute_activity_name() {
    let dump = DUMP.replace("\".MainActivity\" (Raw", "\"org.x.Main\" (Raw");
    assert_eq!(get_adb_launch_payload(&dump), Ok(s("-n \"com.ramp.demo/org.x.Main\"")));
}

#[test]
fn launch_payload_without_package() {
    assert_eq!(get_adb_launch_payload("E: manifest\n"), Err(PayloadError::PackageNotFound));
    assert_eq!(get_adb_launch_payload(""), Err(PayloadError::PackageNotFound));
}

#[test]
fn launch_payload_without_launcher() {
    let dump = DUMP.replace("android.intent.category.LAUNCHER", "android.intent.category.DEFAULT");
    assert_eq!(get_adb_launch_payload(&dump), Err(PayloadError::MainActivityNotFound));
}

fn png_bytes(w: u32, h: u32) -> Vec<u8> {
    let pixels = vec![200u8; (w * h * 4) as usize];
    let mut out = Vec::new();
    image::codecs::png::PngEncoder::new(&mut out)
        .write_image(&pixels, w, h, image::ExtendedColorType::Rgba8)
        .unwrap();
    out
}

#[test]
fn resize_png_gives_png_of_new_size() {
    let out = resize_png(&png_bytes(8, 8), 4, 2).unwrap();
    let img = image::load_from_memory(&out).unwrap();
    assert_eq!((img.width(), img.height()), (4, 2));
    assert_eq!(&out[1..4], b"PNG");
}

#[test]
fn resize_png_rejects_garbage() {
    assert_eq!(resize_png(b"not an image", 4, 4), Err(IconError::Open));
}

#[test]
fn resize_png_to_nothing_cannot_be_saved() {
    assert_eq!(resize_png(&png_bytes(8, 8), 0, 0), Err(IconError::Save));
}

#[test]
fn ico_is_sixty_four_square() {
    let out = convert_png_to_ico(&png_bytes(16, 16)).unwrap();
    assert_eq!(&out[0..4], &[0u8, 0, 1, 0]);
    let img = image::load_from_memory_with_format(&out, image::ImageFormat::Ico).unwrap();
    assert_eq!((img.width(), img.height()), (64, 64));
    assert_eq!(convert_png_to_ico(b""), Err(IconError::Open));
}

#[test]
fn icon_plan_on_macos() {
    let mut session = demo("macos");
    session.projects_path = Some(s("/p"));
    let plan = update_icons(&session);
    assert_eq!(plan.source, "/p/demo/assets/resources/icons/icon.png");
    assert_eq!(plan.android.len(), 5);
    assert_eq!(plan.android[0], (s("/p/demo/android/app/src/main/res/mipmap-mdpi/ic_launcher.png"), 48));
    assert_eq!(plan.android[4], (s("/p/demo/android/app/src/main/res/mipmap-xxxhdpi/ic_launcher.png"), 192));
    assert_eq!(plan.windows_icon, "/p/demo/assets/resources/icons/windows_icon.ico");
    assert_eq!(plan.favicon, "/p/demo/assets/resources/icons/favicon.ico");
    assert_eq!(plan.rc_path, "/p/demo/app.rc");
    assert_eq!(plan.rc_content, "IDI_ICON1 ICON \"/p/demo/assets/resources/icons/windows_icon.ico\"");
    assert_eq!(plan.build_script, "/p/demo/build.rs");
    assert_eq!(plan.ios, vec![
        (s("/p/demo/ios/Demo.app/Assets/ios_icon120.png"), 120),
        (s("/p/demo/ios/Demo.app/Assets/ios_icon180.png"), 180),
    ]);
    assert_eq!(plan.icns, Some(s("/p/demo/assets/resources/icons/macos_icon.icns")));
}

#[test]
fn icon_plan_on_linux() {
    let plan = update_icons(&demo("linux"));
    assert!(plan.ios.is_empty());
    assert_eq!(plan.icns, None);
    assert_eq!(plan.android[2].1, 96);
}

#[test]
fn keychain_states() {
    assert_eq!(keychain_state("security: SecKeychainCopySettings: The specified keychain could not be found."), KeychainState::Missing);
    assert_eq!(keychain_state("Keychain \"login\" lock-on-sleep timeout=300s locked"), KeychainState::Locked);
    assert_eq!(keychain_state("Keychain \"login\" no-timeout"), KeychainState::Unlocked);
    assert!(keychain_ready(true, "no-timeout"));
    assert!(!keychain_ready(false, "no-timeout"));
    assert!(!keychain_ready(true, "locked"));
}

#[test]
fn sign_build_for_ios() {
    let mut session = demo("macos");
    session.set_path("java_path", s("/kc")).unwrap();
    let plan = sign_build(&session, "ios").unwrap().unwrap();
    assert_eq!(plan.keychain, "/kc/login.keychain-db");
    assert_eq!(plan.app_bundle, "/Users/ada/ramp/demo/ios/Demo.app");
    assert_eq!(plan.codesign_args, vec![
        s("--force"), s("--sign"), s("Apple Development"), s("--entitlements"),
        s("/Users/ada/ramp/demo/ios/Demo.app/entitlements.plist"), s("/Users/ada/ramp/demo/ios/Demo.app"),
    ]);
}

#[test]
fn sign_build_other_targets_and_errors() {
    let session = demo("macos");
    assert!(matches!(sign_build(&session, "android"), Ok(None)));
    assert!(matches!(
        sign_build(&session, "ios"),
        Err(SignError::Session(SessionError::PathNotSet(PathKey::Keystore)))
    ));
}

#[test]
fn sign_outcomes() {
    assert!(sign_outcome(true, "").is_ok());
    assert!(sign_outcome(false, "code object is not signed at all").is_ok());
    match sign_outcome(false, "error: failed to parse entitlements") {
        Err(SignError::SignFailed(m)) => assert_eq!(m, "error: failed to parse entitlements"),
        other => panic!("unexpected {:?}", other),
    }
}

#[test]
fn keychain_setup_plan() {
    let mut session = demo("macos");
    assert!(matches!(setup_keychain(&session), Err(SessionError::PathNotSet(PathKey::Keystore))));
    session.set_path("java_path", s("/ks")).unwrap();
    let plan = setup_keychain(&session).unwrap().unwrap();
    assert_eq!(plan.keystore, "/ks");
    assert_eq!(plan.keychain, "/ks/login.keychain-db");
    assert_eq!(plan.key_path, "/ks/ramp.pem");
    assert_eq!(plan.csr_path, "/ks/ramp.csr");
    assert_eq!(plan.cert_download, "/Users/ada/Downloads/development.cer");
    assert_eq!(plan.cert_path, "/ks/development.cer");
    assert_eq!(plan.authorities[1], (s("/ks/AppleRootCA.cer"), s("https://www.apple.com/certificateauthority/AppleRootCA-G3.cer")));
    assert!(matches!(setup_keychain(&demo("linux")), Ok(None)));
}

#[test]
fn default_keystore_only_when_unset() {
    let mut session = demo("macos");
    assert_eq!(default_keystore(&session), Some(s("/Users/ada/Library/Keychains")));
    session.set_path("keystore_path", s("/k")).unwrap();
    assert_eq!(default_keystore(&session), None);
}

#[test]
fn csr_subjects() {
    assert_eq!(csr_subject("Ada L", "", "ada@x.org"), "/CN=Ada L /emailAddress=ada@x.org");
    assert_eq!(csr_subject("Ada L", "Acme", "ada@x.org"), "/CN=Ada L /O=Acme /emailAddress=ada@x.org");
}

#[test]
fn import_acceptance() {
    assert!(import_accepted(true, ""));
    assert!(import_accepted(false, "The specified item already exists in the keychain."));
    assert!(!import_accepted(false, "bad"));
}

#[test]
fn profile_file_counts() {
    assert!(matches!(profile_files(&vec![s("a.txt")]), ProfileFiles::NoProfile));
    match profile_files(&vec![s("a.txt"), s("dev.mobileprovision")]) {
        ProfileFiles::One(f) => assert_eq!(f, "dev.mobileprovision"),
        other => panic!("unexpected {:?}", other),
    }
    assert!(matches!(profile_files(&vec![s("a.mobileprovision"), s("b.mobileprovision")]), ProfileFiles::Several));
}

#[test]
fn profile_move_paths() {
    let session = demo("macos");
    let m = profile_move(&session, "ios", "dev.mobileprovision");
    assert_eq!(m.origin, "/Users/ada/Downloads/dev.mobileprovision");
    assert_eq!(m.destination, "/Users/ada/ramp/demo/ios/Demo.app");
    assert_eq!(m.profile, "/Users/ada/ramp/demo/ios/Demo.app/dev.mobileprovision");
    assert_eq!(m.entitlements, "/Users/ada/ramp/demo/ios/Demo.app/entitlements.plist");
    assert_eq!(app_bundle(&session, "macos"), "/Users/ada/ramp/demo/macos/Demo.app");
}

#[test]
fn ideviceprovision_path() {
    let mut session = demo("macos");
    assert_eq!(ideviceprovision(&session), Err(SessionError::PathNotSet(PathKey::Homebrew)));
    session.set_path("homebrew_path", s("/opt/homebrew/bin")).unwrap();
    assert_eq!(ideviceprovision(&session), Ok(s("/opt/homebrew/bin/ideviceprovision")));
}

#[test]
fn new_project_on_each_host() {
    let linux = new_project(&Session::new("linux", s("/home/ada")), "MyApp").unwrap();
    assert_eq!(linux.path, "/home/ada/ramp/myapp");
    assert_eq!(linux.name, "myapp");
    assert!(linux.install_git);
    assert_eq!(linux.select_after_clone, None);
    assert_eq!(linux.template_url, "https://github.com/dav-anderson/ramp_template");
    let mac = new_project(&Session::new("macos", s("/Users/ada")), "MyApp").unwrap();
    assert!(!mac.install_git);
    assert_eq!(mac.select_after_clone, Some(s("MyApp")));
    assert_eq!(new_project(&Session::new("windows", s("C:")), "x").unwrap_err(), ProjectError::UnsupportedOs);
}

#[test]
fn git_retries() {
    assert!(retry_git_install(1, false));
    assert!(!retry_git_install(3, false));
    assert!(!retry_git_install(1, true));
}

#[test]
fn bundle_id_choice() {
    let session = demo("macos");
    assert_eq!(create_app_bundle_id(&session, "\n"), None);
    assert_eq!(create_app_bundle_id(&session, " com.ramp.demo \n"), None);
    assert_eq!(create_app_bundle_id(&session, " org.ada.demo\n"), Some(s("org.ada.demo")));
    assert_eq!(create_app_bundle_id(&demo("linux"), "org.ada.demo"), None);
}

#[test]
fn deploy_targets_and_args() {
    assert_eq!(deploy_target("ios"), DeployTarget::Ios);
    assert_eq!(deploy_target("android"), DeployTarget::Android);
    assert_eq!(deploy_target("wasm"), DeployTarget::Other);
    assert_eq!(ios_install_args("D1", "/b.app"), vec![s("devicectl"), s("device"), s("install"), s("app"), s("--device"), s("D1"), s("/b.app")]);
    assert_eq!(ios_launch_args("D1", "com.x"), vec![s("devicectl"), s("device"), s("process"), s("launch"), s("--device"), s("D1"), s("com.x")]);
}

#[test]
fn tools_in_configured_dirs() {
    let mut session = demo("linux");
    assert_eq!(tool_in(&session, PathKey::PlatformTools, "adb"), Err(SessionError::PathNotSet(PathKey::PlatformTools)));
    session.set_path("platform_tools_path", s("/sdk/platform-tools")).unwrap();
    assert_eq!(tool_in(&session, PathKey::PlatformTools, "adb"), Ok(s("/sdk/platform-tools/adb")));
}

#[test]
fn android_deploy_paths() {
    let session = demo("linux");
    let d = android_deploy(&session, "apk_name = \"demo\"\npackage = \"com.ramp.demo\"\n").unwrap();
    assert_eq!(d.apk_path, "/Users/ada/ramp/demo/target/debug/apk/demo.apk");
    assert_eq!(d.package, "com.ramp.demo");
    assert!(matches!(android_deploy(&session, ""), Err(ApkError::ApkNameMissing)));
}

#[test]
fn ios_sdk_is_trimmed() {
    assert_eq!(get_ios_sdk("/Applications/Xcode.app/SDKs/iPhoneOS.sdk\n"), "/Applications/Xcode.app/SDKs/iPhoneOS.sdk");
}

#[test]
fn rust_toolchain_paths() {
    let session = Session::new("linux", s("/home/ada"));
    assert_eq!(rust_paths(&session), vec![
        (s("cargo_path"), s("/home/ada/.cargo/bin/cargo")),
        (s("rustup_path"), s("/home/ada/.cargo/bin/rustup")),
    ]);
    assert_eq!(config_path("/home/ada"), "/home/ada/.ramp");
    assert_eq!(cargo_tool_path(&session, "cargo_apk_path", "cargo-apk"), (s("cargo_apk_path"), s("/home/ada/.cargo/bin/cargo-apk")));
}

#[test]
fn rustup_install_by_host() {
    assert_eq!(install_rustup("linux").unwrap(), RustupInstall::AptThenScript);
    assert_eq!(install_rustup("macos").unwrap(), RustupInstall::ScriptThenChown);
    match install_rustup("windows") {
        Err(ToolchainError::UnsupportedOs(n)) => assert_eq!(n, "windows"),
        other => panic!("unexpected {:?}", other),
    }
    assert!(retry_install(2, false));
    assert!(!retry_install(3, false));
}

#[test]
fn build_targets_to_install() {
    let installed = "x86_64-unknown-linux-gnu\nwasm32-unknown-unknown\n";
    assert_eq!(install_build_targets("linux", installed), vec![
        s("aarch64-unknown-linux-gnu"), s("aarch64-linux-android"), s("i686-linux-android"),
        s("x86_64-linux-android"), s("x86_64-pc-windows-gnu"),
    ]);
    let mac = install_build_targets("macos", installed);
    assert_eq!(mac.len(), 11);
    assert_eq!(mac[10], s("x86_64-pc-windows-gnu"));
}

#[test]
fn homebrew_locations() {
    assert_eq!(brew_dir(true), "/opt/homebrew");
    assert_eq!(brew_dir(false), "/usr/local");
    assert_eq!(installed_brew_path(true), "/opt/homebrew/bin/brew");
    assert_eq!(existing_brew_path(false), "/usr/local/bin");
}

#[test]
fn command_line_tools_listing() {
    let listing = "Software Update Tool\n\nFinding available software\nSoftware Update found the following new or updated software:\n* Label: Command Line Tools for Xcode-15.3\n\tTitle: Command Line Tools for Xcode, Version: 15.3\n* Label: Command Line Tools for Xcode-15.4\n";
    assert_eq!(command_line_tools_package(listing), Ok(s("Command Line Tools for Xcode-15.4")));
    assert_eq!(command_line_tools_package("No new software available.\n"), Err(CltError::NoPackage));
    assert_eq!(command_line_tools_package("*Command Line\n"), Err(CltError::Unparsable));
}

#[test]
fn windows_linker() {
    let mut session = demo("macos");
    assert!(windows_linker_config(&session).is_err());
    session.set_path("homebrew_path", s("/opt/homebrew/bin")).unwrap();
    assert_eq!(
        windows_linker_config(&session).unwrap(),
        "[target.x86_64-pc-windows-gnu]\nlinker = \"/opt/homebrew/bin/x86_64-w64-mingw32-gcc\"\n"
    );
}

#[test]
fn android_toolchain_paths() {
    let session = Session::new("linux", s("/home/ada"));
    let p = android_paths(&session);
    assert_eq!(p.len(), 9);
    assert_eq!(p[0], (s("sdk_path"), s("/home/ada/Android/sdk")));
    assert_eq!(p[5], (s("platforms_path"), s("/home/ada/Android/sdk/platforms/android-31")));
    assert_eq!(p[6], (s("ndk_path"), s("/home/ada/Android/sdk/ndk/26.1.10909125")));
    assert_eq!(p[8], (s("java_path"), s("/opt/homebrew/opt/openjdk@17/bin/java")));
    assert_eq!(sdk_packages(&session), vec![s("platform-tools"), s("build-tools;34.0.0"), s("platforms;android-31"), s("ndk;26.1.10909125")]);
    assert_eq!(tools_download(&session), "/home/ada/cmdline-tools.zip");
    assert!(sdk_root_arg(&session).is_err());
}

#[test]
fn jdk_setups() {
    let linux = jdk_setup("linux", false, None).unwrap();
    assert_eq!(linux.java_home, "/usr/lib/jvm/java-17-openjdk-amd64");
    assert!(matches!(linux.install, JdkInstall::Apt));
    assert_eq!(linux.java_path, None);
    let mac = jdk_setup("macos", true, Some(s("ada"))).unwrap();
    assert_eq!(mac.java_home, "/opt/homebrew/opt/openjdk@17");
    assert_eq!(mac.java_path, Some(s("/opt/homebrew/opt/openjdk@17")));
    match mac.install {
        JdkInstall::Brew { user, brew } => {
            assert_eq!(user, "ada");
            assert_eq!(brew, "/opt/homebrew/bin/brew");
        }
        other => panic!("unexpected {:?}", other),
    }
    let intel = jdk_setup("macos", false, Some(s("ada"))).unwrap();
    assert!(matches!(intel.install, JdkInstall::Brew { ref brew, .. } if brew == "/usr/local/bin/brew"));
    assert!(matches!(jdk_setup("macos", true, None), Err(ToolchainError::SudoUserMissing)));
    assert!(matches!(jdk_setup("freebsd", true, None), Err(ToolchainError::UnsupportedOs(_))));
}

#[test]
fn java_checks() {
    assert!(java_is_openjdk("OpenJDK Runtime Environment Homebrew (build 17.0.9)"));
    assert!(!java_is_openjdk("Java(TM) SE Runtime Environment"));
    assert!(needs_jdk(false, "/x"));
    assert!(needs_jdk(true, ""));
    assert!(!needs_jdk(true, "/x"));
    assert!(sdk_configured(true, true, true, false, true));
    assert!(!sdk_configured(true, false, true, true, true));
}

#[test]
fn navigation_and_error_component() {
    let nav = RampGUI::interface();
    assert_eq!(nav.len(), 8);
    assert_eq!(nav[0], (s("home"), s("home")));
    assert_eq!(nav[1], (s("car"), s("dashboard")));
    assert_eq!(nav[7], (s("phone"), s("wasm")));
    assert_eq!(RampGUI::theme(), ("#ff1f23", 255));
    let _ = ErrorComponent::new();
}

const PROFILE: &str = "<key>Name</key><string>Ramp Release</string><key>ProvisionedDevices</key><array><string>U1</string></array>";

#[test]
fn provision_check_steps() {
    match provision_check_start("/b.app", &vec![s("x.mobileprovision"), s("Info.plist")]) {
        ProvisionAction::Decode(p) => assert_eq!(p, "/b.app/x.mobileprovision"),
        other => panic!("unexpected {:?}", other),
    }
    assert!(matches!(provision_check_start("/b.app", &vec![s("Info.plist")]), ProvisionAction::Done(Ok(false))));
    assert!(matches!(
        provision_check_start("/b.app", &vec![s("a.mobileprovision"), s("b.mobileprovision")]),
        ProvisionAction::Done(Ok(false))
    ));
}

#[test]
fn provision_check_after_decoding() {
    let mut session = demo("macos");
    match provision_check_decoded(&session, "U1", false, None, "bad file") {
        ProvisionAction::Done(Err(ProvisionError::DecodeFailed(m))) => assert_eq!(m, "bad file"),
        other => panic!("unexpected {:?}", other),
    }
    assert!(matches!(provision_check_decoded(&session, "U1", true, None, ""), ProvisionAction::Done(Err(ProvisionError::NotText))));
    assert!(matches!(
        provision_check_decoded(&session, "U2", true, Some(s(PROFILE)), ""),
        ProvisionAction::Done(Ok(false))
    ));
    assert!(matches!(
        provision_check_decoded(&session, "U1", true, Some(s(PROFILE)), ""),
        ProvisionAction::Done(Err(ProvisionError::Session(SessionError::PathNotSet(PathKey::Homebrew))))
    ));
    session.set_path("homebrew_path", s("/hb")).unwrap();
    match provision_check_decoded(&session, "U1", true, Some(s(PROFILE)), "") {
        ProvisionAction::ListInstalled { tool, profile_name } => {
            assert_eq!(tool, "/hb/ideviceprovision");
            assert_eq!(profile_name, "Ramp Release");
        }
        other => panic!("unexpected {:?}", other),
    }
    let nameless = "<key>ProvisionedDevices</key><array><string>U1</string></array>";
    assert!(matches!(
        provision_check_decoded(&session, "U1", true, Some(s(nameless)), ""),
        ProvisionAction::Done(Err(ProvisionError::NameMissing))
    ));
}

#[test]
fn provision_check_after_listing() {
    assert!(matches!(provision_check_listed(true, "Ramp Release\n", "Ramp Release"), ProvisionAction::Done(Ok(true))));
    assert!(matches!(provision_check_listed(true, "Other\n", "Ramp Release"), ProvisionAction::Done(Ok(false))));
    assert!(matches!(provision_check_listed(false, "", "Ramp Release"), ProvisionAction::Done(Err(ProvisionError::ListFailed))));
}

#[test]
fn encoding_given_pixels() {
    let png = png_of_pixels(&vec![10u8; 2 * 3 * 4], 2, 3).unwrap();
    let img = image::load_from_memory(&png).unwrap();
    assert_eq!((img.width(), img.height()), (2, 3));
    assert_eq!(png_of_pixels(&Vec::new(), 0, 0), Err(IconError::Save));
    let ico = ico_of_pixels(&vec![255u8; 64 * 64 * 4]).unwrap();
    assert_eq!(&ico[0..4], &[0u8, 0, 1, 0]);
}

#[test]
fn ico_input_is_not_read_as_png() {
    let ico = ico_of_pixels(&vec![255u8; 64 * 64 * 4]).unwrap();
    assert_eq!(convert_png_to_ico(&ico), Err(IconError::Open));
}

#[test]
fn build_script_for_icon() {
    let expected = format!(
        r#"
        use std::io;

        fn main() {{
            if std::env::var("CARGO_CFG_TARGET_OS").unwrap() == "windows" && std::path::Path::new("{}").exists() {{
                embed_resource::compile("app.rc", embed_resource::NONE)
                .manifest_optional();
            }}
    }}
    
        "#,
        "/p/demo/assets/resources/icons/windows_icon.ico"
    );
    let mut session = demo("linux");
    session.projects_path = Some(s("/p"));
    let plan = update_icons(&session);
    assert_eq!(plan.build_content, expected);
    assert_eq!(ramp::icons::build_script_text("/x.ico"), expected.replace("/p/demo/assets/resources/icons/windows_icon.ico", "/x.ico"));
}

#[test]
fn capitalized_bundle_for_non_ascii_name() {
    let mut session = demo("macos");
    session.current_project = Some(s("élan"));
    assert_eq!(app_bundle(&session, "ios"), "/Users/ada/ramp/élan/ios/Élan.app");
}
