//! Creating a project from the template, choosing its bundle identifier, and
//! deploying its builds to a tethered device.
use vstd::prelude::*;
use crate::text::{
    chars_of, concat, concat3, lines, opt_view, owned, str_eq, string_of, trim, trim_chars,
};
use crate::session::{lookup_key, or_empty, PathKey, Session, SessionError};
use crate::outside::{lowercase, to_lowercase};
use crate::device::{apk_fields, apk_names, ApkError};
use crate::icons::project_root;
use crate::signing::strs;

verus! {

/// The repository that new projects are cloned from.
pub open spec fn template_repository() -> Seq<char> {
    "https://github.com/dav-anderson/ramp_template"@
}

/// Why a project cannot be created on this host.
#[derive(Debug, Clone, Copy, PartialEq, Eq)]
pub enum ProjectError {
    /// The host OS is neither Linux nor macOS.
    UnsupportedOs,
}

/// How to create a project: clone the template into `path`, first making sure
/// that git is installed when `install_git` is set; then, when
/// `select_after_clone` is set, load that project; then apply the template
/// naming to `name` and load the project `name`.
#[derive(Debug)]
pub struct NewProjectPlan {
    pub path: String,
    pub name: String,
    pub install_git: bool,
    pub template_url: String,
    pub select_after_clone: Option<String>,
}

/// How to create the project `name` on the session's host: it goes to
/// `<projects>/<name in lower case>`; Linux makes sure of git first; macOS
/// loads the project under the name as given right after cloning it; any
/// other host cannot create projects.
pub fn new_project(session: &Session, name: &str) -> (r: Result<NewProjectPlan, ProjectError>)
    ensures
        session.os@ != "linux"@ && session.os@ != "macos"@ ==> r == Err::<NewProjectPlan, ProjectError>(ProjectError::UnsupportedOs),
        session.os@ == "linux"@ || session.os@ == "macos"@ ==> (r matches Ok(p) && {
            &&& p.name@ == lowercase(name@)
            &&& p.path@ == or_empty(opt_view(session.projects_path)) + "/"@ + lowercase(name@)
            &&& p.template_url@ == template_repository()
            &&& p.install_git == (session.os@ == "linux"@)
            &&& session.os@ == "linux"@ ==> p.select_after_clone is None
            &&& session.os@ == "macos"@ ==> opt_view(p.select_after_clone) == Some(name@)
        }),
{
    proof {
        reveal_strlit("linux");
        reveal_strlit("macos");
        assert("linux"@[0] != "macos"@[0]);
    }
    let linux = str_eq(session.os.as_str(), "linux");
    let macos = str_eq(session.os.as_str(), "macos");
    if !linux && !macos {
        return Err(ProjectError::UnsupportedOs);
    }
    let lower = to_lowercase(name);
    let base = match &session.projects_path {
        Some(p) => owned(p.as_str()),
        None => String::new(),
    };
    assert(base@ == or_empty(opt_view(session.projects_path))) by {
        if session.projects_path is None {
            assert(base@ =~= Seq::<char>::empty());
        }
    }
    let path = concat3(base.as_str(), "/", lower.as_str());
    let select_after_clone = if macos {
        Some(owned(name))
    } else {
        None
    };
    Ok(NewProjectPlan {
        path,
        name: lower,
        install_git: linux,
        template_url: owned("https://github.com/dav-anderson/ramp_template"),
        select_after_clone,
    })
}

/// Whether to try installing git again: the last try failed and fewer than
/// three tries were made.
pub fn retry_git_install(attempts: u32, installed: bool) -> (r: bool)
    ensures
        r == (!installed && attempts < 3),
{
    !installed && attempts < 3
}

/// The bundle identifier that a project gets by default: `com.ramp.<project>`.
pub open spec fn default_bundle_id(project: Seq<char>) -> Seq<char> {
    "com.ramp."@ + project
}

/// The bundle identifier chosen from what the user entered: the trimmed entry,
/// or the default when the entry is blank.
pub open spec fn chosen_bundle_id(project: Seq<char>, input: Seq<char>) -> Seq<char> {
    if trim(input).len() == 0 {
        default_bundle_id(project)
    } else {
        trim(input)
    }
}

/// The bundle identifier that a new project gets, from what the user entered
/// when asked (on macOS only): nothing on another host; on macOS, the chosen
/// identifier when it differs from the default, and nothing when it is the
/// default.
pub fn create_app_bundle_id(session: &Session, input: &str) -> (r: Option<String>)
    requires
        session.os@ == "macos"@ ==> session.current_project is Some,
    ensures
        session.os@ != "macos"@ ==> r is None,
        session.os@ == "macos"@ ==> ({
            let cur = opt_view(session.current_project)->Some_0;
            let chosen = chosen_bundle_id(cur, input@);
            &&& chosen == default_bundle_id(cur) ==> r is None
            &&& chosen != default_bundle_id(cur) ==> opt_view(r) == Some(chosen)
        }),
{
    if !str_eq(session.os.as_str(), "macos") {
        return None;
    }
    let cur = session.current_project.as_ref().unwrap();
    let default = concat("com.ramp.", cur.as_str());
    let entered = trim_chars(&chars_of(input));
    let chosen = if entered.len() == 0 {
        owned(default.as_str())
    } else {
        string_of(&entered)
    };
    if str_eq(chosen.as_str(), default.as_str()) {
        None
    } else {
        Some(chosen)
    }
}

/// Where a tethered deployment goes.
#[derive(Debug, Clone, Copy, PartialEq, Eq)]
pub enum DeployTarget {
    Ios,
    Android,
    /// Any other target, for which there is nothing to deploy.
    Other,
}

/// The kind of deployment that a target gets.
pub fn deploy_target(target_os: &str) -> (r: DeployTarget)
    ensures
        target_os@ == "ios"@ ==> r == DeployTarget::Ios,
        target_os@ == "android"@ ==> r == DeployTarget::Android,
        target_os@ != "ios"@ && target_os@ != "android"@ ==> r == DeployTarget::Other,
{
    proof {
        reveal_strlit("ios");
        reveal_strlit("android");
        assert("ios"@.len() != "android"@.len());
    }
    if str_eq(target_os, "ios") {
        DeployTarget::Ios
    } else if str_eq(target_os, "android") {
        DeployTarget::Android
    } else {
        DeployTarget::Other
    }
}

/// The `xcrun` arguments that install an app bundle on a device.
pub fn ios_install_args(device_id: &str, bundle: &str) -> (r: Vec<String>)
    ensures
        strs(r@) == seq!["devicectl"@, "device"@, "install"@, "app"@, "--device"@, device_id@, bundle@],
{
    let mut v: Vec<String> = Vec::new();
    v.push(owned("devicectl"));
    v.push(owned("device"));
    v.push(owned("install"));
    v.push(owned("app"));
    v.push(owned("--device"));
    v.push(owned(device_id));
    v.push(owned(bundle));
    assert(strs(v@) =~= seq!["devicectl"@, "device"@, "install"@, "app"@, "--device"@, device_id@, bundle@]);
    v
}

/// The `xcrun` arguments that launch an installed app on a device.
pub fn ios_launch_args(device_id: &str, bundle_id: &str) -> (r: Vec<String>)
    ensures
        strs(r@) == seq!["devicectl"@, "device"@, "process"@, "launch"@, "--device"@, device_id@, bundle_id@],
{
    let mut v: Vec<String> = Vec::new();
    v.push(owned("devicectl"));
    v.push(owned("device"));
    v.push(owned("process"));
    v.push(owned("launch"));
    v.push(owned("--device"));
    v.push(owned(device_id));
    v.push(owned(bundle_id));
    assert(strs(v@) =~= seq!["devicectl"@, "device"@, "process"@, "launch"@, "--device"@, device_id@, bundle_id@]);
    v
}

/// A tool in a configured directory: `<dir of key>/<tool>`.
pub fn tool_in(session: &Session, key: PathKey, tool: &str) -> (r: Result<String, SessionError>)
    ensures
        match lookup_key(session.paths, key) {
            Ok(d) => r matches Ok(t) && t@ == d + "/"@ + tool@,
            Err(k) => r == Err::<String, SessionError>(SessionError::PathNotSet(k)),
        },
{
    match session.path_for(key) {
        Ok(d) => Ok(concat3(d.as_str(), "/", tool)),
        Err(e) => Err(e),
    }
}

/// The debug APK of the current project: `<project>/target/debug/apk/<apk>.apk`.
pub open spec fn apk_path_of(s: Session, apk: Seq<char>) -> Seq<char> {
    project_root(s) + "/target/debug/apk/"@ + apk + ".apk"@
}

/// What deploying to a tethered Android device installs: the debug APK named
/// in the project's `Cargo.toml`, and the package it holds.
#[derive(Debug)]
pub struct AndroidDeploy {
    pub apk_path: String,
    pub package: String,
}

/// Reads the APK name and package from the text of the current project's
/// `Cargo.toml` and gives the APK to install, or why the manifest does not say.
pub fn android_deploy(session: &Session, cargo_toml: &str) -> (r: Result<AndroidDeploy, ApkError>)
    requires
        session.projects_path is Some,
        session.current_project is Some,
    ensures
        ({
            let f = apk_fields(lines(cargo_toml@));
            &&& f.0.len() == 0 ==> r == Err::<AndroidDeploy, ApkError>(ApkError::ApkNameMissing)
            &&& f.0.len() > 0 && f.1.len() == 0 ==> r == Err::<AndroidDeploy, ApkError>(ApkError::PackageMissing)
            &&& f.0.len() > 0 && f.1.len() > 0 ==> (r matches Ok(d) && d.apk_path@ == apk_path_of(*session, f.0)
                && d.package@ == f.1)
        }),
{
    let (apk, package) = match apk_names(cargo_toml) {
        Ok(v) => v,
        Err(e) => return Err(e),
    };
    let projects = session.projects_path.as_ref().unwrap();
    let cur = session.current_project.as_ref().unwrap();
    let root = concat3(projects.as_str(), "/", cur.as_str());
    let a = concat3(root.as_str(), "/target/debug/apk/", apk.as_str());
    Ok(AndroidDeploy { apk_path: concat(a.as_str(), ".apk"), package })
}

/// The iOS SDK path that `xcrun --sdk iphoneos --show-sdk-path` printed,
/// trimmed.
pub fn get_ios_sdk(xcrun_output: &str) -> (r: String)
    ensures
        r@ == trim(xcrun_output@),
{
    string_of(&trim_chars(&chars_of(xcrun_output)))
}

} // verus!
