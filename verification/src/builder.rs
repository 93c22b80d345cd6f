//! Building a project for a target: where the output lands, which cargo
//! command builds it, with which environment, and what follows the build.
use vstd::prelude::*;
use crate::text::{concat, owned, opt_view, str_eq};
use crate::helper::{capitalize_first, capitalized};
use crate::session::{lookup_key, PathKey, Session, SessionError};

verus! {

/// Why no build can be made.
#[derive(Debug)]
pub enum BuildError {
    /// The target is not one the host can build for.
    UnsupportedTarget(String),
    /// A tool path that the build needs is not configured.
    Session(SessionError),
}

/// How to build a project: run `script` with `bash -c` in `project_path` with
/// the variables `envs` added to the environment; the binary is then found at
/// `output_path`; when `post_build` is set, the built binary is copied from its
/// first path into its second and the app bundle is signed.
#[derive(Debug)]
pub struct BuildPlan {
    pub project_path: String,
    pub output_path: String,
    pub script: String,
    pub envs: Vec<(String, String)>,
    pub post_build: Option<(String, String)>,
}

/// The mathematical form of a build plan.
pub struct BuildPlanView {
    pub project_path: Seq<char>,
    pub output_path: Seq<char>,
    pub script: Seq<char>,
    pub envs: Seq<(Seq<char>, Seq<char>)>,
    pub post_build: Option<(Seq<char>, Seq<char>)>,
}

/// The mathematical form of a build error.
pub enum BuildErrorView {
    UnsupportedTarget(Seq<char>),
    Session(SessionError),
}

impl BuildPlan {
    pub open spec fn view(&self) -> BuildPlanView {
        BuildPlanView {
            project_path: self.project_path@,
            output_path: self.output_path@,
            script: self.script@,
            envs: self.envs@.map_values(|p: (String, String)| (p.0@, p.1@)),
            post_build: match self.post_build {
                Some(p) => Some((p.0@, p.1@)),
                None => None,
            },
        }
    }
}

impl BuildError {
    pub open spec fn view(&self) -> BuildErrorView {
        match self {
            BuildError::UnsupportedTarget(t) => BuildErrorView::UnsupportedTarget(t@),
            BuildError::Session(e) => BuildErrorView::Session(*e),
        }
    }
}

/// The flag that cargo gets for a release build.
pub open spec fn release_flag(release: bool) -> Seq<char> {
    if release {
        " --release "@
    } else {
        Seq::empty()
    }
}

/// Where a debug build of the project in `dir`, named `cur`, puts its output on
/// host `os` for `target`; none for a target the host cannot build.
pub open spec fn debug_output(os: Seq<char>, dir: Seq<char>, cur: Seq<char>, target: Seq<char>) -> Option<Seq<char>> {
    if target == "windows"@ {
        Some(dir + "/target/x86_64-pc-windows-gnu/debug/"@ + cur + ".exe"@)
    } else if target == "linux"@ {
        if os == "linux"@ {
            Some(dir + "/target/debug/TODO NEED TO FIX THIS"@)
        } else {
            Some(dir + "/target/aarch64-unknown-linux-gnu/debug/"@ + cur)
        }
    } else if target == "wasm"@ {
        Some(dir + "/target/wasm32-unknown-unknown/debug/main.wasm"@)
    } else if target == "android"@ || target == "android_run"@ {
        Some(dir + "/target/debug/apk/"@ + capitalized(cur) + ".apk"@)
    } else if target == "ios"@ {
        if os == "macos"@ {
            Some(
                dir + "/target/aarch64-apple-ios/debug/"@ + cur
                    + " ...if you are looking for the full app bundle check the ramp/"@ + cur
                    + "/ios directory"@,
            )
        } else {
            None
        }
    } else if target == "macos"@ {
        if os == "macos"@ {
            Some(dir + "/target/debug/"@ + cur)
        } else {
            None
        }
    } else {
        None
    }
}

/// The arguments that cargo gets to build for `target` on host `os`; none for
/// an unknown target.
pub open spec fn cargo_args(os: Seq<char>, target: Seq<char>, release: bool) -> Option<Seq<char>> {
    if target == "windows"@ {
        Some("build --target x86_64-pc-windows-gnu"@ + release_flag(release))
    } else if target == "linux"@ {
        if os == "linux"@ {
            Some("build"@ + release_flag(release))
        } else {
            Some("build --target aarch64-unknown-linux-gnu"@ + release_flag(release))
        }
    } else if target == "wasm"@ {
        Some("build --lib --target wasm32-unknown-unknown"@ + release_flag(release))
    } else if target == "android"@ {
        Some("apk build"@ + if release { " --release "@ } else { " --lib "@ })
    } else if target == "android_run"@ {
        Some("apk run"@ + if release { " --release "@ } else { " --lib "@ })
    } else if target == "ios"@ {
        Some("build --target aarch64-apple-ios"@ + release_flag(release))
    } else if target == "macos"@ {
        Some("build"@ + release_flag(release))
    } else {
        None
    }
}

/// The command and environment of the build, once cargo's arguments and the
/// cargo and Homebrew paths are known: Android builds get `JAVA_HOME`,
/// `ANDROID_HOME` and `NDK_HOME`; Linux builds on macOS run cargo-zigbuild with
/// Homebrew first on `PATH`; other builds run cargo as it is.
pub open spec fn build_command(
    s: Session,
    target: Seq<char>,
    args: Seq<char>,
    cargo: Seq<char>,
    brew: Seq<char>,
    path_env: Seq<char>,
) -> Result<(Seq<char>, Seq<(Seq<char>, Seq<char>)>), BuildErrorView> {
    let cargo_command = cargo + " "@ + args;
    if target == "android"@ || target == "android_run"@ {
        match lookup_key(s.paths, PathKey::Java) {
            Err(k) => Err(BuildErrorView::Session(SessionError::PathNotSet(k))),
            Ok(java) => match lookup_key(s.paths, PathKey::Sdk) {
                Err(k) => Err(BuildErrorView::Session(SessionError::PathNotSet(k))),
                Ok(sdk) => match lookup_key(s.paths, PathKey::Ndk) {
                    Err(k) => Err(BuildErrorView::Session(SessionError::PathNotSet(k))),
                    Ok(ndk) => Ok(
                        (
                            cargo_command,
                            seq![("JAVA_HOME"@, java), ("ANDROID_HOME"@, sdk), ("NDK_HOME"@, ndk)],
                        ),
                    ),
                },
            },
        }
    } else if s.os@ == "macos"@ && target == "linux"@ {
        match lookup_key(s.paths, PathKey::Zigbuild) {
            Err(k) => Err(BuildErrorView::Session(SessionError::PathNotSet(k))),
            Ok(zig) => Ok((zig + " "@ + args, seq![("PATH"@, brew + ":"@ + path_env)])),
        }
    } else {
        Ok((cargo_command, Seq::empty()))
    }
}

/// The build of the current project for `target`, given the value of `PATH`.
pub open spec fn build_plan(s: Session, target: Seq<char>, release: bool, path_env: Seq<char>) -> Result<BuildPlanView, BuildErrorView> {
    let cur = opt_view(s.current_project)->0;
    let dir = opt_view(s.projects_path)->0 + "/"@ + cur;
    let output = if release {
        Some("TODO output paths for release builds"@)
    } else {
        debug_output(s.os@, dir, cur, target)
    };
    match output {
        None => Err(BuildErrorView::UnsupportedTarget(target)),
        Some(out) => match cargo_args(s.os@, target, release) {
            None => Err(BuildErrorView::UnsupportedTarget(target)),
            Some(args) => match lookup_key(s.paths, PathKey::Cargo) {
                Err(k) => Err(BuildErrorView::Session(SessionError::PathNotSet(k))),
                Ok(cargo) => match lookup_key(s.paths, PathKey::Homebrew) {
                    Err(k) => Err(BuildErrorView::Session(SessionError::PathNotSet(k))),
                    Ok(brew) => match build_command(s, target, args, cargo, brew, path_env) {
                        Err(e) => Err(e),
                        Ok((script, envs)) => Ok(
                            BuildPlanView {
                                project_path: dir,
                                output_path: out,
                                script,
                                envs,
                                post_build: if !release && target == "ios"@ {
                                    Some(
                                        (
                                            dir + "/target/aarch64-apple-ios/debug/"@ + cur,
                                            dir + "/ios/"@ + capitalized(cur) + ".app/"@,
                                        ),
                                    )
                                } else {
                                    None
                                },
                            },
                        ),
                    },
                },
            },
        },
    }
}

/// A string holding `a`, `b` and `c` in turn.
fn cat3(a: &str, b: &str, c: &str) -> (r: String)
    ensures
        r@ == a@ + b@ + c@,
{
    concat(concat(a, b).as_str(), c)
}

/// Where a debug build puts its output.
fn debug_output_exec(os: &str, dir: &str, cur: &str, target: &str) -> (r: Option<String>)
    ensures
        opt_view(r) == debug_output(os@, dir@, cur@, target@),
{
    if str_eq(target, "windows") {
        Some(concat(cat3(dir, "/target/x86_64-pc-windows-gnu/debug/", cur).as_str(), ".exe"))
    } else if str_eq(target, "linux") {
        if str_eq(os, "linux") {
            Some(concat(dir, "/target/debug/TODO NEED TO FIX THIS"))
        } else {
            Some(cat3(dir, "/target/aarch64-unknown-linux-gnu/debug/", cur))
        }
    } else if str_eq(target, "wasm") {
        Some(concat(dir, "/target/wasm32-unknown-unknown/debug/main.wasm"))
    } else if str_eq(target, "android") || str_eq(target, "android_run") {
        let cap = capitalize_first(cur);
        Some(concat(cat3(dir, "/target/debug/apk/", cap.as_str()).as_str(), ".apk"))
    } else if str_eq(target, "ios") {
        if str_eq(os, "macos") {
            let a = cat3(dir, "/target/aarch64-apple-ios/debug/", cur);
            let b = cat3(a.as_str(), " ...if you are looking for the full app bundle check the ramp/", cur);
            Some(concat(b.as_str(), "/ios directory"))
        } else {
            None
        }
    } else if str_eq(target, "macos") {
        if str_eq(os, "macos") {
            Some(cat3(dir, "/target/debug/", cur))
        } else {
            None
        }
    } else {
        None
    }
}

/// Cargo's arguments for a target.
fn cargo_args_exec(os: &str, target: &str, release: bool) -> (r: Option<String>)
    ensures
        opt_view(r) == cargo_args(os@, target@, release),
{
    let flag = if release { owned(" --release ") } else { String::new() };
    let apk_flag = if release { " --release " } else { " --lib " };
    if str_eq(target, "windows") {
        Some(concat("build --target x86_64-pc-windows-gnu", flag.as_str()))
    } else if str_eq(target, "linux") {
        if str_eq(os, "linux") {
            Some(concat("build", flag.as_str()))
        } else {
            Some(concat("build --target aarch64-unknown-linux-gnu", flag.as_str()))
        }
    } else if str_eq(target, "wasm") {
        Some(concat("build --lib --target wasm32-unknown-unknown", flag.as_str()))
    } else if str_eq(target, "android") {
        Some(concat("apk build", apk_flag))
    } else if str_eq(target, "android_run") {
        Some(concat("apk run", apk_flag))
    } else if str_eq(target, "ios") {
        Some(concat("build --target aarch64-apple-ios", flag.as_str()))
    } else if str_eq(target, "macos") {
        Some(concat("build", flag.as_str()))
    } else {
        None
    }
}

/// Builds the project in the session for a target (such as `ios`, `android` or
/// `windows`), in release or debug mode, given the current value of `PATH`:
/// the plan of the build, or why there is none. The session must have a
/// projects directory and a current project.
pub fn build_output(session: &Session, target_os: &str, release: bool, path_env: &str) -> (r: Result<BuildPlan, BuildError>)
    requires
        session.projects_path is Some,
        session.current_project is Some,
    ensures
        r matches Ok(p) ==> build_plan(*session, target_os@, release, path_env@) == Ok::<BuildPlanView, BuildErrorView>(p.view()),
        r matches Err(e) ==> build_plan(*session, target_os@, release, path_env@) == Err::<BuildPlanView, BuildErrorView>(e.view()),
{
    let projects = session.projects_path.as_ref().unwrap();
    let cur = session.current_project.as_ref().unwrap();
    let dir = cat3(projects.as_str(), "/", cur.as_str());
    let output = if release {
        Some(owned("TODO output paths for release builds"))
    } else {
        debug_output_exec(session.os.as_str(), dir.as_str(), cur.as_str(), target_os)
    };
    let output = match output {
        Some(o) => o,
        None => return Err(BuildError::UnsupportedTarget(owned(target_os))),
    };
    let args = match cargo_args_exec(session.os.as_str(), target_os, release) {
        Some(a) => a,
        None => return Err(BuildError::UnsupportedTarget(owned(target_os))),
    };
    let cargo = match session.path_for(PathKey::Cargo) {
        Ok(c) => c,
        Err(e) => return Err(BuildError::Session(e)),
    };
    let brew = match session.path_for(PathKey::Homebrew) {
        Ok(b) => b,
        Err(e) => return Err(BuildError::Session(e)),
    };
    let cargo_command = cat3(cargo.as_str(), " ", args.as_str());
    let mut envs: Vec<(String, String)> = Vec::new();
    let script;
    if str_eq(target_os, "android") || str_eq(target_os, "android_run") {
        let java = match session.path_for(PathKey::Java) {
            Ok(v) => v,
            Err(e) => return Err(BuildError::Session(e)),
        };
        let sdk = match session.path_for(PathKey::Sdk) {
            Ok(v) => v,
            Err(e) => return Err(BuildError::Session(e)),
        };
        let ndk = match session.path_for(PathKey::Ndk) {
            Ok(v) => v,
            Err(e) => return Err(BuildError::Session(e)),
        };
        envs.push((owned("JAVA_HOME"), java));
        envs.push((owned("ANDROID_HOME"), sdk));
        envs.push((owned("NDK_HOME"), ndk));
        script = cargo_command;
    } else if str_eq(session.os.as_str(), "macos") && str_eq(target_os, "linux") {
        let zig = match session.path_for(PathKey::Zigbuild) {
            Ok(v) => v,
            Err(e) => return Err(BuildError::Session(e)),
        };
        envs.push((owned("PATH"), cat3(brew.as_str(), ":", path_env)));
        script = cat3(zig.as_str(), " ", args.as_str());
    } else {
        script = cargo_command;
    }
    let post_build = if !release && str_eq(target_os, "ios") {
        let cap = capitalize_first(cur.as_str());
        Some((
            cat3(dir.as_str(), "/target/aarch64-apple-ios/debug/", cur.as_str()),
            concat(cat3(dir.as_str(), "/ios/", cap.as_str()).as_str(), ".app/"),
        ))
    } else {
        None
    };
    let plan = BuildPlan { project_path: dir, output_path: output, script, envs, post_build };
    assert(plan.view().envs =~= build_plan(*session, target_os@, release, path_env@)->Ok_0.envs);
    Ok(plan)
}

} // verus!
