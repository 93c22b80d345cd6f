//! Installing the toolchains that builds need: the Rust toolchain and its
//! targets, Homebrew and the Xcode command line tools on macOS, and the
//! Android SDK, NDK and JDK.
use vstd::prelude::*;
use crate::text::{
    chars_of, concat, concat3, contains, lines, lines_chars, occurs_at, occurs_at_chars, opt_view,
    owned, str_contains, str_eq, string_of,
};
use crate::outside::{lowercase, to_lowercase};
use crate::session::{lookup_key, PathKey, Session, SessionError};
use crate::signing::strs;
use crate::template::pairs_view;
use crate::manifest::line_views;

verus! {

/// Why a toolchain cannot be installed on this host.
#[derive(Debug)]
pub enum ToolchainError {
    /// The host OS is not supported; its name.
    UnsupportedOs(String),
    /// The installer was not started with `sudo`, so the invoking user is unknown.
    SudoUserMissing,
}

/// The configuration file of a user: `<home>/.ramp`.
pub fn config_path(home: &str) -> (r: String)
    ensures
        r@ == home@ + "/.ramp"@,
{
    concat(home, "/.ramp")
}

/// The tool paths that the Rust toolchain gets, each a path name and a path:
/// `cargo_path` and `rustup_path` in `<home>/.cargo/bin`.
pub fn rust_paths(session: &Session) -> (r: Vec<(String, String)>)
    ensures
        pairs_view(r@) == seq![
            ("cargo_path"@, session.home@ + "/.cargo/bin/cargo"@),
            ("rustup_path"@, session.home@ + "/.cargo/bin/rustup"@),
        ],
{
    let mut v: Vec<(String, String)> = Vec::new();
    v.push((owned("cargo_path"), concat(session.home.as_str(), "/.cargo/bin/cargo")));
    v.push((owned("rustup_path"), concat(session.home.as_str(), "/.cargo/bin/rustup")));
    assert(pairs_view(v@) =~= seq![
        ("cargo_path"@, session.home@ + "/.cargo/bin/cargo"@),
        ("rustup_path"@, session.home@ + "/.cargo/bin/rustup"@),
    ]);
    v
}

/// How rustup is installed on a host.
#[derive(Debug, Clone, Copy, PartialEq, Eq)]
pub enum RustupInstall {
    /// Update apt and install curl and unzip (up to three rounds), then run
    /// the rustup installer.
    AptThenScript,
    /// Run the rustup installer, then give `~/.cargo` back to the invoking user.
    ScriptThenChown,
}

/// How rustup is installed on the host `os`: with apt on Linux, directly on
/// macOS, not at all elsewhere.
pub fn install_rustup(os: &str) -> (r: Result<RustupInstall, ToolchainError>)
    ensures
        os@ == "linux"@ ==> r == Ok::<RustupInstall, ToolchainError>(RustupInstall::AptThenScript),
        os@ == "macos"@ ==> r == Ok::<RustupInstall, ToolchainError>(RustupInstall::ScriptThenChown),
        os@ != "linux"@ && os@ != "macos"@ ==> (r matches Err(ToolchainError::UnsupportedOs(n)) && n@ == os@),
{
    proof {
        reveal_strlit("linux");
        reveal_strlit("macos");
        assert("linux"@[0] != "macos"@[0]);
    }
    if str_eq(os, "linux") {
        Ok(RustupInstall::AptThenScript)
    } else if str_eq(os, "macos") {
        Ok(RustupInstall::ScriptThenChown)
    } else {
        Err(ToolchainError::UnsupportedOs(owned(os)))
    }
}

/// Whether another round of installing a package is due: the last round failed
/// and fewer than three rounds were made.
pub fn retry_install(attempts: u32, succeeded: bool) -> (r: bool)
    ensures
        r == (!succeeded && attempts < 3),
{
    !succeeded && attempts < 3
}

/// The build targets that every host installs.
pub open spec fn common_targets() -> Seq<Seq<char>> {
    seq![
        "x86_64-unknown-linux-gnu"@,
        "aarch64-unknown-linux-gnu"@,
        "aarch64-linux-android"@,
        "i686-linux-android"@,
        "x86_64-linux-android"@,
        "x86_64-pc-windows-gnu"@,
        "wasm32-unknown-unknown"@,
    ]
}

/// The build targets that a macOS host installs besides the common ones.
pub open spec fn apple_targets() -> Seq<Seq<char>> {
    seq![
        "aarch64-apple-ios"@,
        "x86_64-apple-ios"@,
        "aarch64-apple-ios-sim"@,
        "x86_64-apple-darwin"@,
        "aarch64-apple-darwin"@,
        "x86_64-pc-windows-gnu"@,
    ]
}

/// The build targets that the host `os` installs, in order.
pub open spec fn wanted_targets(os: Seq<char>) -> Seq<Seq<char>> {
    if os == "macos"@ {
        common_targets() + apple_targets()
    } else {
        common_targets()
    }
}

/// The targets among `ts` that the listing of installed targets does not
/// mention, in order.
pub open spec fn missing_targets(ts: Seq<Seq<char>>, installed: Seq<char>) -> Seq<Seq<char>>
    decreases ts.len(),
{
    if ts.len() == 0 {
        Seq::empty()
    } else if contains(installed, ts.last()) {
        missing_targets(ts.drop_last(), installed)
    } else {
        missing_targets(ts.drop_last(), installed).push(ts.last())
    }
}

/// The targets that `rustup target add` must install on host `os`, given what
/// `rustup target list --installed` printed: each wanted target that the
/// listing does not mention, in order (the macOS list comes after the common
/// one and is checked against the same listing).
pub fn install_build_targets(os: &str, installed: &str) -> (r: Vec<String>)
    ensures
        strs(r@) == missing_targets(wanted_targets(os@), installed@),
{
    let mut wanted: Vec<String> = Vec::new();
    wanted.push(owned("x86_64-unknown-linux-gnu"));
    wanted.push(owned("aarch64-unknown-linux-gnu"));
    wanted.push(owned("aarch64-linux-android"));
    wanted.push(owned("i686-linux-android"));
    wanted.push(owned("x86_64-linux-android"));
    wanted.push(owned("x86_64-pc-windows-gnu"));
    wanted.push(owned("wasm32-unknown-unknown"));
    if str_eq(os, "macos") {
        wanted.push(owned("aarch64-apple-ios"));
        wanted.push(owned("x86_64-apple-ios"));
        wanted.push(owned("aarch64-apple-ios-sim"));
        wanted.push(owned("x86_64-apple-darwin"));
        wanted.push(owned("aarch64-apple-darwin"));
        wanted.push(owned("x86_64-pc-windows-gnu"));
    }
    assert(strs(wanted@) =~= wanted_targets(os@));
    let ghost ws = strs(wanted@);
    let mut r: Vec<String> = Vec::new();
    let mut i: usize = 0;
    while i < wanted.len()
        invariant
            i <= wanted.len(),
            ws == strs(wanted@),
            strs(r@) == missing_targets(ws.take(i as int), installed@),
        decreases wanted.len() - i,
    {
        assert(ws.take(i + 1).drop_last() =~= ws.take(i as int));
        assert(ws.take(i + 1).last() == wanted@[i as int]@);
        let ghost before = strs(r@);
        if !str_contains(installed, wanted[i].as_str()) {
            r.push(owned(wanted[i].as_str()));
            assert(strs(r@) =~= before.push(wanted@[i as int]@));
        }
        i += 1;
    }
    assert(ws.take(wanted.len() as int) =~= ws);
    r
}

/// Where Homebrew lives: `/opt/homebrew` on an `aarch64` machine,
/// `/usr/local` otherwise.
pub fn brew_dir(aarch64: bool) -> (r: &'static str)
    ensures
        aarch64 ==> r@ == "/opt/homebrew"@,
        !aarch64 ==> r@ == "/usr/local"@,
{
    if aarch64 {
        "/opt/homebrew"
    } else {
        "/usr/local"
    }
}

/// The `homebrew_path` that installing Homebrew records: `<brew dir>/bin/brew`.
pub fn installed_brew_path(aarch64: bool) -> (r: String)
    ensures
        aarch64 ==> r@ == "/opt/homebrew/bin/brew"@,
        !aarch64 ==> r@ == "/usr/local/bin/brew"@,
{
    if aarch64 {
        owned("/opt/homebrew/bin/brew")
    } else {
        owned("/usr/local/bin/brew")
    }
}

/// The `homebrew_path` that the macOS toolchain records when Homebrew already
/// works: the directory `<brew dir>/bin`.
pub fn existing_brew_path(aarch64: bool) -> (r: String)
    ensures
        aarch64 ==> r@ == "/opt/homebrew/bin"@,
        !aarch64 ==> r@ == "/usr/local/bin"@,
{
    if aarch64 {
        owned("/opt/homebrew/bin")
    } else {
        owned("/usr/local/bin")
    }
}

/// Why no Command Line Tools package could be read from `softwareupdate -l`.
#[derive(Debug, Clone, Copy, PartialEq, Eq)]
pub enum CltError {
    /// No line offers Command Line Tools.
    NoPackage,
    /// The offering line has no word `Command` to start the name from.
    Unparsable,
}

/// A line of `softwareupdate -l` that offers Command Line Tools.
pub open spec fn offers_clt(l: Seq<char>) -> bool {
    contains(l, "*"@) && contains(l, "Command Line"@)
}

/// The last offering line.
pub open spec fn last_offer(ls: Seq<Seq<char>>) -> Option<Seq<char>>
    decreases ls.len(),
{
    if ls.len() == 0 {
        None
    } else if offers_clt(ls.last()) {
        Some(ls.last())
    } else {
        last_offer(ls.drop_last())
    }
}

/// `w` stands at `i` in `l` as a whole word between spaces (or the ends).
pub open spec fn word_at(l: Seq<char>, w: Seq<char>, i: int) -> bool {
    &&& occurs_at(l, w, i)
    &&& i == 0 || l[i - 1] == ' '
    &&& i + w.len() == l.len() || l[i + w.len()] == ' '
}

/// The first position at or after `i` where `w` stands as a word.
pub open spec fn word_from(l: Seq<char>, w: Seq<char>, i: int) -> Option<int>
    decreases l.len() + 1 - i,
{
    if i < 0 || i > l.len() {
        None
    } else if word_at(l, w, i) {
        Some(i)
    } else {
        word_from(l, w, i + 1)
    }
}

/// The package name in an offering line: the line from the word `Command` on
/// (what splitting at spaces, skipping to `Command` and joining gives).
pub open spec fn clt_name(l: Seq<char>) -> Seq<char> {
    match word_from(l, "Command"@, 0) {
        Some(i) => l.skip(i),
        None => Seq::empty(),
    }
}

/// The Command Line Tools package that `softwareupdate -l` offers last.
pub open spec fn clt_package(listing: Seq<char>) -> Result<Seq<char>, CltError> {
    match last_offer(lines(listing)) {
        None => Err(CltError::NoPackage),
        Some(l) => if clt_name(l).len() == 0 {
            Err(CltError::Unparsable)
        } else {
            Ok(clt_name(l))
        },
    }
}

/// Whether `w` stands as a word at `i`.
fn word_at_exec(l: &Vec<char>, w: &Vec<char>, i: usize) -> (r: bool)
    ensures
        r == word_at(l@, w@, i as int),
{
    if !occurs_at_chars(l, w, i) {
        return false;
    }
    let before_ok = i == 0 || l[i - 1] == ' ';
    let wl = w.len();
    let ll = l.len();
    assert(i + wl <= ll);
    let end = i + wl;
    let after_ok = end == l.len() || l[end] == ' ';
    before_ok && after_ok
}

/// The name of the package offered in a line.
fn clt_name_exec(l: &Vec<char>) -> (r: Vec<char>)
    ensures
        r@ == clt_name(l@),
{
    let w = chars_of("Command");
    proof {
        reveal_strlit("Command");
    }
    let mut i: usize = 0;
    while i < l.len()
        invariant
            w@ == "Command"@,
            w@.len() == 7,
            i <= l.len(),
            word_from(l@, w@, 0) == word_from(l@, w@, i as int),
        decreases l.len() - i,
    {
        if word_at_exec(l, &w, i) {
            let mut out: Vec<char> = Vec::new();
            let mut j: usize = i;
            while j < l.len()
                invariant
                    i <= j <= l.len(),
                    out@ == l@.subrange(i as int, j as int),
                decreases l.len() - j,
            {
                out.push(l[j]);
                j += 1;
                assert(out@ =~= l@.subrange(i as int, j as int));
            }
            assert(out@ =~= l@.skip(i as int));
            return out;
        }
        i += 1;
    }
    assert(!word_at(l@, w@, l@.len() as int));
    assert(word_from(l@, w@, l@.len() + 1int) is None);
    Vec::new()
}

/// Reads what `softwareupdate -l` printed for the Command Line Tools package
/// to install: the last line with `*` and `Command Line`, from its word
/// `Command` on.
pub fn command_line_tools_package(listing: &str) -> (r: Result<String, CltError>)
    ensures
        match clt_package(listing@) {
            Ok(n) => r matches Ok(s) && s@ == n,
            Err(e) => r == Err::<String, CltError>(e),
        },
{
    let ls = lines_chars(&chars_of(listing));
    let ghost lv = line_views(ls@);
    assert(lv == lines(listing@));
    let star = chars_of("*");
    let cl = chars_of("Command Line");
    let mut i: usize = ls.len();
    assert(lv.take(ls.len() as int) =~= lv);
    while i > 0
        invariant
            i <= ls.len(),
            lv == line_views(ls@),
            lv == lines(listing@),
            star@ == "*"@,
            cl@ == "Command Line"@,
            last_offer(lv) == last_offer(lv.take(i as int)),
        decreases i,
    {
        assert(lv.take(i as int).drop_last() =~= lv.take(i - 1));
        assert(lv.take(i as int).last() == ls@[i - 1]@);
        if crate::text::contains_chars(&ls[i - 1], &star) && crate::text::contains_chars(&ls[i - 1], &cl) {
            let name = clt_name_exec(&ls[i - 1]);
            if name.len() == 0 {
                return Err(CltError::Unparsable);
            }
            return Ok(string_of(&name));
        }
        i -= 1;
    }
    Err(CltError::NoPackage)
}

/// The global cargo configuration that makes the MinGW linker build Windows
/// targets, with the configured Homebrew path.
pub fn windows_linker_config(session: &Session) -> (r: Result<String, SessionError>)
    ensures
        match lookup_key(session.paths, PathKey::Homebrew) {
            Ok(h) => r matches Ok(c) && c@ == "[target.x86_64-pc-windows-gnu]\nlinker = \""@ + h
                + "/x86_64-w64-mingw32-gcc\"\n"@,
            Err(k) => r == Err::<String, SessionError>(SessionError::PathNotSet(k)),
        },
{
    match session.path_for(PathKey::Homebrew) {
        Ok(h) => Ok(concat3("[target.x86_64-pc-windows-gnu]\nlinker = \"", h.as_str(), "/x86_64-w64-mingw32-gcc\"\n")),
        Err(e) => Err(e),
    }
}

/// A tool path under the home directory: a path name and `<home><rest>`.
fn home_entry(name: &str, home: &str, rest: &str) -> (r: (String, String))
    ensures
        r.0@ == name@,
        r.1@ == home@ + rest@,
{
    (owned(name), concat(home, rest))
}

/// The tool paths that the Android toolchain records, in order: the SDK and
/// its tools under `<home>/Android/sdk`, the platform and NDK of the session's
/// versions, and the default Java binary.
pub open spec fn android_paths_of(home: Seq<char>, platform: Seq<char>, ndk: Seq<char>) -> Seq<(Seq<char>, Seq<char>)> {
    seq![
        ("sdk_path"@, home + "/Android/sdk"@),
        ("cmdline_tools_path"@, home + "/Android/sdk/cmdline-tools"@),
        ("build_tools_path"@, home + "/Android/sdk/build-tools/34.0.0"@),
        ("sdkmanager_path"@, home + "/Android/sdk/cmdline-tools/bin/sdkmanager"@),
        ("platform_tools_path"@, home + "/Android/sdk/platform-tools"@),
        ("platforms_path"@, home + "/Android/sdk"@ + "/platforms/android-"@ + platform),
        ("ndk_path"@, home + "/Android/sdk/ndk/"@ + ndk),
        ("ndk_bundle_path"@, home + "/Android/sdk/ndk-bundle"@),
        ("java_path"@, "/opt/homebrew/opt/openjdk@17/bin/java"@),
    ]
}

/// The tool paths that the Android toolchain records for the session, each a
/// path name and a path.
pub fn android_paths(session: &Session) -> (r: Vec<(String, String)>)
    ensures
        pairs_view(r@) == android_paths_of(session.home@, session.android_platform_version@, session.android_ndk_version@),
{
    let home = session.home.as_str();
    let mut v: Vec<(String, String)> = Vec::new();
    v.push(home_entry("sdk_path", home, "/Android/sdk"));
    v.push(home_entry("cmdline_tools_path", home, "/Android/sdk/cmdline-tools"));
    v.push(home_entry("build_tools_path", home, "/Android/sdk/build-tools/34.0.0"));
    v.push(home_entry("sdkmanager_path", home, "/Android/sdk/cmdline-tools/bin/sdkmanager"));
    v.push(home_entry("platform_tools_path", home, "/Android/sdk/platform-tools"));
    let sdk = concat(home, "/Android/sdk");
    v.push((owned("platforms_path"), concat3(sdk.as_str(), "/platforms/android-", session.android_platform_version.as_str())));
    v.push((owned("ndk_path"), concat3(home, "/Android/sdk/ndk/", session.android_ndk_version.as_str())));
    v.push(home_entry("ndk_bundle_path", home, "/Android/sdk/ndk-bundle"));
    v.push((owned("java_path"), owned("/opt/homebrew/opt/openjdk@17/bin/java")));
    assert(pairs_view(v@) =~= android_paths_of(session.home@, session.android_platform_version@, session.android_ndk_version@));
    v
}

/// How OpenJDK 17 is installed.
#[derive(Debug)]
pub enum JdkInstall {
    /// `apt install -y openjdk-17-jdk` after `apt update`.
    Apt,
    /// `<brew> install openjdk@17` run as `user`.
    Brew { user: String, brew: String },
}

/// The Java setup of a host: the Java home, the address of the Android command
/// line tools, how to install the JDK, and the `java_path` to record instead
/// of the default, if any.
#[derive(Debug)]
pub struct JdkSetup {
    pub java_home: String,
    pub sdk_url: String,
    pub install: JdkInstall,
    pub java_path: Option<String>,
}

/// The Java home of OpenJDK 17 from Homebrew on macOS.
pub open spec fn mac_java_home(aarch64: bool) -> Seq<char> {
    if aarch64 {
        "/opt/homebrew/opt/openjdk@17"@
    } else {
        "/usr/local/opt/openjdk@17"@
    }
}

/// The Java setup of host `os` (`aarch64` for an ARM machine), given the user
/// that started the installer with `sudo`: Linux uses the system JDK and apt;
/// macOS needs the invoking user, uses Homebrew's JDK (recorded as
/// `java_path`) and installs it with the Homebrew whose prefix the Java home
/// has; other hosts are not supported.
pub fn jdk_setup(os: &str, aarch64: bool, sudo_user: Option<String>) -> (r: Result<JdkSetup, ToolchainError>)
    ensures
        os@ == "linux"@ ==> (r matches Ok(j) && {
            &&& j.java_home@ == "/usr/lib/jvm/java-17-openjdk-amd64"@
            &&& j.sdk_url@ == "https://dl.google.com/android/repository/commandlinetools-linux-11076708_latest.zip"@
            &&& j.install is Apt
            &&& j.java_path is None
        }),
        os@ == "macos"@ && sudo_user is None ==> (r matches Err(ToolchainError::SudoUserMissing)),
        os@ == "macos"@ && sudo_user is Some ==> (r matches Ok(j) && {
            &&& j.java_home@ == mac_java_home(aarch64)
            &&& j.sdk_url@ == "https://dl.google.com/android/repository/commandlinetools-mac-11076708_latest.zip"@
            &&& j.install matches JdkInstall::Brew { user, brew } && user@ == opt_view(sudo_user)->Some_0
                && (aarch64 ==> brew@ == "/opt/homebrew/bin/brew"@)
                && (!aarch64 ==> brew@ == "/usr/local/bin/brew"@)
            &&& opt_view(j.java_path) == Some(mac_java_home(aarch64))
        }),
        os@ != "linux"@ && os@ != "macos"@ ==> (r matches Err(ToolchainError::UnsupportedOs(n)) && n@ == os@),
{
    proof {
        reveal_strlit("linux");
        reveal_strlit("macos");
        assert("linux"@[0] != "macos"@[0]);
    }
    if str_eq(os, "linux") {
        return Ok(JdkSetup {
            java_home: owned("/usr/lib/jvm/java-17-openjdk-amd64"),
            sdk_url: owned("https://dl.google.com/android/repository/commandlinetools-linux-11076708_latest.zip"),
            install: JdkInstall::Apt,
            java_path: None,
        });
    }
    if !str_eq(os, "macos") {
        return Err(ToolchainError::UnsupportedOs(owned(os)));
    }
    let user = match sudo_user {
        Some(u) => u,
        None => return Err(ToolchainError::SudoUserMissing),
    };
    let java_home = if aarch64 {
        owned("/opt/homebrew/opt/openjdk@17")
    } else {
        owned("/usr/local/opt/openjdk@17")
    };
    proof {
        reveal_strlit("/opt/homebrew");
        reveal_strlit("/opt/homebrew/opt/openjdk@17");
        reveal_strlit("/usr/local/opt/openjdk@17");
        assert(crate::text::starts_with("/opt/homebrew/opt/openjdk@17"@, "/opt/homebrew"@)) by {
            assert("/opt/homebrew/opt/openjdk@17"@.take(13) =~= "/opt/homebrew"@);
        }
        assert(!crate::text::starts_with("/usr/local/opt/openjdk@17"@, "/opt/homebrew"@)) by {
            assert("/usr/local/opt/openjdk@17"@.take(13)[1] != "/opt/homebrew"@[1]);
        }
    }
    let brew = if crate::text::starts_with_chars(&chars_of(java_home.as_str()), &chars_of("/opt/homebrew")) {
        owned("/opt/homebrew/bin/brew")
    } else {
        owned("/usr/local/bin/brew")
    };
    Ok(JdkSetup {
        java_path: Some(owned(java_home.as_str())),
        java_home,
        sdk_url: owned("https://dl.google.com/android/repository/commandlinetools-mac-11076708_latest.zip"),
        install: JdkInstall::Brew { user, brew },
    })
}

/// Whether `java -version` reported OpenJDK: its error output, in lower case,
/// mentions `openjdk`.
pub fn java_is_openjdk(version_stderr: &str) -> (r: bool)
    ensures
        r == contains(lowercase(version_stderr@), "openjdk"@),
{
    let lower = to_lowercase(version_stderr);
    str_contains(lower.as_str(), "openjdk")
}

/// Whether the JDK must be installed: Java did not answer as OpenJDK, or there
/// is no Java home.
pub fn needs_jdk(java_ok: bool, java_home: &str) -> (r: bool)
    ensures
        r == (!java_ok || java_home@.len() == 0),
{
    !java_ok || chars_of(java_home).len() == 0
}

/// Whether an Android SDK is already set up: `sdkmanager`, the platform tools
/// and the platform exist, and so does the NDK or the NDK bundle.
pub fn sdk_configured(sdkmanager: bool, platform_tools: bool, platforms: bool, ndk: bool, ndk_bundle: bool) -> (r: bool)
    ensures
        r == (sdkmanager && platform_tools && platforms && (ndk || ndk_bundle)),
{
    sdkmanager && platform_tools && platforms && (ndk || ndk_bundle)
}

/// The SDK packages that `sdkmanager` installs, in order.
pub fn sdk_packages(session: &Session) -> (r: Vec<String>)
    ensures
        strs(r@) == seq![
            "platform-tools"@,
            "build-tools;34.0.0"@,
            "platforms;android-"@ + session.android_platform_version@,
            "ndk;"@ + session.android_ndk_version@,
        ],
{
    let mut v: Vec<String> = Vec::new();
    v.push(owned("platform-tools"));
    v.push(owned("build-tools;34.0.0"));
    v.push(concat("platforms;android-", session.android_platform_version.as_str()));
    v.push(concat("ndk;", session.android_ndk_version.as_str()));
    assert(strs(v@) =~= seq![
        "platform-tools"@,
        "build-tools;34.0.0"@,
        "platforms;android-"@ + session.android_platform_version@,
        "ndk;"@ + session.android_ndk_version@,
    ]);
    v
}

/// The `--sdk_root=<sdk>` argument of `sdkmanager`, with the configured SDK path.
pub fn sdk_root_arg(session: &Session) -> (r: Result<String, SessionError>)
    ensures
        match lookup_key(session.paths, PathKey::Sdk) {
            Ok(d) => r matches Ok(a) && a@ == "--sdk_root="@ + d,
            Err(k) => r == Err::<String, SessionError>(SessionError::PathNotSet(k)),
        },
{
    match session.path_for(PathKey::Sdk) {
        Ok(d) => Ok(concat("--sdk_root=", d.as_str())),
        Err(e) => Err(e),
    }
}

/// Where the Android command line tools are downloaded: `<home>/cmdline-tools.zip`.
pub fn tools_download(session: &Session) -> (r: String)
    ensures
        r@ == session.home@ + "/cmdline-tools.zip"@,
{
    concat(session.home.as_str(), "/cmdline-tools.zip")
}

/// A cargo subcommand installed under `<home>/.cargo/bin`, as a tool path: a
/// path name and its path.
pub fn cargo_tool_path(session: &Session, name: &str, binary: &str) -> (r: (String, String))
    ensures
        r.0@ == name@,
        r.1@ == session.home@ + "/.cargo/bin/"@ + binary@,
{
    (owned(name), concat3(session.home.as_str(), "/.cargo/bin/", binary))
}

} // verus!
