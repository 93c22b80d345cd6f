//! The session: the host OS, the user's home, the projects directory, the
//! loaded project, and the tool paths kept in the `.ramp` configuration file.
use vstd::prelude::*;
use crate::text::{
    chars_of, concat, lines, lines_chars, opt_view, split_once, split_once_chars, starts_with, str_eq,
    string_of, trim, trim_chars,
};

verus! {

/// The tool paths a session keeps.
#[derive(Clone, Copy, Debug, PartialEq, Eq, Structural)]
pub enum PathKey {
    Sdk,
    Ndk,
    Cargo,
    CargoApk,
    Zigbuild,
    Rustup,
    Homebrew,
    CmdlineTools,
    BuildTools,
    Sdkmanager,
    PlatformTools,
    Platforms,
    NdkBundle,
    Java,
    Keystore,
}

/// The name of a tool path, as the configuration file and callers write it.
pub open spec fn key_name(k: PathKey) -> Seq<char> {
    match k {
        PathKey::Sdk => "sdk_path"@,
        PathKey::Ndk => "ndk_path"@,
        PathKey::Cargo => "cargo_path"@,
        PathKey::CargoApk => "cargo_apk_path"@,
        PathKey::Zigbuild => "zigbuild_path"@,
        PathKey::Rustup => "rustup_path"@,
        PathKey::Homebrew => "homebrew_path"@,
        PathKey::CmdlineTools => "cmdline_tools_path"@,
        PathKey::BuildTools => "build_tools_path"@,
        PathKey::Sdkmanager => "sdkmanager_path"@,
        PathKey::PlatformTools => "platform_tools_path"@,
        PathKey::Platforms => "platforms_path"@,
        PathKey::NdkBundle => "ndk_bundle_path"@,
        PathKey::Java => "java_path"@,
        PathKey::Keystore => "keystore_path"@,
    }
}

/// The tool path that a name denotes, if any.
pub open spec fn key_named(n: Seq<char>) -> Option<PathKey> {
    if n == "sdk_path"@ {
        Some(PathKey::Sdk)
    } else if n == "ndk_path"@ {
        Some(PathKey::Ndk)
    } else if n == "cargo_path"@ {
        Some(PathKey::Cargo)
    } else if n == "cargo_apk_path"@ {
        Some(PathKey::CargoApk)
    } else if n == "zigbuild_path"@ {
        Some(PathKey::Zigbuild)
    } else if n == "rustup_path"@ {
        Some(PathKey::Rustup)
    } else if n == "homebrew_path"@ {
        Some(PathKey::Homebrew)
    } else if n == "cmdline_tools_path"@ {
        Some(PathKey::CmdlineTools)
    } else if n == "build_tools_path"@ {
        Some(PathKey::BuildTools)
    } else if n == "sdkmanager_path"@ {
        Some(PathKey::Sdkmanager)
    } else if n == "platform_tools_path"@ {
        Some(PathKey::PlatformTools)
    } else if n == "platforms_path"@ {
        Some(PathKey::Platforms)
    } else if n == "ndk_bundle_path"@ {
        Some(PathKey::NdkBundle)
    } else if n == "java_path"@ {
        Some(PathKey::Java)
    } else if n == "keystore_path"@ {
        Some(PathKey::Keystore)
    } else {
        None
    }
}

/// The slot that a lookup of `k` reads: the lookup of the keystore path reads
/// the Java path's slot, every other lookup reads its own.
pub open spec fn read_slot(k: PathKey) -> PathKey {
    if k == PathKey::Keystore {
        PathKey::Java
    } else {
        k
    }
}

impl PathKey {
    /// The tool path with the given name.
    pub fn from_name(name: &str) -> (r: Option<PathKey>)
        ensures
            r == key_named(name@),
    {
        if str_eq(name, "sdk_path") {
            Some(PathKey::Sdk)
        } else if str_eq(name, "ndk_path") {
            Some(PathKey::Ndk)
        } else if str_eq(name, "cargo_path") {
            Some(PathKey::Cargo)
        } else if str_eq(name, "cargo_apk_path") {
            Some(PathKey::CargoApk)
        } else if str_eq(name, "zigbuild_path") {
            Some(PathKey::Zigbuild)
        } else if str_eq(name, "rustup_path") {
            Some(PathKey::Rustup)
        } else if str_eq(name, "homebrew_path") {
            Some(PathKey::Homebrew)
        } else if str_eq(name, "cmdline_tools_path") {
            Some(PathKey::CmdlineTools)
        } else if str_eq(name, "build_tools_path") {
            Some(PathKey::BuildTools)
        } else if str_eq(name, "sdkmanager_path") {
            Some(PathKey::Sdkmanager)
        } else if str_eq(name, "platform_tools_path") {
            Some(PathKey::PlatformTools)
        } else if str_eq(name, "platforms_path") {
            Some(PathKey::Platforms)
        } else if str_eq(name, "ndk_bundle_path") {
            Some(PathKey::NdkBundle)
        } else if str_eq(name, "java_path") {
            Some(PathKey::Java)
        } else if str_eq(name, "keystore_path") {
            Some(PathKey::Keystore)
        } else {
            None
        }
    }

    /// The name of this tool path.
    pub fn name(&self) -> (r: &'static str)
        ensures
            r@ == key_name(*self),
    {
        match self {
            PathKey::Sdk => "sdk_path",
            PathKey::Ndk => "ndk_path",
            PathKey::Cargo => "cargo_path",
            PathKey::CargoApk => "cargo_apk_path",
            PathKey::Zigbuild => "zigbuild_path",
            PathKey::Rustup => "rustup_path",
            PathKey::Homebrew => "homebrew_path",
            PathKey::CmdlineTools => "cmdline_tools_path",
            PathKey::BuildTools => "build_tools_path",
            PathKey::Sdkmanager => "sdkmanager_path",
            PathKey::PlatformTools => "platform_tools_path",
            PathKey::Platforms => "platforms_path",
            PathKey::NdkBundle => "ndk_bundle_path",
            PathKey::Java => "java_path",
            PathKey::Keystore => "keystore_path",
        }
    }
}

/// The tool paths, each unset until configured.
#[derive(Clone, Debug)]
pub struct Paths {
    pub sdk_path: Option<String>,
    pub ndk_path: Option<String>,
    pub cargo_path: Option<String>,
    pub cargo_apk_path: Option<String>,
    pub zigbuild_path: Option<String>,
    pub rustup_path: Option<String>,
    pub homebrew_path: Option<String>,
    pub cmdline_tools_path: Option<String>,
    pub build_tools_path: Option<String>,
    pub sdkmanager_path: Option<String>,
    pub platform_tools_path: Option<String>,
    pub platforms_path: Option<String>,
    pub ndk_bundle_path: Option<String>,
    pub java_path: Option<String>,
    pub keystore_path: Option<String>,
}

impl Paths {
    /// The slot of `k`.
    pub open spec fn slot(&self, k: PathKey) -> Option<String> {
        match k {
            PathKey::Sdk => self.sdk_path,
            PathKey::Ndk => self.ndk_path,
            PathKey::Cargo => self.cargo_path,
            PathKey::CargoApk => self.cargo_apk_path,
            PathKey::Zigbuild => self.zigbuild_path,
            PathKey::Rustup => self.rustup_path,
            PathKey::Homebrew => self.homebrew_path,
            PathKey::CmdlineTools => self.cmdline_tools_path,
            PathKey::BuildTools => self.build_tools_path,
            PathKey::Sdkmanager => self.sdkmanager_path,
            PathKey::PlatformTools => self.platform_tools_path,
            PathKey::Platforms => self.platforms_path,
            PathKey::NdkBundle => self.ndk_bundle_path,
            PathKey::Java => self.java_path,
            PathKey::Keystore => self.keystore_path,
        }
    }

    /// The text in the slot of `k`.
    pub open spec fn value(&self, k: PathKey) -> Option<Seq<char>> {
        opt_view(self.slot(k))
    }

    /// All paths unset.
    pub fn empty() -> (p: Paths)
        ensures
            forall|k: PathKey| p.value(k) is None,
    {
        Paths {
            sdk_path: None,
            ndk_path: None,
            cargo_path: None,
            cargo_apk_path: None,
            zigbuild_path: None,
            rustup_path: None,
            homebrew_path: None,
            cmdline_tools_path: None,
            build_tools_path: None,
            sdkmanager_path: None,
            platform_tools_path: None,
            platforms_path: None,
            ndk_bundle_path: None,
            java_path: None,
            keystore_path: None,
        }
    }

    /// The slot of `k`.
    pub fn get(&self, k: PathKey) -> (r: Option<String>)
        ensures
            opt_view(r) == self.value(k),
    {
        match k {
            PathKey::Sdk => self.sdk_path.clone(),
            PathKey::Ndk => self.ndk_path.clone(),
            PathKey::Cargo => self.cargo_path.clone(),
            PathKey::CargoApk => self.cargo_apk_path.clone(),
            PathKey::Zigbuild => self.zigbuild_path.clone(),
            PathKey::Rustup => self.rustup_path.clone(),
            PathKey::Homebrew => self.homebrew_path.clone(),
            PathKey::CmdlineTools => self.cmdline_tools_path.clone(),
            PathKey::BuildTools => self.build_tools_path.clone(),
            PathKey::Sdkmanager => self.sdkmanager_path.clone(),
            PathKey::PlatformTools => self.platform_tools_path.clone(),
            PathKey::Platforms => self.platforms_path.clone(),
            PathKey::NdkBundle => self.ndk_bundle_path.clone(),
            PathKey::Java => self.java_path.clone(),
            PathKey::Keystore => self.keystore_path.clone(),
        }
    }

    /// Puts `v` in the slot of `k`; every other slot is unchanged.
    pub fn set(&mut self, k: PathKey, v: String)
        ensures
            final(self).value(k) == Some(v@),
            forall|j: PathKey| j != k ==> final(self).value(j) == old(self).value(j),
    {
        match k {
            PathKey::Sdk => self.sdk_path = Some(v),
            PathKey::Ndk => self.ndk_path = Some(v),
            PathKey::Cargo => self.cargo_path = Some(v),
            PathKey::CargoApk => self.cargo_apk_path = Some(v),
            PathKey::Zigbuild => self.zigbuild_path = Some(v),
            PathKey::Rustup => self.rustup_path = Some(v),
            PathKey::Homebrew => self.homebrew_path = Some(v),
            PathKey::CmdlineTools => self.cmdline_tools_path = Some(v),
            PathKey::BuildTools => self.build_tools_path = Some(v),
            PathKey::Sdkmanager => self.sdkmanager_path = Some(v),
            PathKey::PlatformTools => self.platform_tools_path = Some(v),
            PathKey::Platforms => self.platforms_path = Some(v),
            PathKey::NdkBundle => self.ndk_bundle_path = Some(v),
            PathKey::Java => self.java_path = Some(v),
            PathKey::Keystore => self.keystore_path = Some(v),
        }
    }
}

/// Signing identities.
#[derive(Clone, Debug)]
pub struct Certs {
    /// The macOS code-signing identity.
    pub macos: String,
}

/// Why a session operation failed.
#[derive(Clone, Debug, PartialEq, Eq)]
pub enum SessionError {
    /// The requested project directory does not exist.
    ProjectNotFound,
    /// The project directory has no `.ramp` marker.
    NotRampProject,
    /// `set_path` was given a name that is no tool path.
    UnknownPathName,
    /// `get_path` was given a name that is no tool path.
    UnknownKey(String),
    /// The tool path is not configured.
    PathNotSet(PathKey),
}

/// The state of one run of the tool.
#[derive(Clone, Debug)]
pub struct Session {
    pub os: String,
    pub home: String,
    pub projects_path: Option<String>,
    pub current_project: Option<String>,
    pub paths: Paths,
    pub certs: Certs,
    pub android_ndk_version: String,
    pub android_platform_version: String,
}

/// The projects directory for a host OS and home directory: `<home>/ramp` on
/// Linux and macOS, none elsewhere.
pub open spec fn projects_dir_for(os: Seq<char>, home: Seq<char>) -> Option<Seq<char>> {
    if os == "linux"@ || os == "macos"@ {
        Some(home + "/ramp"@)
    } else {
        None
    }
}

/// The text of an optional value, empty when there is none.
pub open spec fn or_empty(o: Option<Seq<char>>) -> Seq<char> {
    match o {
        Some(s) => s,
        None => Seq::empty(),
    }
}

/// What the lookup of the tool path `k` gives: the text of the slot it reads,
/// or `k` when that slot is unset.
pub open spec fn lookup_key(paths: Paths, k: PathKey) -> Result<Seq<char>, PathKey> {
    match paths.value(read_slot(k)) {
        Some(v) => Ok(v),
        None => Err(k),
    }
}

/// What `get_path` gives for a name: an unknown name is an error, a known name
/// gives the slot it reads, or an error when that slot is unset.
pub open spec fn lookup(paths: Paths, key: Seq<char>) -> Option<Result<Seq<char>, PathKey>> {
    match key_named(key) {
        None => None,
        Some(k) => match paths.value(read_slot(k)) {
            Some(v) => Some(Ok(v)),
            None => Some(Err(k)),
        },
    }
}

/// The value that a line of the configuration file gives `k`, if any: the line
/// splits at its first `=` into a name and a value, each trimmed.
pub open spec fn line_sets(line: Seq<char>, k: PathKey) -> Option<Seq<char>> {
    match split_once(line, '=') {
        Some((a, b)) => if key_named(trim(a)) == Some(k) {
            Some(trim(b))
        } else {
            None
        },
        None => None,
    }
}

/// The value of `k` after reading the lines `ls` in order, starting from `init`:
/// the last line that sets `k` decides.
pub open spec fn config_value(ls: Seq<Seq<char>>, k: PathKey, init: Option<Seq<char>>) -> Option<Seq<char>>
    decreases ls.len(),
{
    if ls.len() == 0 {
        init
    } else {
        match line_sets(ls.last(), k) {
            Some(v) => Some(v),
            None => config_value(ls.drop_last(), k, init),
        }
    }
}

/// The text of lines, each ended by `'\n'`.
pub open spec fn join_lines(ls: Seq<Seq<char>>) -> Seq<char>
    decreases ls.len(),
{
    if ls.len() == 0 {
        Seq::empty()
    } else {
        join_lines(ls.drop_last()) + ls.last() + seq!['\n']
    }
}

/// The configuration line that records `name` as `value`.
pub open spec fn config_entry(name: Seq<char>, value: Seq<char>) -> Seq<char> {
    name.push('=') + value
}

/// One line of the configuration after recording `name` as `value`: the new
/// entry when the line begins with `name=`, else the line itself.
pub open spec fn rewrite_line(l: Seq<char>, name: Seq<char>, value: Seq<char>) -> Seq<char> {
    if starts_with(l, name.push('=')) {
        config_entry(name, value)
    } else {
        l
    }
}

/// The lines of the configuration after recording `name` as `value`: each line
/// that begins with `name=` becomes the new entry; when there was none, the
/// entry is appended.
pub open spec fn rewritten_lines(old_lines: Seq<Seq<char>>, name: Seq<char>, value: Seq<char>) -> Seq<Seq<char>> {
    let prefix = name.push('=');
    let replaced = old_lines.map_values(|l: Seq<char>| rewrite_line(l, name, value));
    if exists|i: int| 0 <= i < old_lines.len() && starts_with(#[trigger] old_lines[i], prefix) {
        replaced
    } else {
        replaced.push(config_entry(name, value))
    }
}

/// The lines of an optional configuration text; none when there is no file.
pub open spec fn config_lines(config: Option<Seq<char>>) -> Seq<Seq<char>> {
    match config {
        Some(t) => lines(t),
        None => Seq::empty(),
    }
}

impl Session {
    /// A fresh session for a host OS and the user's home directory: the projects
    /// directory is `<home>/ramp` on Linux and macOS and unset elsewhere, no project
    /// is loaded and no tool path is set.
    pub fn new(os: &str, home: String) -> (s: Session)
        ensures
            s.os@ == os@,
            s.home@ == home@,
            opt_view(s.projects_path) == projects_dir_for(os@, home@),
            s.current_project is None,
            forall|k: PathKey| s.paths.value(k) is None,
            s.certs.macos@ == "Apple Development"@,
            s.android_ndk_version@ == "26.1.10909125"@,
            s.android_platform_version@ == "31"@,
    {
        let projects_path = if str_eq(os, "linux") || str_eq(os, "macos") {
            Some(concat(home.as_str(), "/ramp"))
        } else {
            None
        };
        Session {
            os: string_of(&chars_of(os)),
            home,
            projects_path,
            current_project: None,
            paths: Paths::empty(),
            certs: Certs { macos: string_of(&chars_of("Apple Development")) },
            android_ndk_version: string_of(&chars_of("26.1.10909125")),
            android_platform_version: string_of(&chars_of("31")),
        }
    }

    /// The directory of the project `name`: `<projects_path>/<name>`, with an
    /// empty projects path when none is set.
    pub open spec fn project_dir_of(&self, name: Seq<char>) -> Seq<char> {
        or_empty(opt_view(self.projects_path)) + "/"@ + name
    }

    /// The directory of the project `name`.
    pub fn project_dir(&self, name: &str) -> (r: String)
        ensures
            r@ == self.project_dir_of(name@),
    {
        let base = match &self.projects_path {
            Some(p) => concat(p.as_str(), "/"),
            None => string_of(&chars_of("/")),
        };
        assert(Seq::<char>::empty() + "/"@ =~= "/"@);
        concat(base.as_str(), name)
    }

    /// The marker file that makes a directory a project: `<project_dir>/.ramp`.
    pub fn project_marker(&self, name: &str) -> (r: String)
        ensures
            r@ == self.project_dir_of(name@) + "/.ramp"@,
    {
        let d = self.project_dir(name);
        concat(d.as_str(), "/.ramp")
    }

    /// Loads the project `name`, given whether its directory exists and whether
    /// that directory holds the `.ramp` marker. On success the project becomes
    /// the current one; on failure the session is unchanged.
    pub fn update_current_project(&mut self, name: String, project_exists: bool, marker_exists: bool) -> (r: Result<(), SessionError>)
        ensures
            !project_exists ==> r == Err::<(), SessionError>(SessionError::ProjectNotFound),
            project_exists && !marker_exists ==> r == Err::<(), SessionError>(SessionError::NotRampProject),
            project_exists && marker_exists ==> r is Ok,
            r is Ok ==> opt_view(final(self).current_project) == Some(name@),
            r is Err ==> final(self).current_project == old(self).current_project,
            final(self).os == old(self).os,
            final(self).home == old(self).home,
            final(self).projects_path == old(self).projects_path,
            final(self).paths == old(self).paths,
            final(self).certs == old(self).certs,
            final(self).android_ndk_version == old(self).android_ndk_version,
            final(self).android_platform_version == old(self).android_platform_version,
    {
        if !project_exists {
            return Err(SessionError::ProjectNotFound);
        }
        if marker_exists {
            self.current_project = Some(name);
            Ok(())
        } else {
            Err(SessionError::NotRampProject)
        }
    }

    /// Records `file_path` as the tool path named `path_name`. An unknown name is
    /// an error and leaves the session unchanged.
    pub fn set_path(&mut self, path_name: &str, file_path: String) -> (r: Result<(), SessionError>)
        ensures
            key_named(path_name@) is None ==> r == Err::<(), SessionError>(SessionError::UnknownPathName)
                && final(self).paths == old(self).paths,
            key_named(path_name@) matches Some(k) ==> r is Ok && final(self).paths.value(k) == Some(file_path@)
                && forall|j: PathKey| j != k ==> final(self).paths.value(j) == old(self).paths.value(j),
            final(self).os == old(self).os,
            final(self).home == old(self).home,
            final(self).projects_path == old(self).projects_path,
            final(self).current_project == old(self).current_project,
            final(self).certs == old(self).certs,
            final(self).android_ndk_version == old(self).android_ndk_version,
            final(self).android_platform_version == old(self).android_platform_version,
    {
        match PathKey::from_name(path_name) {
            Some(k) => {
                self.paths.set(k, file_path);
                Ok(())
            },
            None => Err(SessionError::UnknownPathName),
        }
    }

    /// The tool path named `key`. An unknown name is an error carrying the name;
    /// a known name whose slot is unset is an error naming it. The lookup of
    /// `keystore_path` reads the slot of `java_path`.
    pub fn get_path(&self, key: &str) -> (r: Result<String, SessionError>)
        ensures
            lookup(self.paths, key@) is None ==> (r matches Err(SessionError::UnknownKey(n)) && n@ == key@),
            lookup(self.paths, key@) matches Some(Ok(v)) ==> (r matches Ok(s) && s@ == v),
            lookup(self.paths, key@) matches Some(Err(k)) ==> r == Err::<String, SessionError>(SessionError::PathNotSet(k)),
    {
        match PathKey::from_name(key) {
            None => Err(SessionError::UnknownKey(string_of(&chars_of(key)))),
            Some(k) => {
                let slot = match k {
                    PathKey::Keystore => PathKey::Java,
                    _ => k,
                };
                match self.paths.get(slot) {
                    Some(v) => Ok(v),
                    None => Err(SessionError::PathNotSet(k)),
                }
            },
        }
    }

    /// The tool path `k`, read as `get_path` reads it by name.
    pub fn path_for(&self, k: PathKey) -> (r: Result<String, SessionError>)
        ensures
            lookup_key(self.paths, k) matches Ok(v) ==> (r matches Ok(s) && s@ == v),
            lookup_key(self.paths, k) matches Err(e) ==> r == Err::<String, SessionError>(SessionError::PathNotSet(e)),
    {
        let slot = match k {
            PathKey::Keystore => PathKey::Java,
            _ => k,
        };
        match self.paths.get(slot) {
            Some(v) => Ok(v),
            None => Err(SessionError::PathNotSet(k)),
        }
    }

    /// Reads the tool paths from the text of the configuration file (`None` when
    /// there is no file, which keeps every path). Each line that splits at its
    /// first `=` into a known name and a value sets that path to the trimmed
    /// value; the last such line for a path decides. Other lines are ignored.
    pub fn get_all_paths(&mut self, config: Option<String>)
        ensures
            forall|k: PathKey| #[trigger] final(self).paths.value(k) == config_value(
                config_lines(opt_view(config)),
                k,
                old(self).paths.value(k),
            ),
            final(self).os == old(self).os,
            final(self).home == old(self).home,
            final(self).projects_path == old(self).projects_path,
            final(self).current_project == old(self).current_project,
            final(self).certs == old(self).certs,
            final(self).android_ndk_version == old(self).android_ndk_version,
            final(self).android_platform_version == old(self).android_platform_version,
    {
        let text = match config {
            Some(t) => t,
            None => {
                return ;
            },
        };
        let ghost start = self.paths;
        let all = lines_chars(&chars_of(text.as_str()));
        let ghost ls = all@.map_values(|l: Vec<char>| l@);
        assert(ls == config_lines(opt_view(Some(text))));
        let mut i: usize = 0;
        while i < all.len()
            invariant
                i <= all.len(),
                ls == all@.map_values(|l: Vec<char>| l@),
                forall|k: PathKey| #[trigger] self.paths.value(k) == config_value(ls.take(i as int), k, start.value(k)),
                self.os == old(self).os,
                self.home == old(self).home,
                self.projects_path == old(self).projects_path,
                self.current_project == old(self).current_project,
                self.certs == old(self).certs,
                self.android_ndk_version == old(self).android_ndk_version,
                self.android_platform_version == old(self).android_platform_version,
            decreases all.len() - i,
        {
            let ghost before = self.paths;
            let ghost line = ls[i as int];
            assert(ls.take(i + 1).drop_last() =~= ls.take(i as int));
            assert(ls.take(i + 1).last() == line);
            match split_once_chars(&all[i], '=') {
                Some((a, b)) => {
                    let name = string_of(&trim_chars(&a));
                    match PathKey::from_name(name.as_str()) {
                        Some(k) => {
                            let v = string_of(&trim_chars(&b));
                            self.paths.set(k, v);
                            assert forall|j: PathKey| #[trigger] self.paths.value(j) == config_value(ls.take(i + 1), j, start.value(j)) by {
                                if j == k {
                                    assert(line_sets(line, j) == Some(trim(b@)));
                                } else {
                                    assert(line_sets(line, j) is None);
                                }
                            }
                        },
                        None => {
                            assert forall|j: PathKey| #[trigger] self.paths.value(j) == config_value(ls.take(i + 1), j, start.value(j)) by {
                                assert(line_sets(line, j) is None);
                            }
                        },
                    }
                },
                None => {
                    assert forall|j: PathKey| #[trigger] self.paths.value(j) == config_value(ls.take(i + 1), j, start.value(j)) by {
                        assert(line_sets(line, j) is None);
                    }
                },
            }
            i += 1;
        }
        assert(ls.take(all.len() as int) =~= ls);
    }
}

} // verus!
