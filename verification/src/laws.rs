//! Properties that relate several operations of the library.
use vstd::prelude::*;
use crate::text::contains;
use crate::session::{key_name, key_named, lookup, or_empty, read_slot, PathKey, Paths, Session};
use crate::helper::capitalized;
use crate::config::{law_config_read_back, law_record_twice, lemma_key_names};
use crate::session::{config_lines, config_value, join_lines, line_sets, rewritten_lines};
use crate::text::{lines, starts_with, strip_cr, trim};
use crate::toolchain::{android_paths_of, missing_targets};
use crate::template::{template_plan, TemplateStepView};
use crate::signing::app_bundle_of;
use crate::icons::project_root;
use crate::builder::{build_command, build_plan, cargo_args, release_flag};
use crate::text::ends_with;
use crate::device::{lists_device, provisioned_devices, udid_length_ok, udid_pattern};
use crate::text::occurs_at;
use crate::toolchain::wanted_targets;
use crate::manifest::{activity_at, launch_payload, manifest_scan, quoted};
use crate::text::opt_view;

verus! {

/// Setting a tool path and reading it back by its name gives the value set,
/// for every tool path but `keystore_path`, whose reading goes to the slot of
/// `java_path`. Reading any name whose slot is another path gives what it gave
/// before. (`old_paths` and `new_paths` are the paths before and after a
/// successful `set_path` of `k` to `v`, as its contract describes them.)
pub proof fn law_get_path_after_set_path(old_paths: Paths, new_paths: Paths, k: PathKey, v: Seq<char>)
    requires
        k != PathKey::Keystore,
        new_paths.value(k) == Some(v),
        forall|j: PathKey| j != k ==> new_paths.value(j) == old_paths.value(j),
    ensures
        lookup(new_paths, key_name(k)) == Some(Ok::<Seq<char>, PathKey>(v)),
        forall|n: Seq<char>|
            #![trigger lookup(new_paths, n)]
            key_named(n) is None || read_slot(key_named(n)->0) != k ==> lookup(new_paths, n) == lookup(old_paths, n),
{
    lemma_key_names(k);
}

/// Every tool path that the installers record is named by a name that
/// `set_path` accepts: the Android paths, the Rust toolchain paths, the cargo
/// subcommands, Homebrew and the keystore.
pub proof fn law_recorded_paths_are_known(home: Seq<char>, platform: Seq<char>, ndk: Seq<char>)
    ensures
        forall|i: int|
            0 <= i < android_paths_of(home, platform, ndk).len() ==> #[trigger] key_named(
                android_paths_of(home, platform, ndk)[i].0,
            ) is Some,
        key_named("cargo_path"@) is Some,
        key_named("rustup_path"@) is Some,
        key_named("cargo_apk_path"@) is Some,
        key_named("zigbuild_path"@) is Some,
        key_named("homebrew_path"@) is Some,
        key_named("keystore_path"@) is Some,
{
    lemma_key_names(PathKey::Sdk);
    lemma_key_names(PathKey::CmdlineTools);
    lemma_key_names(PathKey::BuildTools);
    lemma_key_names(PathKey::Sdkmanager);
    lemma_key_names(PathKey::PlatformTools);
    lemma_key_names(PathKey::Platforms);
    lemma_key_names(PathKey::Ndk);
    lemma_key_names(PathKey::NdkBundle);
    lemma_key_names(PathKey::Java);
    lemma_key_names(PathKey::Cargo);
    lemma_key_names(PathKey::Rustup);
    lemma_key_names(PathKey::CargoApk);
    lemma_key_names(PathKey::Zigbuild);
    lemma_key_names(PathKey::Homebrew);
    lemma_key_names(PathKey::Keystore);
    let ps = android_paths_of(home, platform, ndk);
    assert forall|i: int| 0 <= i < ps.len() implies #[trigger] key_named(ps[i].0) is Some by {
        if i == 0 {
            assert(ps[i].0 == key_name(PathKey::Sdk));
        } else if i == 1 {
            assert(ps[i].0 == key_name(PathKey::CmdlineTools));
        } else if i == 2 {
            assert(ps[i].0 == key_name(PathKey::BuildTools));
        } else if i == 3 {
            assert(ps[i].0 == key_name(PathKey::Sdkmanager));
        } else if i == 4 {
            assert(ps[i].0 == key_name(PathKey::PlatformTools));
        } else if i == 5 {
            assert(ps[i].0 == key_name(PathKey::Platforms));
        } else if i == 6 {
            assert(ps[i].0 == key_name(PathKey::Ndk));
        } else if i == 7 {
            assert(ps[i].0 == key_name(PathKey::NdkBundle));
        } else {
            assert(ps[i].0 == key_name(PathKey::Java));
        }
    }
}

/// The targets that the installer adds are exactly the wanted targets that the
/// listing of installed targets does not mention.
pub proof fn law_missing_targets(ts: Seq<Seq<char>>, installed: Seq<char>)
    ensures
        forall|t: Seq<char>|
            #[trigger] missing_targets(ts, installed).contains(t) <==> ts.contains(t) && !contains(installed, t),
    decreases ts.len(),
{
    if ts.len() > 0 {
        let rest = ts.drop_last();
        let last = ts.last();
        law_missing_targets(rest, installed);
        let m = missing_targets(rest, installed);
        let mt = missing_targets(ts, installed);
        assert(contains(installed, last) ==> mt == m);
        assert(!contains(installed, last) ==> mt == m.push(last));
        assert forall|t: Seq<char>| #[trigger] mt.contains(t) implies ts.contains(t) && !contains(installed, t) by {
            if contains(installed, last) || m.contains(t) {
                assert(m.contains(t));
                let i = choose|i: int| 0 <= i < rest.len() && rest[i] == t;
                assert(ts[i] == t);
            } else {
                let i = choose|i: int| 0 <= i < mt.len() && mt[i] == t;
                if i < m.len() {
                    assert(m[i] == t);
                }
                assert(t == last);
                assert(ts[ts.len() - 1] == t);
            }
        }
        assert forall|t: Seq<char>| ts.contains(t) && !contains(installed, t) implies #[trigger] mt.contains(t) by {
            let i = choose|i: int| 0 <= i < ts.len() && ts[i] == t;
            if i == ts.len() - 1 {
                assert(mt[m.len() as int] == t);
            } else {
                assert(rest[i] == t);
                assert(m.contains(t));
                let j = choose|j: int| 0 <= j < m.len() && m[j] == t;
                assert(mt[j] == t);
            }
        }
    }
}

/// The app bundle that signing, provisioning and deployment use for iOS is
/// the directory that naming the template renames the iOS bundle to: once the
/// project `name` is loaded, renaming `<project>/ios/Ramp.app` to the target
/// name that the template plan gives yields exactly the session's iOS app
/// bundle.
pub proof fn law_template_renames_app_bundle(s: Session, name: Seq<char>, bundle_id: Option<Seq<char>>)
    requires
        s.projects_path is Some,
        opt_view(s.current_project) == Some(name),
    ensures
        template_plan(opt_view(s.projects_path), name, bundle_id)[1] matches TemplateStepView::RenameDirectory {
            current,
            target_name,
        } && current == project_root(s) + "/ios/Ramp.app"@ && app_bundle_of(s, "ios"@) == project_root(s)
            + "/ios/"@ + target_name,
{
    let root = project_root(s);
    assert(or_empty(opt_view(s.projects_path)) + "/"@ + name == root);
    assert(root + "/"@ + "ios"@ + "/"@ + capitalized(name) + ".app"@ =~= root + "/ios/"@ + (capitalized(name) + ".app"@)) by {
        reveal_strlit("ios");
        reveal_strlit("/ios/");
        reveal_strlit("/");
        assert("/"@ + "ios"@ + "/"@ =~= "/ios/"@);
    }
}

/// A debug iOS build copies its binary into the app bundle that signing then
/// signs: the destination of the build's post-build copy is the session's iOS
/// app bundle, as a directory.
pub proof fn law_build_copies_into_signed_bundle(s: Session, release: bool, path_env: Seq<char>)
    requires
        s.projects_path is Some,
        s.current_project is Some,
        build_plan(s, "ios"@, release, path_env) matches Ok(p) && p.post_build is Some,
    ensures
        build_plan(s, "ios"@, release, path_env)->Ok_0.post_build->Some_0.1 == app_bundle_of(s, "ios"@) + "/"@,
{
    let cur = opt_view(s.current_project)->Some_0;
    let root = project_root(s);
    assert(root + "/ios/"@ + capitalized(cur) + ".app/"@ =~= root + "/"@ + "ios"@ + "/"@ + capitalized(cur) + ".app"@ + "/"@) by {
        reveal_strlit("/ios/");
        reveal_strlit("/");
        reveal_strlit("ios");
        reveal_strlit(".app/");
        reveal_strlit(".app");
    }
}

/// Setting a tool path a second time to the same value leaves the session's
/// paths and the configuration text as the first call left them. (`p0`, `p1`
/// and `p2` are the paths before, between and after two successful
/// `set_path` calls of `name` to `value`, as its contract describes them; the
/// text is the one `rewrite_config` writes, given the text before.) The text
/// part holds when the value holds no line break and does not end with a
/// carriage return, and no line of the old configuration ends with one.
pub proof fn law_set_path_twice(
    p0: Paths,
    p1: Paths,
    p2: Paths,
    config: Option<Seq<char>>,
    name: Seq<char>,
    value: Seq<char>,
)
    requires
        key_named(name) is Some,
        p1.value(key_named(name)->0) == Some(value),
        forall|j: PathKey| j != key_named(name)->0 ==> p1.value(j) == p0.value(j),
        p2.value(key_named(name)->0) == Some(value),
        forall|j: PathKey| j != key_named(name)->0 ==> p2.value(j) == p1.value(j),
        !contains(value, seq!['\n']),
        value.len() == 0 || value.last() != '\r',
        forall|i: int|
            0 <= i < config_lines(config).len() ==> (#[trigger] config_lines(config)[i]).len() == 0
                || config_lines(config)[i].last() != '\r',
    ensures
        forall|j: PathKey| #[trigger] p2.value(j) == p1.value(j),
        join_lines(
            rewritten_lines(
                config_lines(Some(join_lines(rewritten_lines(config_lines(config), name, value)))),
                name,
                value,
            ),
        ) == join_lines(rewritten_lines(config_lines(config), name, value)),
{
    law_record_twice(config, name, value);
}

/// Setting a tool path and then loading the configuration that it wrote gives
/// the path the value set: after `set_path` records `value` under `name` in
/// the configuration text, a `get_all_paths` of that text (whose contract
/// relates `before` and `after`) leaves the path at `value`, and `get_path`
/// reads it back unless the path is `keystore_path`. This holds when the value
/// has no line break and no whitespace at either end, and no old line that
/// does not begin with `name=` sets the same path.
pub proof fn law_set_path_then_get_all_paths(
    config: Option<Seq<char>>,
    name: Seq<char>,
    value: Seq<char>,
    before: Paths,
    after: Paths,
)
    requires
        key_named(name) is Some,
        !contains(value, seq!['\n']),
        trim(value) == value,
        forall|i: int|
            0 <= i < config_lines(config).len() && !starts_with(
                #[trigger] config_lines(config)[i],
                name.push('='),
            ) ==> line_sets(strip_cr(config_lines(config)[i]), key_named(name)->0) is None,
        after.value(key_named(name)->0) == config_value(
            config_lines(Some(join_lines(rewritten_lines(config_lines(config), name, value)))),
            key_named(name)->0,
            before.value(key_named(name)->0),
        ),
    ensures
        after.value(key_named(name)->0) == Some(value),
        key_named(name)->0 != PathKey::Keystore ==> lookup(after, name) == Some(Ok::<Seq<char>, PathKey>(value)),
{
    let k = key_named(name)->0;
    law_config_read_back(config, name, value, before.value(k));
    let t = join_lines(rewritten_lines(config_lines(config), name, value));
    assert(config_lines(Some(t)) == lines(t));
}

/// `b` ends any text that it is appended to.
proof fn lemma_ends_with_suffix(a: Seq<char>, b: Seq<char>)
    ensures
        ends_with(a + b, b),
{
    assert((a + b).skip((a + b).len() - b.len()) =~= b);
}

/// A text that ends with `f` still ends with `f` with anything put in front.
proof fn lemma_ends_with_front(a: Seq<char>, b: Seq<char>, f: Seq<char>)
    requires
        ends_with(b, f),
    ensures
        ends_with(a + b, f),
{
    assert((a + b).skip((a + b).len() - f.len()) =~= b.skip(b.len() - f.len()));
}

/// A release build asks cargo for a release build: for every host, target and
/// session for which a release build has a plan, its script ends with the
/// ` --release ` flag.
pub proof fn law_release_builds_pass_release_flag(s: Session, target: Seq<char>, path_env: Seq<char>)
    ensures
        build_plan(s, target, true, path_env) matches Ok(p) ==> ends_with(p.script, " --release "@),
{
    let flag = " --release "@;
    if cargo_args(s.os@, target, true) is Some {
        let args = cargo_args(s.os@, target, true)->Some_0;
        assert(ends_with(args, flag)) by {
            if target == "windows"@ {
                lemma_ends_with_suffix("build --target x86_64-pc-windows-gnu"@, flag);
            } else if target == "linux"@ {
                lemma_ends_with_suffix("build"@, flag);
                lemma_ends_with_suffix("build --target aarch64-unknown-linux-gnu"@, flag);
            } else if target == "wasm"@ {
                lemma_ends_with_suffix("build --lib --target wasm32-unknown-unknown"@, flag);
            } else if target == "android"@ {
                lemma_ends_with_suffix("apk build"@, flag);
            } else if target == "android_run"@ {
                lemma_ends_with_suffix("apk run"@, flag);
            } else if target == "ios"@ {
                lemma_ends_with_suffix("build --target aarch64-apple-ios"@, flag);
            } else {
                lemma_ends_with_suffix("build"@, flag);
            }
        }
        match crate::session::lookup_key(s.paths, PathKey::Cargo) {
            Ok(cargo) => {
                lemma_ends_with_front(cargo + " "@, args, flag);
            },
            Err(_) => {},
        }
        match crate::session::lookup_key(s.paths, PathKey::Zigbuild) {
            Ok(zig) => {
                lemma_ends_with_front(zig + " "@, args, flag);
            },
            Err(_) => {},
        }
    }
}

/// iPads are found as iPhones are: the pattern that finds an iPad's identifier
/// in a line of the device listing is the iPhone pattern with the device word
/// `iPhone` changed to `iPad` (the rest, the OS version in parentheses and the
/// parenthesized `<8 hex>-<16 hex>` identifier that is captured, is the same),
/// and both kinds of device have identifiers of the same length.
pub proof fn law_ipad_found_like_iphone(udid: Seq<char>)
    ensures
        exists|tail: Seq<char>|
            #![trigger starts_with(tail, "\\s+\\([^)]+\\)\\s+\\("@)]
            udid_pattern("iphone"@) == Some("(?i)^iPhone"@ + tail) && udid_pattern("ipad"@) == Some(
                "(?i)^iPad"@ + tail,
            ) && starts_with(tail, "\\s+\\([^)]+\\)\\s+\\("@),
        udid_length_ok("ipad"@, udid) == udid_length_ok("iphone"@, udid),
{
    reveal_strlit("iphone");
    reveal_strlit("ipad");
    reveal_strlit("(?i)^iPhone");
    reveal_strlit("(?i)^iPad");
    reveal_strlit("\\s+\\([^)]+\\)\\s+\\(");
    reveal_strlit("\\s+\\([^)]+\\)\\s+\\(([0-9a-f]{8}-[0-9a-f]{16})\\)");
    reveal_strlit("(?i)^iPhone\\s+\\([^)]+\\)\\s+\\(([0-9a-f]{8}-[0-9a-f]{16})\\)");
    reveal_strlit("(?i)^iPad\\s+\\([^)]+\\)\\s+\\(([0-9a-f]{8}-[0-9a-f]{16})\\)");
    assert("ipad"@ != "iphone"@) by {
        assert("ipad"@.len() != "iphone"@.len());
    }
    let tail = "\\s+\\([^)]+\\)\\s+\\(([0-9a-f]{8}-[0-9a-f]{16})\\)"@;
    assert("(?i)^iPhone"@ + tail =~= "(?i)^iPhone\\s+\\([^)]+\\)\\s+\\(([0-9a-f]{8}-[0-9a-f]{16})\\)"@);
    assert("(?i)^iPad"@ + tail =~= "(?i)^iPad\\s+\\([^)]+\\)\\s+\\(([0-9a-f]{8}-[0-9a-f]{16})\\)"@);
    assert(tail.take(17) =~= "\\s+\\([^)]+\\)\\s+\\("@);
    reveal_strlit("macos");
    assert("ipad"@ != "macos"@) by {
        assert("ipad"@.len() != "macos"@.len());
    }
    assert("iphone"@ != "macos"@) by {
        assert("iphone"@.len() != "macos"@.len());
    }
    assert(udid_pattern("iphone"@) == Some("(?i)^iPhone"@ + tail) && udid_pattern("ipad"@) == Some(
        "(?i)^iPad"@ + tail,
    ) && starts_with(tail, "\\s+\\([^)]+\\)\\s+\\("@));
}

/// A provisioning profile provisions a device exactly when the entry
/// `<string>udid</string>` occurs somewhere in its devices array, at any
/// position among the devices listed there.
pub proof fn law_device_anywhere_in_profile(xml: Seq<char>, udid: Seq<char>, arr: Seq<char>)
    requires
        provisioned_devices(xml) == Some(arr),
    ensures
        forall|k: int|
            #[trigger] occurs_at(arr, "<string>"@ + udid + "</string>"@, k) ==> lists_device(xml, udid),
        lists_device(xml, udid) ==> exists|k: int|
            0 <= k < arr.len() && #[trigger] occurs_at(arr, "<string>"@ + udid + "</string>"@, k),
{
    if lists_device(xml, udid) {
        let e = "<string>"@ + udid + "</string>"@;
        let k = choose|k: int| occurs_at(arr, e, k);
        reveal_strlit("<string>");
        assert(e.len() > 0);
        assert(0 <= k < arr.len());
    }
}

/// Every target that a build on the host passes to cargo is installed when the
/// listing of installed targets does not mention it: on macOS the Windows,
/// Linux, web and iOS targets, on Linux the Windows and web targets.
pub proof fn law_build_targets_are_installed(installed: Seq<char>, release: bool)
    ensures
        cargo_args("macos"@, "ios"@, release) == Some("build --target "@ + "aarch64-apple-ios"@ + release_flag(release)),
        !contains(installed, "aarch64-apple-ios"@) ==> missing_targets(wanted_targets("macos"@), installed).contains(
            "aarch64-apple-ios"@,
        ),
        cargo_args("macos"@, "linux"@, release) == Some(
            "build --target "@ + "aarch64-unknown-linux-gnu"@ + release_flag(release),
        ),
        !contains(installed, "aarch64-unknown-linux-gnu"@) ==> missing_targets(wanted_targets("macos"@), installed).contains(
            "aarch64-unknown-linux-gnu"@,
        ),
        forall|os: Seq<char>|
            os == "macos"@ || os == "linux"@ ==> {
                &&& cargo_args(os, "windows"@, release) == Some(
                    "build --target "@ + "x86_64-pc-windows-gnu"@ + release_flag(release),
                )
                &&& cargo_args(os, "wasm"@, release) == Some(
                    "build --lib --target "@ + "wasm32-unknown-unknown"@ + release_flag(release),
                )
                &&& !contains(installed, "x86_64-pc-windows-gnu"@) ==> #[trigger] missing_targets(
                    wanted_targets(os),
                    installed,
                ).contains("x86_64-pc-windows-gnu"@)
                &&& !contains(installed, "wasm32-unknown-unknown"@) ==> missing_targets(
                    wanted_targets(os),
                    installed,
                ).contains("wasm32-unknown-unknown"@)
            },
{
    reveal_strlit("windows");
    reveal_strlit("linux");
    reveal_strlit("wasm");
    reveal_strlit("android");
    reveal_strlit("android_run");
    reveal_strlit("ios");
    reveal_strlit("macos");
    reveal_strlit("build --target ");
    reveal_strlit("build --lib --target ");
    reveal_strlit("aarch64-apple-ios");
    reveal_strlit("aarch64-unknown-linux-gnu");
    reveal_strlit("x86_64-pc-windows-gnu");
    reveal_strlit("wasm32-unknown-unknown");
    reveal_strlit("build --target aarch64-apple-ios");
    reveal_strlit("build --target aarch64-unknown-linux-gnu");
    reveal_strlit("build --target x86_64-pc-windows-gnu");
    reveal_strlit("build --lib --target wasm32-unknown-unknown");
    assert("ios"@ != "windows"@ && "ios"@ != "linux"@ && "ios"@ != "wasm"@ && "ios"@ != "android"@
        && "ios"@ != "android_run"@) by {
        assert("ios"@[0] != "windows"@[0] && "ios"@.len() != "linux"@.len() && "ios"@.len() != "wasm"@.len()
            && "ios"@[0] != "android"@[0] && "ios"@[0] != "android_run"@[0]);
    }
    assert("linux"@ != "windows"@ && "linux"@ != "macos"@) by {
        assert("linux"@.len() != "windows"@.len() && "linux"@[0] != "macos"@[0]);
    }
    assert("wasm"@ != "windows"@ && "wasm"@ != "linux"@) by {
        assert("wasm"@.len() != "windows"@.len() && "wasm"@.len() != "linux"@.len());
    }
    assert("build --target "@ + "aarch64-apple-ios"@ =~= "build --target aarch64-apple-ios"@);
    assert("build --target "@ + "aarch64-unknown-linux-gnu"@ =~= "build --target aarch64-unknown-linux-gnu"@);
    assert("build --target "@ + "x86_64-pc-windows-gnu"@ =~= "build --target x86_64-pc-windows-gnu"@);
    assert("build --lib --target "@ + "wasm32-unknown-unknown"@ =~= "build --lib --target wasm32-unknown-unknown"@);
    law_missing_targets(wanted_targets("macos"@), installed);
    law_missing_targets(wanted_targets("linux"@), installed);
    let mac = wanted_targets("macos"@);
    let lin = wanted_targets("linux"@);
    assert(mac[7] == "aarch64-apple-ios"@);
    assert(mac[1] == "aarch64-unknown-linux-gnu"@);
    assert(mac[5] == "x86_64-pc-windows-gnu"@);
    assert(mac[6] == "wasm32-unknown-unknown"@);
    assert(lin[5] == "x86_64-pc-windows-gnu"@);
    assert(lin[6] == "wasm32-unknown-unknown"@);
}

/// Whether an activity block's filter lets it start on its own does not depend
/// on the package it is qualified with.
proof fn lemma_activity_found_any_package(ls: Seq<Seq<char>>, i: int, p: Option<Seq<char>>)
    ensures
        activity_at(ls, i, p) is Some <==> activity_at(ls, i, None) is Some,
{
}

/// Scanning the dump from line `k` keeps what it has read and finds what lies
/// ahead: a package read or a package line ahead gives a package, and a main
/// activity read or a launchable activity line ahead gives a main activity.
proof fn lemma_scan_finds(
    ls: Seq<Seq<char>>,
    k: int,
    p: Option<Seq<char>>,
    a: Option<Seq<char>>,
    i: int,
    j: int,
)
    requires
        0 <= k,
    ensures
        a is Some || (k <= i < ls.len() && starts_with(trim(ls[i]), "E: activity"@) && activity_at(ls, i, None) is Some)
            ==> manifest_scan(ls, k, p, a).1 is Some,
        p is Some || (k <= j < ls.len() && starts_with(trim(ls[j]), "A: package="@) && quoted(ls[j]) is Some)
            ==> manifest_scan(ls, k, p, a).0 is Some,
    decreases ls.len() - k,
{
    if k < ls.len() {
        let pp = if starts_with(trim(ls[k]), "A: package="@) {
            match quoted(ls[k]) {
                Some(v) => Some(v),
                None => p,
            }
        } else {
            p
        };
        let aa = if a is None && starts_with(trim(ls[k]), "E: activity"@) {
            activity_at(ls, k, pp)
        } else {
            a
        };
        lemma_activity_found_any_package(ls, k, pp);
        assert(manifest_scan(ls, k, p, a) == if pp is Some && aa is Some {
            (pp, aa)
        } else {
            manifest_scan(ls, k + 1, pp, aa)
        });
        if !(pp is Some && aa is Some) {
            lemma_scan_finds(ls, k + 1, pp, aa, i, j);
        }
    }
}

/// The launch target is found whenever the dump has it: when some line gives
/// the package (an `A: package=` line with a quoted value) and some
/// `E: activity` block names an activity with both a MAIN action and a
/// LAUNCHER category, reading the launch target succeeds, wherever those lines
/// stand and whatever activities without a launcher filter come before.
pub proof fn law_launcher_activity_found(dump: Seq<char>, i: int, j: int)
    requires
        0 <= i < lines(dump).len(),
        0 <= j < lines(dump).len(),
        starts_with(trim(lines(dump)[i]), "E: activity"@),
        activity_at(lines(dump), i, None) is Some,
        starts_with(trim(lines(dump)[j]), "A: package="@),
        quoted(lines(dump)[j]) is Some,
    ensures
        launch_payload(dump) is Ok,
{
    lemma_scan_finds(lines(dump), 0, None, None, i, j);
}

} // verus!
