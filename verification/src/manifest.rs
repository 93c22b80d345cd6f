//! The launch target of an Android package, read from the text tree that
//! `aapt dump xmltree` prints for its `AndroidManifest.xml`.
use vstd::prelude::*;
use crate::text::{
    chars_of, concat, contains, contains_chars, lines, lines_chars, seq_eq, starts_with,
    starts_with_chars, string_of, trim, trim_chars,
};
use crate::device::{after, after_exec, before, before_exec};
use crate::session::or_empty;

verus! {

/// Why no launch target could be read.
#[derive(Debug, Clone, Copy, PartialEq, Eq)]
pub enum PayloadError {
    /// No `A: package=` line with a quoted value was read.
    PackageNotFound,
    /// No activity with both a MAIN action and a LAUNCHER category was read.
    MainActivityNotFound,
}

/// The lines of a dump, as character sequences.
pub open spec fn line_views(ls: Seq<Vec<char>>) -> Seq<Seq<char>> {
    ls.map_values(|l: Vec<char>| l@)
}

/// An optional character vector, as a sequence.
pub open spec fn opt_chars(o: Option<Vec<char>>) -> Option<Seq<char>> {
    match o {
        Some(v) => Some(v@),
        None => None,
    }
}

/// The text between the first double quote of a line and the next one.
pub open spec fn quoted(l: Seq<char>) -> Option<Seq<char>> {
    match after(l, "\""@) {
        Some(r) => before(r, "\""@),
        None => None,
    }
}

/// The first index at or after `i` whose line equals `l`, or 0 when there is none.
pub open spec fn first_pos_from(ls: Seq<Seq<char>>, l: Seq<char>, i: int) -> int
    decreases ls.len() - i,
{
    if i >= ls.len() {
        0
    } else if ls[i] == l {
        i
    } else {
        first_pos_from(ls, l, i + 1)
    }
}

/// The index of the first line equal to `l`, or 0 when there is none.
pub open spec fn first_pos(ls: Seq<Seq<char>>, l: Seq<char>) -> int {
    first_pos_from(ls, l, 0)
}

/// A trimmed line that closes an intent filter: an element line that is
/// neither an action nor a category.
pub open spec fn ends_filter(t: Seq<char>) -> bool {
    starts_with(t, "E: "@) && !starts_with(t, "E: action"@) && !starts_with(t, "E: category"@)
}

/// Scans the lines of an intent filter from index `j`, noting whether a MAIN
/// action and a LAUNCHER category occur before the filter closes.
pub open spec fn filter_scan(ls: Seq<Seq<char>>, j: int, main: bool, launcher: bool) -> (bool, bool)
    decreases ls.len() - j,
{
    if j < 0 || j >= ls.len() {
        (main, launcher)
    } else if ends_filter(trim(ls[j])) {
        (main, launcher)
    } else {
        filter_scan(
            ls,
            j + 1,
            main || contains(trim(ls[j]), "android.intent.action.MAIN"@),
            launcher || contains(trim(ls[j]), "android.intent.category.LAUNCHER"@),
        )
    }
}

/// Scans the lines of an activity from index `j`: an `A: android:name` line
/// names it (by its quoted value), an `E: intent-filter` line has its filter
/// scanned (from the first line equal to it), and any other element line ends
/// the activity.
pub open spec fn activity_scan(
    ls: Seq<Seq<char>>,
    j: int,
    name: Option<Seq<char>>,
    main: bool,
    launcher: bool,
) -> (Option<Seq<char>>, bool, bool)
    decreases ls.len() - j,
{
    if j < 0 || j >= ls.len() {
        (name, main, launcher)
    } else if starts_with(trim(ls[j]), "A: android:name"@) {
        let n = match quoted(ls[j]) {
            Some(v) => Some(v),
            None => name,
        };
        activity_scan(ls, j + 1, n, main, launcher)
    } else if starts_with(trim(ls[j]), "E: intent-filter"@) {
        let f = filter_scan(ls, first_pos(ls, ls[j]) + 1, main, launcher);
        activity_scan(ls, j + 1, name, f.0, f.1)
    } else if starts_with(trim(ls[j]), "E: "@) {
        (name, main, launcher)
    } else {
        activity_scan(ls, j + 1, name, main, launcher)
    }
}

/// The main activity that an `E: activity` line at index `i` gives: its name
/// when its block has both MAIN and LAUNCHER, prefixed with the package when
/// the name starts with a dot.
pub open spec fn activity_at(ls: Seq<Seq<char>>, i: int, pkg: Option<Seq<char>>) -> Option<Seq<char>> {
    let a = activity_scan(ls, first_pos(ls, ls[i]) + 1, None, false, false);
    if a.1 && a.2 {
        match a.0 {
            Some(n) => Some(
                if starts_with(n, "."@) {
                    or_empty(pkg) + n
                } else {
                    n
                },
            ),
            None => None,
        }
    } else {
        None
    }
}

/// Scans the dump from line `i` with the package and main activity read so
/// far; the scan stops as soon as both are known.
pub open spec fn manifest_scan(
    ls: Seq<Seq<char>>,
    i: int,
    pkg: Option<Seq<char>>,
    act: Option<Seq<char>>,
) -> (Option<Seq<char>>, Option<Seq<char>>)
    decreases ls.len() - i,
{
    if i < 0 || i >= ls.len() {
        (pkg, act)
    } else {
        let p = if starts_with(trim(ls[i]), "A: package="@) {
            match quoted(ls[i]) {
                Some(v) => Some(v),
                None => pkg,
            }
        } else {
            pkg
        };
        let a = if act is None && starts_with(trim(ls[i]), "E: activity"@) {
            activity_at(ls, i, p)
        } else {
            act
        };
        if p is Some && a is Some {
            (p, a)
        } else {
            manifest_scan(ls, i + 1, p, a)
        }
    }
}

/// The `adb shell am start` argument for a manifest dump:
/// `-n "<package>/<activity>"`.
pub open spec fn launch_payload(dump: Seq<char>) -> Result<Seq<char>, PayloadError> {
    let r = manifest_scan(lines(dump), 0, None, None);
    match r.0 {
        None => Err(PayloadError::PackageNotFound),
        Some(p) => match r.1 {
            None => Err(PayloadError::MainActivityNotFound),
            Some(a) => Ok("-n \""@ + p + "/"@ + a + "\""@),
        },
    }
}

/// The quoted value of a line.
fn quoted_exec(l: &Vec<char>) -> (r: Option<Vec<char>>)
    ensures
        opt_chars(r) == quoted(l@),
{
    match after_exec(l, "\"") {
        Some(rest) => before_exec(&rest, "\""),
        None => None,
    }
}

/// The index of the first line equal to `l`, or 0.
fn first_pos_exec(ls: &Vec<Vec<char>>, l: &Vec<char>) -> (r: usize)
    ensures
        r as int == first_pos(line_views(ls@), l@),
        r < ls.len() || r == 0,
{
    let ghost lv = line_views(ls@);
    let mut i: usize = 0;
    while i < ls.len()
        invariant
            i <= ls.len(),
            lv == line_views(ls@),
            first_pos(lv, l@) == first_pos_from(lv, l@, i as int),
        decreases ls.len() - i,
    {
        if seq_eq(&ls[i], l) {
            return i;
        }
        i += 1;
    }
    0
}

/// Scans an intent filter from line `j`.
fn filter_scan_exec(ls: &Vec<Vec<char>>, j: usize, main: bool, launcher: bool) -> (r: (bool, bool))
    ensures
        r == filter_scan(line_views(ls@), j as int, main, launcher),
{
    let ghost lv = line_views(ls@);
    let action = chars_of("android.intent.action.MAIN");
    let category = chars_of("android.intent.category.LAUNCHER");
    let e = chars_of("E: ");
    let ea = chars_of("E: action");
    let ec = chars_of("E: category");
    let mut k: usize = j;
    let mut m = main;
    let mut la = launcher;
    while k < ls.len()
        invariant
            j <= k,
            lv == line_views(ls@),
            action@ == "android.intent.action.MAIN"@,
            category@ == "android.intent.category.LAUNCHER"@,
            e@ == "E: "@,
            ea@ == "E: action"@,
            ec@ == "E: category"@,
            filter_scan(lv, j as int, main, launcher) == filter_scan(lv, k as int, m, la),
        decreases ls.len() - k,
    {
        let t = trim_chars(&ls[k]);
        if starts_with_chars(&t, &e) && !starts_with_chars(&t, &ea) && !starts_with_chars(&t, &ec) {
            return (m, la);
        }
        m = m || contains_chars(&t, &action);
        la = la || contains_chars(&t, &category);
        k += 1;
    }
    (m, la)
}

/// Scans an activity block from line `j`.
fn activity_scan_exec(ls: &Vec<Vec<char>>, j: usize) -> (r: (Option<Vec<char>>, bool, bool))
    ensures
        (opt_chars(r.0), r.1, r.2) == activity_scan(line_views(ls@), j as int, None, false, false),
{
    let ghost lv = line_views(ls@);
    let name_key = chars_of("A: android:name");
    let filter_key = chars_of("E: intent-filter");
    let e = chars_of("E: ");
    let mut k: usize = j;
    let mut name: Option<Vec<char>> = None;
    let mut m = false;
    let mut la = false;
    while k < ls.len()
        invariant
            j <= k,
            lv == line_views(ls@),
            name_key@ == "A: android:name"@,
            filter_key@ == "E: intent-filter"@,
            e@ == "E: "@,
            activity_scan(lv, j as int, None, false, false) == activity_scan(lv, k as int, opt_chars(name), m, la),
        decreases ls.len() - k,
    {
        let t = trim_chars(&ls[k]);
        assert(lv[k as int] == ls@[k as int]@);
        if starts_with_chars(&t, &name_key) {
            match quoted_exec(&ls[k]) {
                Some(v) => {
                    name = Some(v);
                },
                None => {},
            }
        } else if starts_with_chars(&t, &filter_key) {
            let p = first_pos_exec(ls, &ls[k]);
            let f = filter_scan_exec(ls, p + 1, m, la);
            m = f.0;
            la = f.1;
        } else if starts_with_chars(&t, &e) {
            return (name, m, la);
        }
        k += 1;
    }
    (name, m, la)
}

/// The main activity that the `E: activity` line at `i` gives.
fn activity_at_exec(ls: &Vec<Vec<char>>, i: usize, pkg: &Option<Vec<char>>) -> (r: Option<Vec<char>>)
    requires
        i < ls.len(),
    ensures
        opt_chars(r) == activity_at(line_views(ls@), i as int, opt_chars(*pkg)),
{
    let ghost lv = line_views(ls@);
    assert(lv[i as int] == ls@[i as int]@);
    let p = first_pos_exec(ls, &ls[i]);
    let a = activity_scan_exec(ls, p + 1);
    if a.1 && a.2 {
        match a.0 {
            Some(n) => {
                if starts_with_chars(&n, &chars_of(".")) {
                    let mut full: Vec<char> = match pkg {
                        Some(v) => crate::text::copy_chars(v),
                        None => Vec::new(),
                    };
                    let ghost base = full@;
                    assert(base == or_empty(opt_chars(*pkg)));
                    crate::text::append_chars(&mut full, &n);
                    Some(full)
                } else {
                    Some(n)
                }
            },
            None => None,
        }
    } else {
        None
    }
}

/// Reads the launch target from the text that `aapt dump xmltree` prints for
/// a package's manifest, and gives the `-n "<package>/<activity>"` argument
/// that starts it. The package comes from an `A: package=` line; the main
/// activity from the first `E: activity` block that has an intent filter with
/// both `android.intent.action.MAIN` and `android.intent.category.LAUNCHER`,
/// with the package put in front of a name that starts with a dot.
pub fn get_adb_launch_payload(aapt_output: &str) -> (r: Result<String, PayloadError>)
    ensures
        match launch_payload(aapt_output@) {
            Ok(s) => r matches Ok(t) && t@ == s,
            Err(e) => r == Err::<String, PayloadError>(e),
        },
{
    let ls = lines_chars(&chars_of(aapt_output));
    let ghost lv = line_views(ls@);
    assert(lv == lines(aapt_output@));
    let pkg_key = chars_of("A: package=");
    let act_key = chars_of("E: activity");
    let mut pkg: Option<Vec<char>> = None;
    let mut act: Option<Vec<char>> = None;
    let mut i: usize = 0;
    while i < ls.len()
        invariant_except_break
            manifest_scan(lv, 0, None, None) == manifest_scan(lv, i as int, opt_chars(pkg), opt_chars(act)),
        invariant
            i <= ls.len(),
            lv == line_views(ls@),
            pkg_key@ == "A: package="@,
            act_key@ == "E: activity"@,
        ensures
            manifest_scan(lv, 0, None, None) == (opt_chars(pkg), opt_chars(act)),
        decreases ls.len() - i,
    {
        let t = trim_chars(&ls[i]);
        assert(lv[i as int] == ls@[i as int]@);
        if starts_with_chars(&t, &pkg_key) {
            match quoted_exec(&ls[i]) {
                Some(v) => {
                    pkg = Some(v);
                },
                None => {},
            }
        }
        if act.is_none() && starts_with_chars(&t, &act_key) {
            act = activity_at_exec(&ls, i, &pkg);
        }
        if pkg.is_some() && act.is_some() {
            break;
        }
        i += 1;
    }
    match pkg {
        None => Err(PayloadError::PackageNotFound),
        Some(p) => match act {
            None => Err(PayloadError::MainActivityNotFound),
            Some(a) => {
                let s1 = concat("-n \"", string_of(&p).as_str());
                let s2 = concat(s1.as_str(), "/");
                let s3 = concat(s2.as_str(), string_of(&a).as_str());
                Ok(concat(s3.as_str(), "\""))
            },
        },
    }
}

} // verus!
