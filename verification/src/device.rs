//! Reading what device tools print: iOS device identifiers, provisioning
//! profiles and app bundle identifiers, Android devices and packages.
use vstd::prelude::*;
use crate::text::{
    chars_of, concat, contains, contains_chars, ends_with, ends_with_chars, find, find_chars,
    lines, lines_chars, owned, starts_with, starts_with_chars, str_eq, string_of,
    trim, trim_chars,
};
use crate::outside::{found_view, lowercase, regex_captures_each, regex_compiles, regex_find_all, regex_group, regex_matches, to_lowercase};

verus! {

/// Why a device query failed.
#[derive(Debug)]
pub enum DeviceError {
    /// A search pattern was rejected by the regular expression engine.
    PatternRejected,
    /// The `Info.plist` has no `CFBundleIdentifier` key.
    BundleKeyMissing,
    /// The `CFBundleIdentifier` key has no value.
    BundleValueMissing,
    /// The device target is not `iphone`, `ipad` or `macos`.
    InvalidTarget,
    /// No device of the target was found.
    NoDevice,
    /// Several devices of the target were found; their identifiers.
    MultipleDevices(Vec<String>),
    /// No device identifier was found.
    NoDeviceId,
    /// Several device identifiers were found.
    MultipleDeviceIds,
}

/// The text right after the first occurrence of `key`, if `key` occurs.
pub open spec fn after(s: Seq<char>, key: Seq<char>) -> Option<Seq<char>> {
    match find(s, key) {
        Some(i) => Some(s.skip(i + key.len())),
        None => None,
    }
}

/// The text before the first occurrence of `key`, if `key` occurs.
pub open spec fn before(s: Seq<char>, key: Seq<char>) -> Option<Seq<char>> {
    match find(s, key) {
        Some(i) => Some(s.take(i)),
        None => None,
    }
}

/// The text after the first occurrence of `key`, if any.
pub fn after_exec(s: &Vec<char>, key: &str) -> (r: Option<Vec<char>>)
    ensures
        match r {
            Some(v) => after(s@, key@) == Some(v@),
            None => after(s@, key@) is None,
        },
{
    let k = chars_of(key);
    match find_chars(s, &k) {
        Some(i) => {
            proof {
                crate::text::lemma_find(s@, k@);
            }
            assert(crate::text::occurs_at(s@, k@, i as int));
            let kl = k.len();
            let sl = s.len();
            assert(i + kl <= sl);
            let start: usize = i + kl;
            let mut v: Vec<char> = Vec::new();
            let mut j: usize = start;
            while j < s.len()
                invariant
                    i + k.len() <= j <= s.len(),
                    v@ == s@.subrange(i + k.len(), j as int),
                decreases s.len() - j,
            {
                v.push(s[j]);
                j += 1;
                assert(v@ =~= s@.subrange(i + k.len(), j as int));
            }
            assert(v@ =~= s@.skip(i + k.len()));
            Some(v)
        },
        None => None,
    }
}

/// The text before the first occurrence of `key`, if any.
pub fn before_exec(s: &Vec<char>, key: &str) -> (r: Option<Vec<char>>)
    ensures
        match r {
            Some(v) => before(s@, key@) == Some(v@),
            None => before(s@, key@) is None,
        },
{
    let k = chars_of(key);
    match find_chars(s, &k) {
        Some(i) => {
            proof {
                crate::text::lemma_find(s@, k@);
            }
            let mut v: Vec<char> = Vec::new();
            let mut j: usize = 0;
            while j < i
                invariant
                    j <= i <= s.len(),
                    v@ == s@.take(j as int),
                decreases i - j,
            {
                v.push(s[j]);
                j += 1;
                assert(v@ =~= s@.take(j as int));
            }
            Some(v)
        },
        None => None,
    }
}

/// The bundle identifier that an `Info.plist` gives: the trimmed text between
/// the first `<string>` after the first `<key>CFBundleIdentifier</key>` and the
/// next `</string>`.
pub open spec fn plist_bundle(content: Seq<char>) -> Result<Seq<char>, ()> {
    match after(content, "<key>CFBundleIdentifier</key>"@) {
        None => Err(()),
        Some(rest) => match after(rest, "<string>"@) {
            None => Err(()),
            Some(value) => match before(value, "</string>"@) {
                None => Err(()),
                Some(v) => Ok(trim(v)),
            },
        },
    }
}

/// Reads the app bundle identifier from the text of an `Info.plist`: the
/// missing key and the missing value are errors of their own.
pub fn plist_bundle_id(content: &str) -> (r: Result<String, DeviceError>)
    ensures
        after(content@, "<key>CFBundleIdentifier</key>"@) is None <==> (r matches Err(DeviceError::BundleKeyMissing)),
        r matches Ok(b) ==> plist_bundle(content@) == Ok::<Seq<char>, ()>(b@),
        r is Err <==> plist_bundle(content@) is Err,
{
    let c = chars_of(content);
    let rest = match after_exec(&c, "<key>CFBundleIdentifier</key>") {
        Some(r) => r,
        None => return Err(DeviceError::BundleKeyMissing),
    };
    let value = match after_exec(&rest, "<string>") {
        Some(v) => v,
        None => return Err(DeviceError::BundleValueMissing),
    };
    match before_exec(&value, "</string>") {
        Some(v) => Ok(string_of(&trim_chars(&v))),
        None => Err(DeviceError::BundleValueMissing),
    }
}

/// The pattern that finds the bundle identifier in an `Info.plist`.
pub open spec fn bundle_pattern() -> Seq<char> {
    "<key>CFBundleIdentifier</key>\\s*<string>([^<]+)</string>"@
}

/// The pattern that finds the bundle identifier in an `Info.plist`.
pub fn bundle_id_pattern() -> (r: &'static str)
    ensures
        r@ == bundle_pattern(),
{
    "<key>CFBundleIdentifier</key>\\s*<string>([^<]+)</string>"
}

/// What `get_bundle_id` returns for the result of the search: the captured
/// identifier, `BundleKeyMissing` when there was no match, `BundleValueMissing`
/// when the group took no part.
pub fn bundle_id_from_capture(found: &Option<Option<String>>) -> (r: Result<String, DeviceError>)
    ensures
        *found matches Some(Some(t)) ==> (r matches Ok(b) && b@ == t@),
        *found is None ==> (r matches Err(DeviceError::BundleKeyMissing)),
        *found matches Some(None) ==> (r matches Err(DeviceError::BundleValueMissing)),
{
    match found {
        None => Err(DeviceError::BundleKeyMissing),
        Some(None) => Err(DeviceError::BundleValueMissing),
        Some(Some(t)) => Ok(owned(t.as_str())),
    }
}

/// Reads the bundle identifier from the text of an `Info.plist` with the
/// regular expression `<key>CFBundleIdentifier</key>\s*<string>([^<]+)</string>`.
pub fn get_bundle_id(plist_content: &str) -> (r: Result<String, DeviceError>)
    ensures
        !regex_compiles(bundle_pattern()) ==> (r matches Err(DeviceError::PatternRejected)),
        regex_compiles(bundle_pattern()) ==> match regex_group(bundle_pattern(), plist_content@, 1) {
            Some(Some(t)) => r matches Ok(b) && b@ == t,
            Some(None) => r matches Err(DeviceError::BundleValueMissing),
            None => r matches Err(DeviceError::BundleKeyMissing),
        },
{
    let mut texts: Vec<String> = Vec::new();
    texts.push(owned(plist_content));
    match regex_captures_each(bundle_id_pattern(), &texts, 1) {
        Ok(found) => {
            assert(found_view(found@).len() == found@.len());
            assert(texts@.map_values(|t: String| regex_group(bundle_pattern(), t@, 1))[0] == regex_group(bundle_pattern(), plist_content@, 1));
            assert(found_view(found@)[0] == regex_group(bundle_pattern(), plist_content@, 1));
            bundle_id_from_capture(&found[0])
        },
        Err(_) => Err(DeviceError::PatternRejected),
    }
}

/// The pattern that finds the identifier of a device of the (lower-case)
/// target in a line of `xcrun xctrace list devices`; none for other targets.
pub open spec fn udid_pattern(target: Seq<char>) -> Option<Seq<char>> {
    if target == "iphone"@ {
        Some("(?i)^iPhone\\s+\\([^)]+\\)\\s+\\(([0-9a-f]{8}-[0-9a-f]{16})\\)"@)
    } else if target == "ipad"@ {
        Some("(?i)^iPad\\s+\\([^)]+\\)\\s+\\(([0-9a-f]{8}-[0-9a-f]{16})\\)"@)
    } else if target == "macos"@ {
        Some(
            "(?i)^[^\\n]*MacBook[^\\n]*\\s+\\(([0-9a-f]{8}-[0-9a-f]{4}-[0-9a-f]{4}-[0-9a-f]{4}-[0-9a-f]{12})\\)"@,
        )
    } else {
        None
    }
}

/// The identifier length that a (lower-case) target's devices have.
pub open spec fn udid_length_ok(target: Seq<char>, udid: Seq<char>) -> bool {
    ((target == "iphone"@ || target == "ipad"@) && udid.len() == 25) || (target == "macos"@ && udid.len() == 36)
}

/// The identifiers that the searches found on the lines, in order: those of
/// the length the target's devices have.
pub open spec fn found_udids(target: Seq<char>, found: Seq<Option<Option<Seq<char>>>>) -> Seq<Seq<char>>
    decreases found.len(),
{
    if found.len() == 0 {
        Seq::empty()
    } else {
        let head = found_udids(target, found.drop_last());
        match found.last() {
            Some(Some(u)) => if udid_length_ok(target, u) {
                head.push(u)
            } else {
                head
            },
            _ => head,
        }
    }
}

/// Chooses the device identifier from the results of the searches on each
/// line: exactly one identifier of the right length is the answer; none is
/// `NoDevice`; several are `MultipleDevices` with all of them.
pub fn select_udid(target: &str, found: &Vec<Option<Option<String>>>) -> (r: Result<String, DeviceError>)
    ensures
        found_udids(target@, found_view(found@)).len() == 1 ==> (r matches Ok(u) && u@ == found_udids(
            target@,
            found_view(found@),
        )[0]),
        found_udids(target@, found_view(found@)).len() == 0 ==> (r matches Err(DeviceError::NoDevice)),
        found_udids(target@, found_view(found@)).len() > 1 ==> (r matches Err(
            DeviceError::MultipleDevices(all),
        ) && all@.map_values(|s: String| s@) == found_udids(target@, found_view(found@))),
{
    let is_phone = str_eq(target, "iphone") || str_eq(target, "ipad");
    let is_mac = str_eq(target, "macos");
    let mut udids: Vec<String> = Vec::new();
    let mut i: usize = 0;
    while i < found.len()
        invariant
            i <= found.len(),
            is_phone == (target@ == "iphone"@ || target@ == "ipad"@),
            is_mac == (target@ == "macos"@),
            udids@.map_values(|s: String| s@) == found_udids(target@, found_view(found@).take(i as int)),
        decreases found.len() - i,
    {
        let ghost fv = found_view(found@);
        assert(fv.take(i + 1).drop_last() =~= fv.take(i as int));
        let ghost before = udids@.map_values(|s: String| s@);
        match &found[i] {
            Some(Some(u)) => {
                let n = chars_of(u.as_str()).len();
                if (is_phone && n == 25) || (is_mac && n == 36) {
                    udids.push(owned(u.as_str()));
                    assert(udids@.map_values(|s: String| s@) =~= before.push(u@));
                }
            },
            _ => {},
        }
        i += 1;
    }
    assert(found_view(found@).take(found.len() as int) =~= found_view(found@));
    if udids.len() == 0 {
        Err(DeviceError::NoDevice)
    } else if udids.len() == 1 {
        Ok(owned(udids[0].as_str()))
    } else {
        Err(DeviceError::MultipleDevices(udids))
    }
}

/// The pattern for the device target, by its lower-case name.
fn udid_pattern_exec(target: &str) -> (r: Option<&'static str>)
    ensures
        match r {
            Some(p) => udid_pattern(target@) == Some(p@),
            None => udid_pattern(target@) is None,
        },
{
    if str_eq(target, "iphone") {
        Some("(?i)^iPhone\\s+\\([^)]+\\)\\s+\\(([0-9a-f]{8}-[0-9a-f]{16})\\)")
    } else if str_eq(target, "ipad") {
        Some("(?i)^iPad\\s+\\([^)]+\\)\\s+\\(([0-9a-f]{8}-[0-9a-f]{16})\\)")
    } else if str_eq(target, "macos") {
        Some(
            "(?i)^[^\\n]*MacBook[^\\n]*\\s+\\(([0-9a-f]{8}-[0-9a-f]{4}-[0-9a-f]{4}-[0-9a-f]{4}-[0-9a-f]{12})\\)",
        )
    } else {
        None
    }
}

/// What the searches with the target's pattern find on each line of the output.
pub open spec fn line_captures(pattern: Seq<char>, output: Seq<char>) -> Seq<Option<Option<Seq<char>>>> {
    lines(output).map_values(|l: Seq<char>| regex_group(pattern, l, 1))
}

/// Finds the identifier of the one connected device of a target (`iphone`,
/// `ipad` or `macos`, in any case) in the output of `xcrun xctrace list
/// devices`: each line is searched with the target's pattern, and the
/// identifiers of the right length decide as `select_udid` says.
pub fn get_udid_by_target(device_target: &str, xctrace_output: &str) -> (r: Result<String, DeviceError>)
    ensures
        udid_pattern(lowercase(device_target@)) is None ==> (r matches Err(DeviceError::InvalidTarget)),
        udid_pattern(lowercase(device_target@)) matches Some(p) ==> {
            let t = lowercase(device_target@);
            let us = found_udids(t, line_captures(p, xctrace_output@));
            &&& !regex_compiles(p) ==> (r matches Err(DeviceError::PatternRejected))
            &&& regex_compiles(p) && us.len() == 1 ==> (r matches Ok(u) && u@ == us[0])
            &&& regex_compiles(p) && us.len() == 0 ==> (r matches Err(DeviceError::NoDevice))
            &&& regex_compiles(p) && us.len() > 1 ==> (r matches Err(DeviceError::MultipleDevices(all)) && all@.map_values(|s: String| s@) == us)
        },
{
    let target = to_lowercase(device_target);
    let pattern = match udid_pattern_exec(target.as_str()) {
        Some(p) => p,
        None => return Err(DeviceError::InvalidTarget),
    };
    let all = lines_chars(&chars_of(xctrace_output));
    let mut texts: Vec<String> = Vec::new();
    let mut i: usize = 0;
    while i < all.len()
        invariant
            i <= all.len(),
            texts@.map_values(|t: String| t@) == all@.map_values(|l: Vec<char>| l@).take(i as int),
        decreases all.len() - i,
    {
        let ghost before = texts@.map_values(|t: String| t@);
        texts.push(string_of(&all[i]));
        assert(texts@.map_values(|t: String| t@) =~= before.push(all@[i as int]@));
        assert(all@.map_values(|l: Vec<char>| l@).take(i + 1) =~= all@.map_values(|l: Vec<char>| l@).take(i as int).push(all@[i as int]@));
        i += 1;
    }
    let ghost ls = all@.map_values(|l: Vec<char>| l@);
    assert(ls.take(all.len() as int) =~= ls);
    match regex_captures_each(pattern, &texts, 1) {
        Ok(found) => {
            assert(texts@.map_values(|t: String| regex_group(pattern@, t@, 1)) =~= line_captures(pattern@, xctrace_output@)) by {
                assert forall|j: int| 0 <= j < texts.len() implies texts@[j]@ == ls[j] by {
                    assert(texts@.map_values(|t: String| t@)[j] == ls[j]);
                }
            }
            select_udid(target.as_str(), &found)
        },
        Err(_) => Err(DeviceError::PatternRejected),
    }
}


/// The pattern of a device identifier in the output of `xcrun devicectl list devices`.
pub open spec fn uuid_pattern() -> Seq<char> {
    "[0-9a-fA-F]{8}-[0-9a-fA-F]{4}-[0-9a-fA-F]{4}-[0-9a-fA-F]{4}-[0-9a-fA-F]{12}"@
}

/// The pattern of a device identifier.
pub fn device_uuid_pattern() -> (r: &'static str)
    ensures
        r@ == uuid_pattern(),
{
    "[0-9a-fA-F]{8}-[0-9a-fA-F]{4}-[0-9a-fA-F]{4}-[0-9a-fA-F]{4}-[0-9a-fA-F]{12}"
}

/// Chooses the device identifier among the matches of the identifier
/// pattern: exactly one match is the answer; none is `NoDeviceId`; several are
/// `MultipleDeviceIds`.
pub fn device_identifier_from_matches(matches: &Vec<String>) -> (r: Result<String, DeviceError>)
    ensures
        matches.len() == 1 ==> (r matches Ok(u) && u@ == matches@[0]@),
        matches.len() == 0 ==> (r matches Err(DeviceError::NoDeviceId)),
        matches.len() > 1 ==> (r matches Err(DeviceError::MultipleDeviceIds)),
{
    if matches.len() == 1 {
        Ok(owned(matches[0].as_str()))
    } else if matches.len() == 0 {
        Err(DeviceError::NoDeviceId)
    } else {
        Err(DeviceError::MultipleDeviceIds)
    }
}

/// Finds the identifier of the one connected device in the output of `xcrun
/// devicectl list devices`, as `device_identifier_from_matches` decides on the
/// matches of the identifier pattern.
pub fn get_device_identifier(devicectl_output: &str) -> (r: Result<String, DeviceError>)
    ensures
        !regex_compiles(uuid_pattern()) ==> (r matches Err(DeviceError::PatternRejected)),
        regex_compiles(uuid_pattern()) ==> {
            let ms = regex_matches(uuid_pattern(), devicectl_output@);
            &&& ms.len() == 1 ==> (r matches Ok(u) && u@ == ms[0])
            &&& ms.len() == 0 ==> (r matches Err(DeviceError::NoDeviceId))
            &&& ms.len() > 1 ==> (r matches Err(DeviceError::MultipleDeviceIds))
        },
{
    match regex_find_all(device_uuid_pattern(), devicectl_output) {
        Ok(ms) => {
            assert(ms@.map_values(|s: String| s@).len() == ms.len());
            if ms.len() == 1 {
                assert(ms@.map_values(|s: String| s@)[0] == ms@[0]@);
            }
            device_identifier_from_matches(&ms)
        },
        Err(_) => Err(DeviceError::PatternRejected),
    }
}

/// How many of the lines, after the first, end (once trimmed) with `device`:
/// the authorized devices that `adb devices` lists below its header.
pub open spec fn count_device_lines(ls: Seq<Seq<char>>) -> nat
    decreases ls.len(),
{
    if ls.len() == 0 {
        0
    } else {
        count_device_lines(ls.drop_last()) + if ends_with(trim(ls.last()), "device"@) {
            1nat
        } else {
            0nat
        }
    }
}

/// Whether the output of `adb devices` lists exactly one authorized device.
pub open spec fn one_android_device(output: Seq<char>) -> bool {
    lines(output).len() > 0 && count_device_lines(lines(output).skip(1)) == 1
}

/// Whether the output of `adb devices` lists exactly one authorized device:
/// the lines after the header that end with `device` once trimmed.
pub fn is_android_device_connected(adb_output: &str) -> (r: bool)
    ensures
        r == one_android_device(adb_output@),
{
    let all = lines_chars(&chars_of(adb_output));
    let ghost ls = all@.map_values(|l: Vec<char>| l@);
    if all.len() == 0 {
        return false;
    }
    let suffix = chars_of("device");
    let mut count: usize = 0;
    let mut i: usize = 1;
    assert(ls.skip(1).take(0) =~= Seq::<Seq<char>>::empty());
    while i < all.len()
        invariant
            1 <= i <= all.len(),
            ls == all@.map_values(|l: Vec<char>| l@),
            suffix@ == "device"@,
            count == count_device_lines(ls.skip(1).take(i - 1)),
            count <= i,
        decreases all.len() - i,
    {
        let t = trim_chars(&all[i]);
        assert(ls.skip(1).take(i as int).drop_last() =~= ls.skip(1).take(i - 1));
        assert(ls.skip(1).take(i as int).last() == ls[i as int]);
        if ends_with_chars(&t, &suffix) {
            count += 1;
        }
        i += 1;
    }
    assert(ls.skip(1).take(all.len() - 1) =~= ls.skip(1));
    count == 1
}

/// Whether a character is a quote mark, `"` or `'`.
pub open spec fn is_quote(c: char) -> bool {
    c == '"' || c == '\''
}

/// The text with leading quote marks removed.
pub open spec fn unquote_start(s: Seq<char>) -> Seq<char>
    decreases s.len(),
{
    if s.len() > 0 && is_quote(s[0]) {
        unquote_start(s.drop_first())
    } else {
        s
    }
}

/// The text with trailing quote marks removed.
pub open spec fn unquote_end(s: Seq<char>) -> Seq<char>
    decreases s.len(),
{
    if s.len() > 0 && is_quote(s.last()) {
        unquote_end(s.drop_last())
    } else {
        s
    }
}

/// The text with quote marks removed at both ends.
pub open spec fn unquote(s: Seq<char>) -> Seq<char> {
    unquote_end(unquote_start(s))
}

/// Removes quote marks at both ends.
fn unquote_chars(s: &Vec<char>) -> (r: Vec<char>)
    ensures
        r@ == unquote(s@),
{
    let mut i: usize = 0;
    assert(s@.skip(0) =~= s@);
    while i < s.len() && (s[i] == '"' || s[i] == '\'')
        invariant
            i <= s.len(),
            unquote_start(s@) == unquote_start(s@.skip(i as int)),
        decreases s.len() - i,
    {
        assert(s@.skip(i as int).drop_first() =~= s@.skip(i + 1));
        i += 1;
    }
    let mut k: usize = s.len();
    let ghost t = s@.skip(i as int);
    assert(t.take(t.len() as int) =~= t);
    while k > i && (s[k - 1] == '"' || s[k - 1] == '\'')
        invariant
            i <= k <= s.len(),
            t == s@.skip(i as int),
            unquote_end(t) == unquote_end(s@.subrange(i as int, k as int)),
        decreases k,
    {
        assert(s@.subrange(i as int, k as int).drop_last() =~= s@.subrange(i as int, k - 1));
        k -= 1;
    }
    if i == s.len() {
        assert(s@.subrange(i as int, k as int) =~= t);
    }
    let mut r: Vec<char> = Vec::new();
    let mut j: usize = i;
    while j < k
        invariant
            i <= j <= k <= s.len(),
            r@ == s@.subrange(i as int, j as int),
        decreases k - j,
    {
        r.push(s[j]);
        j += 1;
        assert(r@ =~= s@.subrange(i as int, j as int));
    }
    assert(s@.subrange(i as int, k as int).len() == 0 || s@.subrange(i as int, k as int).last() == s@[k - 1]);
    r
}

/// The value that a trimmed line of `Cargo.toml` gives the key whose line
/// begins with `prefix`: the text after the first `=`, trimmed and unquoted.
pub open spec fn toml_value(t: Seq<char>, prefix: Seq<char>) -> Option<Seq<char>> {
    if starts_with(t, prefix) {
        match find(t, seq!['=']) {
            Some(i) => Some(unquote(trim(t.skip(i + 1)))),
            None => None,
        }
    } else {
        None
    }
}

/// The APK name and package that the lines of `Cargo.toml` give: each line
/// that, trimmed, begins with `apk_name =` (or else `package =`) sets the
/// value; the last one decides; both start empty.
pub open spec fn apk_fields(ls: Seq<Seq<char>>) -> (Seq<char>, Seq<char>)
    decreases ls.len(),
{
    if ls.len() == 0 {
        (Seq::empty(), Seq::empty())
    } else {
        let (apk, pkg) = apk_fields(ls.drop_last());
        let t = trim(ls.last());
        match toml_value(t, "apk_name ="@) {
            Some(v) => (v, pkg),
            None => if starts_with(t, "apk_name ="@) {
                (apk, pkg)
            } else {
                match toml_value(t, "package ="@) {
                    Some(v) => (apk, v),
                    None => (apk, pkg),
                }
            },
        }
    }
}

/// Why the APK of a project cannot be located.
#[derive(Debug)]
pub enum ApkError {
    /// `Cargo.toml` sets no `apk_name`.
    ApkNameMissing,
    /// `Cargo.toml` sets no `package`.
    PackageMissing,
}

/// The value a trimmed line gives the key with `prefix`.
fn toml_value_exec(t: &Vec<char>, prefix: &str) -> (r: Option<Vec<char>>)
    ensures
        match r {
            Some(v) => toml_value(t@, prefix@) == Some(v@),
            None => toml_value(t@, prefix@) is None,
        },
{
    if !starts_with_chars(t, &chars_of(prefix)) {
        return None;
    }
    let mut eq: Vec<char> = Vec::new();
    eq.push('=');
    assert(eq@ =~= seq!['=']);
    match find_chars(t, &eq) {
        Some(i) => {
            proof {
                crate::text::lemma_find(t@, eq@);
            }
            assert(crate::text::occurs_at(t@, eq@, i as int));
            let tl: usize = t.len();
            assert(i + 1 <= tl);
            let mut rest: Vec<char> = Vec::new();
            let mut j: usize = i + 1;
            while j < t.len()
                invariant
                    i + 1 <= j <= t.len(),
                    rest@ == t@.subrange(i + 1, j as int),
                decreases t.len() - j,
            {
                rest.push(t[j]);
                j += 1;
                assert(rest@ =~= t@.subrange(i + 1, j as int));
            }
            assert(rest@ =~= t@.skip(i + 1));
            Some(unquote_chars(&trim_chars(&rest)))
        },
        None => None,
    }
}

/// Reads the APK name and the package from the text of a project's
/// `Cargo.toml`; a missing APK name is checked first.
pub fn apk_names(cargo_toml: &str) -> (r: Result<(String, String), ApkError>)
    ensures
        apk_fields(lines(cargo_toml@)).0.len() == 0 ==> (r matches Err(ApkError::ApkNameMissing)),
        apk_fields(lines(cargo_toml@)).0.len() > 0 && apk_fields(lines(cargo_toml@)).1.len() == 0 ==> (r matches Err(ApkError::PackageMissing)),
        r matches Ok((a, p)) ==> apk_fields(lines(cargo_toml@)) == (a@, p@) && a@.len() > 0 && p@.len() > 0,
        r is Ok <==> apk_fields(lines(cargo_toml@)).0.len() > 0 && apk_fields(lines(cargo_toml@)).1.len() > 0,
{
    let all = lines_chars(&chars_of(cargo_toml));
    let ghost ls = all@.map_values(|l: Vec<char>| l@);
    let mut apk: Vec<char> = Vec::new();
    let mut pkg: Vec<char> = Vec::new();
    let mut i: usize = 0;
    while i < all.len()
        invariant
            i <= all.len(),
            ls == all@.map_values(|l: Vec<char>| l@),
            apk_fields(ls.take(i as int)) == (apk@, pkg@),
        decreases all.len() - i,
    {
        assert(ls.take(i + 1).drop_last() =~= ls.take(i as int));
        assert(ls.take(i + 1).last() == all@[i as int]@);
        let t = trim_chars(&all[i]);
        if starts_with_chars(&t, &chars_of("apk_name =")) {
            match toml_value_exec(&t, "apk_name =") {
                Some(v) => apk = v,
                None => {},
            }
        } else {
            match toml_value_exec(&t, "package =") {
                Some(v) => pkg = v,
                None => {},
            }
        }
        i += 1;
    }
    assert(ls.take(all.len() as int) =~= ls);
    if apk.len() == 0 {
        return Err(ApkError::ApkNameMissing);
    }
    if pkg.len() == 0 {
        return Err(ApkError::PackageMissing);
    }
    Ok((string_of(&apk), string_of(&pkg)))
}

/// What a provisioning profile says of a device.
#[derive(Debug)]
pub enum ProvisionCheck {
    /// The profile does not list the device (or lists no devices readably).
    NotProvisioned,
    /// The profile lists the device; whether it is installed on the device
    /// depends on whether the device's profile listing names this profile.
    CheckInstalled(String),
    /// The profile lists the device but has no readable non-empty name.
    NameMissing,
}

/// The text from the first occurrence of `key` on, if `key` occurs.
pub open spec fn from_key(s: Seq<char>, key: Seq<char>) -> Option<Seq<char>> {
    match find(s, key) {
        Some(i) => Some(s.skip(i)),
        None => None,
    }
}

/// The name of a provisioning profile: the trimmed text between the first
/// `<string>` from the first `<key>Name</key>` on and the next `</string>`.
pub open spec fn profile_name_of(xml: Seq<char>) -> Option<Seq<char>> {
    match from_key(xml, "<key>Name</key>"@) {
        None => None,
        Some(a) => match after(a, "<string>"@) {
            None => None,
            Some(b) => match before(b, "</string>"@) {
                None => None,
                Some(c) => Some(trim(c)),
            },
        },
    }
}

/// The devices array of a provisioning profile: the text between the first
/// `<array>` after the first `<key>ProvisionedDevices</key>` and the next `</array>`.
pub open spec fn provisioned_devices(xml: Seq<char>) -> Option<Seq<char>> {
    match after(xml, "<key>ProvisionedDevices</key>"@) {
        None => None,
        Some(a) => match after(a, "<array>"@) {
            None => None,
            Some(b) => before(b, "</array>"@),
        },
    }
}

/// Whether the profile lists the device `udid` as `<string>udid</string>` in
/// its devices array; a profile without a readable array lists none.
pub open spec fn lists_device(xml: Seq<char>, udid: Seq<char>) -> bool {
    match provisioned_devices(xml) {
        Some(arr) => contains(arr, "<string>"@ + udid + "</string>"@),
        None => false,
    }
}

/// The text from the first occurrence of `key` on.
fn from_key_exec(s: &Vec<char>, key: &str) -> (r: Option<Vec<char>>)
    ensures
        match r {
            Some(v) => from_key(s@, key@) == Some(v@),
            None => from_key(s@, key@) is None,
        },
{
    let k = chars_of(key);
    match find_chars(s, &k) {
        Some(i) => {
            proof {
                crate::text::lemma_find(s@, k@);
            }
            let mut v: Vec<char> = Vec::new();
            let mut j: usize = i;
            while j < s.len()
                invariant
                    i <= j <= s.len(),
                    v@ == s@.subrange(i as int, j as int),
                decreases s.len() - j,
            {
                v.push(s[j]);
                j += 1;
                assert(v@ =~= s@.subrange(i as int, j as int));
            }
            assert(v@ =~= s@.skip(i as int));
            Some(v)
        },
        None => None,
    }
}

/// Reads a decoded provisioning profile (its XML) for the device `udid`: a
/// profile that does not list the device says it is not provisioned; one that
/// lists it gives its non-empty name, whose installation is checked next, or
/// says that the name is missing.
pub fn check_provision_profile(xml: &str, udid: &str) -> (r: ProvisionCheck)
    ensures
        !lists_device(xml@, udid@) ==> (r matches ProvisionCheck::NotProvisioned),
        lists_device(xml@, udid@) ==> match profile_name_of(xml@) {
            Some(n) => if n.len() > 0 {
                r matches ProvisionCheck::CheckInstalled(m) && m@ == n
            } else {
                r matches ProvisionCheck::NameMissing
            },
            None => r matches ProvisionCheck::NameMissing,
        },
{
    let x = chars_of(xml);
    let a = match after_exec(&x, "<key>ProvisionedDevices</key>") {
        Some(a) => a,
        None => return ProvisionCheck::NotProvisioned,
    };
    let b = match after_exec(&a, "<array>") {
        Some(b) => b,
        None => return ProvisionCheck::NotProvisioned,
    };
    let arr = match before_exec(&b, "</array>") {
        Some(arr) => arr,
        None => return ProvisionCheck::NotProvisioned,
    };
    let entry = concat(concat("<string>", udid).as_str(), "</string>");
    if !contains_chars(&arr, &chars_of(entry.as_str())) {
        return ProvisionCheck::NotProvisioned;
    }
    let na = match from_key_exec(&x, "<key>Name</key>") {
        Some(v) => v,
        None => return ProvisionCheck::NameMissing,
    };
    let nb = match after_exec(&na, "<string>") {
        Some(v) => v,
        None => return ProvisionCheck::NameMissing,
    };
    let nc = match before_exec(&nb, "</string>") {
        Some(v) => v,
        None => return ProvisionCheck::NameMissing,
    };
    let name = trim_chars(&nc);
    if name.len() == 0 {
        ProvisionCheck::NameMissing
    } else {
        ProvisionCheck::CheckInstalled(string_of(&name))
    }
}

/// Whether the device's listing of installed profiles names the profile.
pub fn profile_installed(listing: &str, profile_name: &str) -> (r: bool)
    ensures
        r == contains(listing@, profile_name@),
{
    crate::text::str_contains(listing, profile_name)
}

/// The names among `names` that end with `.mobileprovision`, in order.
pub open spec fn provision_files(names: Seq<Seq<char>>) -> Seq<Seq<char>>
    decreases names.len(),
{
    if names.len() == 0 {
        Seq::empty()
    } else if ends_with(names.last(), ".mobileprovision"@) {
        provision_files(names.drop_last()).push(names.last())
    } else {
        provision_files(names.drop_last())
    }
}

/// The file names in a directory listing that end with `.mobileprovision`.
pub fn mobileprovision_files(names: &Vec<String>) -> (r: Vec<String>)
    ensures
        r@.map_values(|s: String| s@) == provision_files(names@.map_values(|s: String| s@)),
{
    let ghost ns = names@.map_values(|s: String| s@);
    let suffix = chars_of(".mobileprovision");
    let mut r: Vec<String> = Vec::new();
    let mut i: usize = 0;
    while i < names.len()
        invariant
            i <= names.len(),
            ns == names@.map_values(|s: String| s@),
            suffix@ == ".mobileprovision"@,
            r@.map_values(|s: String| s@) == provision_files(ns.take(i as int)),
        decreases names.len() - i,
    {
        assert(ns.take(i + 1).drop_last() =~= ns.take(i as int));
        assert(ns.take(i + 1).last() == names@[i as int]@);
        let ghost before = r@.map_values(|s: String| s@);
        if ends_with_chars(&chars_of(names[i].as_str()), &suffix) {
            r.push(owned(names[i].as_str()));
            assert(r@.map_values(|s: String| s@) =~= before.push(names@[i as int]@));
        }
        i += 1;
    }
    assert(ns.take(names.len() as int) =~= ns);
    r
}

/// The provisioning profile name that the instructions recommend: `Ramp
/// Debug` for a release build and `Ramp Release` otherwise.
pub fn recommended_profile_name(release: bool) -> (r: &'static str)
    ensures
        release ==> r@ == "Ramp Debug"@,
        !release ==> r@ == "Ramp Release"@,
{
    if release {
        "Ramp Debug"
    } else {
        "Ramp Release"
    }
}

} // verus!
