//! The `.ramp` configuration file: rewriting it when a tool path is recorded,
//! and what reading it back gives.
use vstd::prelude::*;
use crate::text::{
    append_chars, chars_of, copy_chars, contains, find, lemma_find, lines, lines_chars, lines_from, occurs_at,
    opt_view, is_space, split_once, starts_with, starts_with_chars, string_of, strip_cr, trim,
    trim_end, trim_start,
};
use crate::session::{
    config_entry, config_lines, config_value, join_lines, key_name, key_named, line_sets,
    rewrite_line, rewritten_lines, PathKey,
};

verus! {

/// The text of the configuration file after recording `path_name` as
/// `file_path`, given the file's current text (`None` when there is no file).
/// Every line that begins with `path_name=` is replaced by the new entry; when
/// there is none, the entry is appended; every line ends with `'\n'`.
pub fn rewrite_config(existing: Option<String>, path_name: &str, file_path: &str) -> (r: String)
    ensures
        r@ == join_lines(rewritten_lines(config_lines(opt_view(existing)), path_name@, file_path@)),
{
    let ghost old_lines = config_lines(opt_view(existing));
    let old: Vec<Vec<char>> = match existing {
        Some(t) => lines_chars(&chars_of(t.as_str())),
        None => Vec::new(),
    };
    assert(old@.map_values(|l: Vec<char>| l@) =~= old_lines);
    let mut prefix = chars_of(path_name);
    prefix.push('=');
    let mut entry = copy_chars(&prefix);
    append_chars(&mut entry, &chars_of(file_path));
    let ghost pv = path_name@.push('=');
    assert(prefix@ =~= pv);
    assert(entry@ =~= config_entry(path_name@, file_path@));
    let ghost f = |l: Seq<char>| rewrite_line(l, path_name@, file_path@);
    let mut out: Vec<Vec<char>> = Vec::new();
    let mut found = false;
    let mut i: usize = 0;
    while i < old.len()
        invariant
            i <= old.len(),
            out.len() == i,
            old_lines == old@.map_values(|l: Vec<char>| l@),
            pv == path_name@.push('='),
            f == (|l: Seq<char>| rewrite_line(l, path_name@, file_path@)),
            prefix@ == pv,
            entry@ == config_entry(path_name@, file_path@),
            out@.map_values(|l: Vec<char>| l@) == old_lines.take(i as int).map_values(f),
            found == exists|j: int| 0 <= j < i && starts_with(#[trigger] old_lines[j], pv),
        decreases old.len() - i,
    {
        let ghost before = out@.map_values(|l: Vec<char>| l@);
        let ghost line = old_lines[i as int];
        let hit = starts_with_chars(&old[i], &prefix);
        if hit {
            out.push(copy_chars(&entry));
            found = true;
        } else {
            out.push(copy_chars(&old[i]));
        }
        assert(out@.map_values(|l: Vec<char>| l@) =~= before.push(f(line)));
        assert(old_lines.take(i + 1).map_values(f) =~= old_lines.take(i as int).map_values(f).push(
            f(line),
        ));
        i += 1;
    }
    assert(old_lines.take(old.len() as int) =~= old_lines);
    if !found {
        let ghost before = out@.map_values(|l: Vec<char>| l@);
        out.push(copy_chars(&entry));
        assert(out@.map_values(|l: Vec<char>| l@) =~= before.push(entry@));
    }
    let ghost all = out@.map_values(|l: Vec<char>| l@);
    assert(all =~= rewritten_lines(old_lines, path_name@, file_path@));
    let mut text: Vec<char> = Vec::new();
    let mut j: usize = 0;
    while j < out.len()
        invariant
            j <= out.len(),
            all == out@.map_values(|l: Vec<char>| l@),
            text@ == join_lines(all.take(j as int)),
        decreases out.len() - j,
    {
        append_chars(&mut text, &out[j]);
        text.push('\n');
        assert(all.take(j + 1).drop_last() =~= all.take(j as int));
        assert(text@ =~= join_lines(all.take(j + 1)));
        j += 1;
    }
    assert(all.take(out.len() as int) =~= all);
    string_of(&text)
}

/// The name of every tool path is the only name that denotes it, holds no `=`
/// and no line break, and has no whitespace at either end.
pub proof fn lemma_key_names(k: PathKey)
    ensures
        key_named(key_name(k)) == Some(k),
        !contains(key_name(k), seq!['=']),
        !contains(key_name(k), seq!['\n']),
        trim(key_name(k)) == key_name(k),
{
    reveal_strlit("sdk_path");
    reveal_strlit("ndk_path");
    reveal_strlit("cargo_path");
    reveal_strlit("cargo_apk_path");
    reveal_strlit("zigbuild_path");
    reveal_strlit("rustup_path");
    reveal_strlit("homebrew_path");
    reveal_strlit("cmdline_tools_path");
    reveal_strlit("build_tools_path");
    reveal_strlit("sdkmanager_path");
    reveal_strlit("platform_tools_path");
    reveal_strlit("platforms_path");
    reveal_strlit("ndk_bundle_path");
    reveal_strlit("java_path");
    reveal_strlit("keystore_path");
    let n = key_name(k);
    assert(n.len() > 0);
    assert(!is_space(n[0]));
    assert(!is_space(n.last()));
    assert(trim_start(n) == n);
    assert(trim_end(n) == n);
    assert forall|i: int| !occurs_at(n, seq!['='], i) by {
        if occurs_at(n, seq!['='], i) {
            assert(n.subrange(i, i + 1)[0] == '=');
        }
    }
    assert forall|i: int| !occurs_at(n, seq!['\n'], i) by {
        if occurs_at(n, seq!['\n'], i) {
            assert(n.subrange(i, i + 1)[0] == '\n');
        }
    }
}


/// No character of `s` is `c`.
pub open spec fn lacks(s: Seq<char>, c: char) -> bool {
    forall|i: int| 0 <= i < s.len() ==> s[i] != c
}

/// A text in which the one-character pattern `c` does not occur lacks `c`.
proof fn lemma_lacks(s: Seq<char>, c: char)
    requires
        !contains(s, seq![c]),
    ensures
        lacks(s, c),
{
    assert forall|i: int| 0 <= i < s.len() implies s[i] != c by {
        if s[i] == c {
            assert(s.subrange(i, i + 1) =~= seq![c]);
            assert(occurs_at(s, seq![c], i));
        }
    }
}

/// Joining a line in front adds it and its line break in front.
proof fn lemma_join_front(a: Seq<char>, ls: Seq<Seq<char>>)
    ensures
        join_lines(seq![a] + ls) == a + seq!['\n'] + join_lines(ls),
    decreases ls.len(),
{
    if ls.len() == 0 {
        assert(seq![a] + ls =~= seq![a]);
        assert(seq![a].drop_last() =~= Seq::<Seq<char>>::empty());
        assert(join_lines(Seq::<Seq<char>>::empty()) =~= Seq::<char>::empty());
        assert(seq![a].last() == a);
        assert(join_lines(seq![a]) =~= a + seq!['\n']);
        assert(a + seq!['\n'] + Seq::<char>::empty() =~= a + seq!['\n']);
    } else {
        lemma_join_front(a, ls.drop_last());
        assert((seq![a] + ls).drop_last() =~= seq![a] + ls.drop_last());
        assert((seq![a] + ls).last() == ls.last());
        assert(a + seq!['\n'] + join_lines(ls.drop_last()) + ls.last() + seq!['\n'] =~= a + seq!['\n']
            + (join_lines(ls.drop_last()) + ls.last() + seq!['\n']));
    }
}

/// Reading lines over a stretch without line breaks followed by one line break
/// gives that stretch (joined to the text read so far) as one line.
proof fn lemma_lines_chunk(x: Seq<char>, rest: Seq<char>, cur: Seq<char>)
    requires
        lacks(x, '\n'),
    ensures
        lines_from(x + seq!['\n'] + rest, cur) == seq![strip_cr(cur + x)] + lines_from(
            rest,
            Seq::empty(),
        ),
    decreases x.len(),
{
    let s = x + seq!['\n'] + rest;
    if x.len() == 0 {
        assert(s =~= seq!['\n'] + rest);
        assert(s.drop_first() =~= rest);
        assert(cur + x =~= cur);
    } else {
        assert(s[0] == x[0]);
        assert(s.drop_first() =~= x.drop_first() + seq!['\n'] + rest);
        lemma_lines_chunk(x.drop_first(), rest, cur.push(x[0]));
        assert(cur.push(x[0]) + x.drop_first() =~= cur + x);
    }
}

/// Reading back the text of lines without line breaks gives the lines, each
/// without a final carriage return.
proof fn lemma_lines_join(ls: Seq<Seq<char>>)
    requires
        forall|i: int| 0 <= i < ls.len() ==> lacks(#[trigger] ls[i], '\n'),
    ensures
        lines(join_lines(ls)) == ls.map_values(|l: Seq<char>| strip_cr(l)),
    decreases ls.len(),
{
    if ls.len() == 0 {
        assert(ls.map_values(|l: Seq<char>| strip_cr(l)) =~= Seq::<Seq<char>>::empty());
    } else {
        let a = ls[0];
        let tail = ls.drop_first();
        assert(ls =~= seq![a] + tail);
        lemma_join_front(a, tail);
        assert forall|i: int| 0 <= i < tail.len() implies lacks(#[trigger] tail[i], '\n') by {
            assert(tail[i] == ls[i + 1]);
        }
        lemma_lines_join(tail);
        assert(lacks(ls[0], '\n'));
        lemma_lines_chunk(a, join_lines(tail), Seq::empty());
        assert(Seq::<char>::empty() + a =~= a);
        assert(ls.map_values(|l: Seq<char>| strip_cr(l)) =~= seq![strip_cr(a)] + tail.map_values(
            |l: Seq<char>| strip_cr(l),
        ));
    }
}

/// No line read from a text holds a line break.
proof fn lemma_lines_lack_newline(s: Seq<char>, cur: Seq<char>)
    requires
        lacks(cur, '\n'),
    ensures
        forall|i: int|
            0 <= i < lines_from(s, cur).len() ==> lacks(#[trigger] lines_from(s, cur)[i], '\n'),
    decreases s.len(),
{
    if s.len() == 0 {
        if cur.len() > 0 {
            assert(lines_from(s, cur) =~= seq![cur]);
        } else {
            assert(lines_from(s, cur) =~= Seq::<Seq<char>>::empty());
        }
    } else if s[0] == '\n' {
        lemma_lines_lack_newline(s.drop_first(), Seq::empty());
        let out = lines_from(s, cur);
        let tail = lines_from(s.drop_first(), Seq::empty());
        assert(lacks(strip_cr(cur), '\n'));
        assert forall|i: int| 0 <= i < out.len() implies lacks(#[trigger] out[i], '\n') by {
            if i > 0 {
                assert(out[i] == tail[i - 1]);
            }
        }
    } else {
        lemma_lines_lack_newline(s.drop_first(), cur.push(s[0]));
        assert(lines_from(s, cur) == lines_from(s.drop_first(), cur.push(s[0])));
    }
}

/// Dropping a final whitespace character does not change the trimmed text.
proof fn lemma_trim_drop_space(s: Seq<char>)
    requires
        s.len() > 0,
        is_space(s.last()),
    ensures
        trim(s.drop_last()) == trim(s),
    decreases s.len(),
{
    if s.len() == 1 {
        assert(s.drop_last() =~= Seq::<char>::empty());
        assert(s.drop_first() =~= Seq::<char>::empty());
        assert(trim_start(s) == trim_start(s.drop_first()));
    } else if is_space(s[0]) {
        let t = s.drop_first();
        assert(s.drop_last().drop_first() =~= t.drop_last());
        assert(t.last() == s.last());
        lemma_trim_drop_space(t);
    } else {
        assert(s.drop_last()[0] == s[0]);
    }
}

/// A line `name=value`, where `name` holds no `=`, splits into `name` and `value`.
proof fn lemma_split_entry(name: Seq<char>, v: Seq<char>)
    requires
        !contains(name, seq!['=']),
    ensures
        split_once(name.push('=') + v, '=') == Some((name, v)),
{
    let s = name.push('=') + v;
    let p = seq!['='];
    let n = name.len() as int;
    lemma_find(s, p);
    assert(s.subrange(n, n + 1) =~= p);
    assert(occurs_at(s, p, n));
    match find(s, p) {
        Some(i) => {
            if i < n {
                assert(s.subrange(i, i + 1)[0] == s[i]);
                assert(name.subrange(i, i + 1) =~= s.subrange(i, i + 1));
                assert(occurs_at(name, p, i));
            }
            assert(i == n);
            assert(s.take(n) =~= name);
            assert(s.skip(n + 1) =~= v);
        },
        None => {},
    }
}

/// The entry for `k` with `value`, read back (after a final carriage return is
/// dropped), sets `k` to the trimmed value.
proof fn lemma_entry_sets(k: PathKey, value: Seq<char>)
    ensures
        line_sets(strip_cr(config_entry(key_name(k), value)), k) == Some(trim(value)),
{
    let name = key_name(k);
    lemma_key_names(k);
    let e = config_entry(name, value);
    if value.len() > 0 && value.last() == '\r' {
        assert(e.last() == '\r');
        assert(strip_cr(e) =~= name.push('=') + value.drop_last());
        lemma_split_entry(name, value.drop_last());
        lemma_trim_drop_space(value);
    } else {
        assert(e.last() != '\r') by {
            if value.len() == 0 {
                assert(e =~= name.push('='));
            }
        }
        lemma_split_entry(name, value);
    }
}

/// When line `idx` sets `k` to `v` and no later line sets `k` to anything else,
/// reading the lines gives `k` the value `v`.
proof fn lemma_last_setter(ls: Seq<Seq<char>>, k: PathKey, idx: int, v: Seq<char>, init: Option<Seq<char>>)
    requires
        0 <= idx < ls.len(),
        line_sets(ls[idx], k) == Some(v),
        forall|j: int| idx < j < ls.len() ==> #[trigger] line_sets(ls[j], k) is None || line_sets(ls[j], k) == Some(v),
    ensures
        config_value(ls, k, init) == Some(v),
    decreases ls.len(),
{
    if line_sets(ls.last(), k) is None {
        assert(idx != ls.len() - 1);
        let d = ls.drop_last();
        assert forall|j: int| idx < j < d.len() implies #[trigger] line_sets(d[j], k) is None || line_sets(d[j], k) == Some(v) by {
            assert(d[j] == ls[j]);
        }
        assert(d[idx] == ls[idx]);
        lemma_last_setter(d, k, idx, v, init);
    } else {
        assert(line_sets(ls[ls.len() - 1], k) == Some(v));
    }
}

/// A name that denotes a tool path is that path's name.
proof fn lemma_named_is_name(n: Seq<char>)
    requires
        key_named(n) is Some,
    ensures
        n == key_name(key_named(n)->0),
{
}

/// Recording a tool path and reading the configuration back gives the recorded
/// value, trimmed: after the configuration text is rewritten to record `value`
/// under `name`, reading that text sets the path to `trim(value)`, whatever it
/// held before. This holds when the value holds no line break and no line of
/// the old configuration that does not begin with `name=` also sets the path.
pub proof fn law_config_read_back(config: Option<Seq<char>>, name: Seq<char>, value: Seq<char>, init: Option<Seq<char>>)
    requires
        key_named(name) is Some,
        !contains(value, seq!['\n']),
        forall|i: int|
            0 <= i < config_lines(config).len() && !starts_with(
                #[trigger] config_lines(config)[i],
                name.push('='),
            ) ==> line_sets(strip_cr(config_lines(config)[i]), key_named(name)->0) is None,
    ensures
        config_value(
            lines(join_lines(rewritten_lines(config_lines(config), name, value))),
            key_named(name)->0,
            init,
        ) == Some(trim(value)),
{
    let k = key_named(name)->0;
    lemma_named_is_name(name);
    lemma_key_names(k);
    lemma_lacks(name, '\n');
    lemma_lacks(value, '\n');
    let old = config_lines(config);
    match config {
        Some(t) => lemma_lines_lack_newline(t, Seq::empty()),
        None => {},
    }
    let m = rewritten_lines(old, name, value);
    let entry = config_entry(name, value);
    assert(lacks(entry, '\n')) by {
        assert forall|i: int| 0 <= i < entry.len() implies entry[i] != '\n' by {
            if i < name.len() {
                assert(entry[i] == name[i]);
            } else if i > name.len() {
                assert(entry[i] == value[i - name.len() - 1]);
            }
        }
    }
    let replaced = old.map_values(|l: Seq<char>| rewrite_line(l, name, value));
    assert forall|i: int| 0 <= i < m.len() implies lacks(#[trigger] m[i], '\n') by {
        if i < old.len() {
            assert(m[i] == replaced[i]);
        }
    }
    lemma_lines_join(m);
    let nl = m.map_values(|l: Seq<char>| strip_cr(l));
    lemma_entry_sets(k, value);
    let v = trim(value);
    if exists|i: int| 0 <= i < old.len() && starts_with(#[trigger] old[i], name.push('=')) {
        let idx = choose|i: int| 0 <= i < old.len() && starts_with(#[trigger] old[i], name.push('='));
        assert(m == replaced);
        assert(nl[idx] == strip_cr(entry));
        assert forall|j: int| idx < j < nl.len() implies #[trigger] line_sets(nl[j], k) is None || line_sets(nl[j], k) == Some(v) by {
            assert(nl[j] == strip_cr(m[j]));
            if starts_with(old[j], name.push('=')) {
                assert(m[j] == entry);
            } else {
                assert(m[j] == old[j]);
            }
        }
        lemma_last_setter(nl, k, idx, v, init);
    } else {
        assert(m == replaced.push(entry));
        let idx = nl.len() - 1;
        assert(nl[idx] == strip_cr(entry));
        lemma_last_setter(nl, k, idx, v, init);
    }
}

/// Recording the same tool path twice leaves the configuration text as the
/// first recording left it: rewriting the text that recording `value` under
/// `name` produced, with the same name and value, gives that text back. This
/// holds when the value holds no line break and does not end with a carriage
/// return, and no line of the old configuration ends with one (a line read
/// back loses its trailing carriage return).
pub proof fn law_record_twice(config: Option<Seq<char>>, name: Seq<char>, value: Seq<char>)
    requires
        key_named(name) is Some,
        !contains(value, seq!['\n']),
        value.len() == 0 || value.last() != '\r',
        forall|i: int|
            0 <= i < config_lines(config).len() ==> (#[trigger] config_lines(config)[i]).len() == 0
                || config_lines(config)[i].last() != '\r',
    ensures
        join_lines(
            rewritten_lines(
                config_lines(Some(join_lines(rewritten_lines(config_lines(config), name, value)))),
                name,
                value,
            ),
        ) == join_lines(rewritten_lines(config_lines(config), name, value)),
{
    let k = key_named(name)->0;
    lemma_named_is_name(name);
    lemma_key_names(k);
    lemma_lacks(name, '\n');
    lemma_lacks(value, '\n');
    let old = config_lines(config);
    match config {
        Some(t) => lemma_lines_lack_newline(t, Seq::empty()),
        None => {},
    }
    let prefix = name.push('=');
    let entry = config_entry(name, value);
    assert(lacks(entry, '\n')) by {
        assert forall|i: int| 0 <= i < entry.len() implies entry[i] != '\n' by {
            if i < name.len() {
                assert(entry[i] == name[i]);
            } else if i > name.len() {
                assert(entry[i] == value[i - name.len() - 1]);
            }
        }
    }
    assert(entry.len() == 0 || entry.last() != '\r') by {
        if value.len() > 0 {
            assert(entry.last() == value.last());
        } else {
            assert(entry.last() == '=');
        }
    }
    assert(starts_with(entry, prefix)) by {
        assert(entry.take(prefix.len() as int) =~= prefix);
    }
    let m = rewritten_lines(old, name, value);
    let replaced = old.map_values(|l: Seq<char>| rewrite_line(l, name, value));
    assert forall|i: int| 0 <= i < m.len() implies lacks(#[trigger] m[i], '\n') && (m[i].len() == 0
        || m[i].last() != '\r') && (starts_with(m[i], prefix) ==> m[i] == entry) by {
        if i < old.len() {
            assert(m[i] == replaced[i]);
            assert(old[i] == config_lines(config)[i]);
        } else {
            assert(m[i] == entry);
        }
    }
    lemma_lines_join(m);
    let t = join_lines(m);
    assert(config_lines(Some(t)) == lines(t));
    assert(m.map_values(|l: Seq<char>| strip_cr(l)) =~= m);
    let witness: int = if exists|i: int| 0 <= i < old.len() && starts_with(#[trigger] old[i], prefix) {
        choose|i: int| 0 <= i < old.len() && starts_with(#[trigger] old[i], prefix)
    } else {
        old.len() as int
    };
    assert(m[witness] == entry);
    assert(starts_with(m[witness], prefix));
    assert(m.map_values(|l: Seq<char>| rewrite_line(l, name, value)) =~= m);
}

} // verus!
