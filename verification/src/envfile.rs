//! The dotenv text the engine and the GUI share: splitting into lines,
//! rendering values, finding a key, inserting or replacing a key, and
//! keeping a line in an ignore file.
//!
//! Reading and writing the files themselves is the application's work; every
//! function here is a pure transformation of their contents.

use vstd::prelude::*;
use vstd::string::StrSliceExecFns;
use vstd::string::StringExecFns;
use crate::textutil::chars_to_string;
use crate::textutil::char_is_whitespace;
use crate::textutil::first_non_ws_index;
use crate::textutil::has_prefix;
use crate::textutil::push_char;
use crate::textutil::spec_find;
use crate::textutil::spec_is_whitespace;
use crate::textutil::spec_trim;
use crate::textutil::spec_trim_start;
use crate::textutil::starts_with;
use crate::textutil::str_to_chars;
use crate::textutil::subvec_chars;
use crate::textutil::trim_start_str;
use crate::textutil::trim_str;
use crate::textutil::lemma_blank_trim;

verus! {

/// `s` split at every line feed; the separators are not kept.
pub open spec fn spec_split_lines(s: Seq<char>) -> Seq<Seq<char>>
    decreases s.len(),
{
    match spec_find(s, seq!['\n']) {
        Option::None => seq![s],
        Option::Some(i) => if 0 <= i < s.len() {
            seq![s.subrange(0, i)] + spec_split_lines(s.subrange(i + 1, s.len() as int))
        } else {
            seq![s]
        },
    }
}

/// Split text at line feeds.
pub fn split_lines(s: &str) -> (r: Vec<String>)
    ensures
        r@.len() == spec_split_lines(s@).len(),
        forall|k: int| 0 <= k < r@.len() ==> r@[k]@ == spec_split_lines(s@)[k],
{
    let mut rem: Vec<char> = str_to_chars(s);
    let mut out: Vec<String> = Vec::new();
    let ghost whole = s@;
    let mut done = false;
    proof {
        assert(spec_split_lines(whole) =~= Seq::<Seq<char>>::empty() + spec_split_lines(rem@));
    }
    while !done
        invariant
            !done ==> spec_split_lines(whole).len() == out@.len() + spec_split_lines(rem@).len()
                && (forall|k: int|
                0 <= k < spec_split_lines(rem@).len() ==> spec_split_lines(whole)[out@.len() + k]
                    == spec_split_lines(rem@)[k]),
            forall|k: int| 0 <= k < out@.len() ==> out@[k]@ == spec_split_lines(whole)[k],
            done ==> out@.len() == spec_split_lines(whole).len(),
        decreases rem@.len() + 1, 1int - (if done { 1int } else { 0int }),
    {
        let rem_s = chars_to_string(&rem);
        let nl = crate::textutil::find_substring(rem_s.as_str(), "\n");
        proof {
            reveal_strlit("\n");
            assert("\n"@ =~= seq!['\n']);
        }
        match nl {
            Option::Some(i) => {
                let n = rem.len();
                proof {
                    crate::textutil::lemma_find_at_bounds(rem@, seq!['\n'], 0);
                    assert(i + 1 <= n);
                }
                let ghost old_out_len = out@.len() as int;
                let ghost old_rem = rem@;
                let line = subvec_chars(&rem, 0, i);
                let rest = subvec_chars(&rem, i + 1, n);
                let line_s = chars_to_string(&line);
                out.push(line_s);
                rem = rest;
                proof {
                    let head = seq![old_rem.subrange(0, i as int)];
                    assert(spec_split_lines(old_rem) == head + spec_split_lines(rem@));
                    assert forall|k: int|
                        0 <= k < spec_split_lines(rem@).len() implies spec_split_lines(whole)[out@.len()
                        + k] == spec_split_lines(rem@)[k] by {
                        assert(spec_split_lines(whole)[old_out_len + (k + 1)] == spec_split_lines(
                            old_rem,
                        )[k + 1]);
                        assert(spec_split_lines(old_rem)[k + 1] == (head + spec_split_lines(rem@))[
                            k + 1]);
                    }
                    assert(out@[old_out_len]@ == spec_split_lines(whole)[old_out_len]) by {
                        assert(spec_split_lines(old_rem)[0] == (head + spec_split_lines(rem@))[0]);
                        assert(spec_split_lines(whole)[old_out_len + 0] == spec_split_lines(
                            old_rem,
                        )[0]);
                    }
                    assert forall|k: int|
                        0 <= k < out@.len() implies out@[k]@ == spec_split_lines(whole)[k] by {
                        if k < old_out_len {
                            assert(out@[k] == out@.subrange(0, old_out_len)[k]);
                        }
                    }
                }
            },
            Option::None => {
                let ghost old_out_len = out@.len() as int;
                out.push(chars_to_string(&rem));
                done = true;
                proof {
                    assert(spec_split_lines(rem@) =~= seq![rem@]);
                    assert(spec_split_lines(whole)[old_out_len + 0] == spec_split_lines(rem@)[0]);
                    assert forall|k: int|
                        0 <= k < out@.len() implies out@[k]@ == spec_split_lines(whole)[k] by {
                        if k < old_out_len {
                            assert(out@[k] == out@.subrange(0, old_out_len)[k]);
                        }
                    }
                }
            },
        }
    }
    out
}

/// Splitting yields at least one line.
pub proof fn lemma_split_lines_len(s: Seq<char>)
    ensures
        spec_split_lines(s).len() >= 1,
{
}

/// A line with a trailing carriage return stripped.
pub open spec fn spec_strip_cr(s: Seq<char>) -> Seq<char> {
    if s.len() >= 1 && s.last() == '\r' {
        s.drop_last()
    } else {
        s
    }
}

/// Strip one trailing carriage return, as line splitting on `\n` leaves it.
pub fn strip_cr(s: &str) -> (r: String)
    ensures
        r@ == spec_strip_cr(s@),
{
    let v = str_to_chars(s);
    if v.len() >= 1 && v[v.len() - 1] == '\r' {
        let head = subvec_chars(&v, 0, v.len() - 1);
        assert(head@ =~= spec_strip_cr(s@));
        chars_to_string(&head)
    } else {
        chars_to_string(&v)
    }
}

/// A value must be quoted when it holds whitespace or a comment character.
pub open spec fn spec_needs_quotes(s: Seq<char>) -> bool {
    exists|i: int| 0 <= i < s.len() && (spec_is_whitespace(#[trigger] s[i]) || s[i] == '#')
}

/// The value with backslashes and double quotes escaped.
pub open spec fn spec_escaped(s: Seq<char>) -> Seq<char>
    decreases s.len(),
{
    if s.len() == 0 {
        Seq::empty()
    } else {
        spec_escaped(s.drop_last()) + (if s.last() == '\\' {
            seq!['\\', '\\']
        } else if s.last() == '"' {
            seq!['\\', '"']
        } else {
            seq![s.last()]
        })
    }
}

/// How a value is written into the file: as it is when simple, else quoted
/// with escapes.
pub open spec fn spec_format_env_value(s: Seq<char>) -> Seq<char> {
    if !spec_needs_quotes(s) {
        s
    } else {
        seq!['"'] + spec_escaped(s) + seq!['"']
    }
}

/// Render a value for the file: unquoted when simple; quoted, with
/// backslashes and double quotes escaped, when whitespace or a comment
/// character could break parsing.
pub fn format_env_value(value: &str) -> (r: String)
    ensures
        r@ == spec_format_env_value(value@),
{
    let v = str_to_chars(value);
    let mut needs = false;
    let mut i: usize = 0;
    while i < v.len()
        invariant
            v@ == value@,
            i <= v@.len(),
            needs == exists|k: int|
                0 <= k < i && (spec_is_whitespace(#[trigger] v@[k]) || v@[k] == '#'),
        decreases v@.len() - i,
    {
        if char_is_whitespace(v[i]) || v[i] == '#' {
            needs = true;
        }
        i = i + 1;
    }
    if !needs {
        return chars_to_string(&v);
    }
    let mut out: Vec<char> = Vec::new();
    out.push('"');
    let mut j: usize = 0;
    while j < v.len()
        invariant
            v@ == value@,
            j <= v@.len(),
            out@ == seq!['"'] + spec_escaped(v@.subrange(0, j as int)),
        decreases v@.len() - j,
    {
        proof {
            assert(v@.subrange(0, j + 1 as int).drop_last() =~= v@.subrange(0, j as int));
            assert(v@.subrange(0, j + 1 as int).last() == v@[j as int]);
        }
        let c = v[j];
        if c == '\\' {
            out.push('\\');
            out.push('\\');
        } else if c == '"' {
            out.push('\\');
            out.push('"');
        } else {
            out.push(c);
        }
        j = j + 1;
    }
    out.push('"');
    assert(v@.subrange(0, v@.len() as int) =~= v@);
    assert(out@ =~= spec_format_env_value(value@));
    chars_to_string(&out)
}

/// The line, with its carriage return stripped, defines `key`: after leading
/// whitespace and an optional `export `, the key is followed (after spaces)
/// by `=`. Comment lines and blank lines define nothing.
pub open spec fn spec_line_defines(line: Seq<char>, key: Seq<char>) -> bool {
    let t = spec_trim_start(spec_strip_cr(line));
    &&& t.len() > 0
    &&& t[0] != '#'
    &&& ({
        let rest = if has_prefix(t, "export "@) {
            spec_trim_start(t.subrange(7, t.len() as int))
        } else {
            t
        };
        &&& has_prefix(rest, key)
        &&& ({
            let after = spec_trim_start(rest.subrange(key.len() as int, rest.len() as int));
            after.len() > 0 && after[0] == '='
        })
    })
}

/// The lines of the file, carriage returns stripped.
pub open spec fn spec_lines(s: Seq<char>) -> Seq<Seq<char>> {
    spec_split_lines(s).map_values(|l: Seq<char>| spec_strip_cr(l))
}

/// The lines joined by line feeds.
pub open spec fn spec_join_nl(lines: Seq<Seq<char>>) -> Seq<char>
    decreases lines.len(),
{
    if lines.len() == 0 {
        Seq::empty()
    } else if lines.len() == 1 {
        lines[0]
    } else {
        spec_join_nl(lines.drop_last()) + seq!['\n'] + lines.last()
    }
}

/// The text, ending in exactly one final line feed.
pub open spec fn spec_with_final_nl(s: Seq<char>) -> Seq<char> {
    if s.len() > 0 && s.last() == '\n' {
        s
    } else {
        s.push('\n')
    }
}

/// The first line that defines `key`, scanning from `i`.
pub open spec fn spec_first_def(lines: Seq<Seq<char>>, key: Seq<char>, i: int) -> Option<int>
    decreases lines.len() - i when 0 <= i
{
    if i < 0 || i >= lines.len() {
        Option::None
    } else if spec_line_defines(lines[i], key) {
        Option::Some(i)
    } else {
        spec_first_def(lines, key, i + 1)
    }
}

/// The replacement for a line that defines `key`: its indentation and
/// `export ` prefix kept, the key trimmed, the value rendered.
pub open spec fn spec_replacement(line: Seq<char>, key: Seq<char>, value: Seq<char>) -> Seq<char> {
    let t = spec_trim_start(line);
    let indent = line.subrange(0, line.len() - t.len());
    let export = if has_prefix(t, "export "@) {
        "export "@
    } else {
        Seq::<char>::empty()
    };
    indent + export + spec_trim(key) + seq!['='] + spec_format_env_value(spec_trim(value))
}

/// The appended definition used when no line defines `key`.
pub open spec fn spec_new_def(key: Seq<char>, value: Seq<char>) -> Seq<char> {
    spec_trim(key) + seq!['='] + spec_format_env_value(spec_trim(value))
}

/// The line list after the upsert: the first defining line replaced in
/// place, or a definition appended (after one separating blank line when the
/// file does not end blank).
pub open spec fn spec_upserted_lines(
    lines: Seq<Seq<char>>,
    key: Seq<char>,
    value: Seq<char>,
) -> Seq<Seq<char>> {
    match spec_first_def(lines, key, 0) {
        Option::Some(d) => lines.update(d, spec_replacement(lines[d], key, value)),
        Option::None => {
            let base = if lines.len() > 0 && lines.last().len() > 0 {
                lines.push(Seq::empty())
            } else {
                lines
            };
            base.push(spec_new_def(key, value))
        },
    }
}

/// The file contents after setting `key` to `value`.
pub open spec fn spec_upsert_env(s: Seq<char>, key: Seq<char>, value: Seq<char>) -> Seq<char> {
    spec_with_final_nl(spec_join_nl(spec_upserted_lines(spec_lines(s), key, value)))
}

/// Whether this line of the file defines `key`.
pub fn line_defines_key(line: &str, key: &str) -> (b: bool)
    ensures
        b == spec_line_defines(line@, key@),
{
    let stripped = strip_cr(line);
    let t = trim_start_str(stripped.as_str());
    let tv = str_to_chars(t.as_str());
    if tv.len() == 0 {
        return false;
    }
    if tv[0] == '#' {
        return false;
    }
    let rest = if starts_with(t.as_str(), "export ") {
        proof {
            reveal_strlit("export ");
        }
        let tail = subvec_chars(&tv, 7, tv.len());
        let tail_s = chars_to_string(&tail);
        trim_start_str(tail_s.as_str())
    } else {
        t
    };
    if !starts_with(rest.as_str(), key) {
        return false;
    }
    let rv = str_to_chars(rest.as_str());
    let kv = str_to_chars(key);
    let after = subvec_chars(&rv, kv.len(), rv.len());
    let after_s = chars_to_string(&after);
    let after_t = trim_start_str(after_s.as_str());
    let av = str_to_chars(after_t.as_str());
    av.len() > 0 && av[0] == '='
}

fn join_with_final_nl(lines: &Vec<String>) -> (r: String)
    requires
        lines@.len() >= 1,
    ensures
        r@ == spec_with_final_nl(spec_join_nl(lines@.map_values(|l: String| l@))),
{
    let ghost views = lines@.map_values(|l: String| l@);
    let mut out: Vec<char> = Vec::new();
    let first = str_to_chars(lines[0].as_str());
    let mut out_s = chars_to_string(&first);
    let mut k: usize = 1;
    proof {
        assert(views.take(1) =~= seq![views[0]]);
        assert(spec_join_nl(views.take(1)) == views[0]);
    }
    while k < lines.len()
        invariant
            1 <= k <= lines@.len(),
            views == lines@.map_values(|l: String| l@),
            out_s@ == spec_join_nl(views.take(k as int)),
        decreases lines@.len() - k,
    {
        proof {
            assert(views.take(k + 1).drop_last() =~= views.take(k as int));
            assert(views.take(k + 1).last() == views[k as int]);
            assert(views.take(k + 1).len() == k + 1 >= 2);
        }
        out_s.append("\n");
        out_s.append(lines[k].as_str());
        proof {
            reveal_strlit("\n");
        }
        k = k + 1;
    }
    proof {
        assert(views.take(lines@.len() as int) =~= views);
    }
    let v = str_to_chars(out_s.as_str());
    if v.len() > 0 && v[v.len() - 1] == '\n' {
        out_s
    } else {
        push_char(&mut out_s, '\n');
        out_s
    }
}

fn replacement_line(line: &str, key: &str, value: &str) -> (r: String)
    ensures
        r@ == spec_replacement(line@, key@, value@),
{
    let v = str_to_chars(line);
    let a = first_non_ws_index(&v);
    let indent = subvec_chars(&v, 0, a);
    let t_chars = subvec_chars(&v, a, v.len());
    let t = chars_to_string(&t_chars);
    proof {
        assert(t@ == spec_trim_start(line@));
        assert(indent@ =~= line@.subrange(0, line@.len() - t@.len()));
    }
    let mut out = chars_to_string(&indent);
    if starts_with(t.as_str(), "export ") {
        out.append("export ");
    }
    let tk = trim_str(key);
    out.append(tk.as_str());
    out.append("=");
    let tv = trim_str(value);
    let fv = format_env_value(tv.as_str());
    out.append(fv.as_str());
    proof {
        reveal_strlit("=");
        assert(out@ =~= spec_replacement(line@, key@, value@));
    }
    out
}

/// Set `key` to `value` in the dotenv text: the first line defining the key
/// is rewritten in place (indentation and `export ` kept); otherwise a new
/// definition is appended, after a separating blank line when needed; the
/// result ends in a newline.
pub fn upsert_env_text(existing: &str, key: &str, value: &str) -> (r: String)
    ensures
        r@ == spec_upsert_env(existing@, key@, value@),
{
    let raw_lines = split_lines(existing);
    let mut lines: Vec<String> = Vec::new();
    let ghost lv = spec_lines(existing@);
    let mut i: usize = 0;
    while i < raw_lines.len()
        invariant
            i <= raw_lines@.len(),
            lv == spec_lines(existing@),
            lv.len() == raw_lines@.len(),
            forall|k: int| 0 <= k < raw_lines@.len() ==> raw_lines@[k]@ == spec_split_lines(
                existing@,
            )[k],
            lines@.len() == i,
            forall|k: int| 0 <= k < i ==> lines@[k]@ == lv[k],
        decreases raw_lines@.len() - i,
    {
        let stripped = strip_cr(raw_lines[i].as_str());
        lines.push(stripped);
        i = i + 1;
    }
    let mut found: Option<usize> = None;
    let mut j: usize = 0;
    let ghost line_views = lines@.map_values(|l: String| l@);
    proof {
        assert(line_views =~= lv);
    }
    let mut stop = false;
    while j < lines.len() && !stop
        invariant
            j <= lines@.len(),
            line_views == lines@.map_values(|l: String| l@),
            line_views =~= lv,
            forall|k: int| 0 <= k < lines@.len() ==> lines@[k]@ == lv[k],
            !stop ==> found is None && spec_first_def(lv, key@, 0) == spec_first_def(
                lv,
                key@,
                j as int,
            ),
            stop ==> j < lines@.len() && found == Some(j) && spec_first_def(lv, key@, 0) == (
            Option::Some(j as int)),
        decreases lines@.len() - j, 1int - (if stop { 1int } else { 0int }),
    {
        if line_defines_key(lines[j].as_str(), key) {
            found = Some(j);
            stop = true;
            proof {
                assert(spec_first_def(lv, key@, j as int) == Option::Some(j as int));
            }
            continue;
        }
        j = j + 1;
    }
    proof {
        if !stop {
            assert(spec_first_def(lv, key@, j as int) is None);
        }
    }
    match found {
        Option::Some(d) => {
            let repl = replacement_line(lines[d].as_str(), key, value);
            lines.set(d, repl);
            proof {
                assert(lines@.map_values(|l: String| l@) =~= lv.update(
                    d as int,
                    spec_replacement(lv[d as int], key@, value@),
                ));
                assert(lines@.len() >= 1);
            }
            join_with_final_nl(&lines)
        },
        Option::None => {
            let n = lines.len();
            if n > 0 && lines[n - 1].as_str().unicode_len() > 0 {
                lines.push(String::new());
            }
            let tk = trim_str(key);
            let mut def = tk;
            def.append("=");
            let tv = trim_str(value);
            let fv = format_env_value(tv.as_str());
            def.append(fv.as_str());
            proof {
                reveal_strlit("=");
                assert(def@ =~= spec_new_def(key@, value@));
            }
            lines.push(def);
            proof {
                let base = if lv.len() > 0 && lv.last().len() > 0 {
                    lv.push(Seq::<char>::empty())
                } else {
                    lv
                };
                assert(lines@.map_values(|l: String| l@) =~= base.push(spec_new_def(key@, value@)));
            }
            join_with_final_nl(&lines)
        },
    }
}

/// The value a lookup takes from one line: the trimmed line must define
/// `key`, the value is trimmed and stripped of one pair of surrounding
/// quotes, and an empty value does not count.
pub open spec fn spec_line_value(line: Seq<char>, key: Seq<char>) -> Option<Seq<char>> {
    let t = spec_trim(line);
    if t.len() == 0 || t[0] == '#' || !has_prefix(t, key) {
        Option::None
    } else {
        let rest = spec_trim_start(t.subrange(key.len() as int, t.len() as int));
        if rest.len() == 0 || rest[0] != '=' {
            Option::None
        } else {
            let raw = spec_trim(rest.subrange(1, rest.len() as int));
            let v = if raw.len() >= 2 && ((raw[0] == '"' && raw.last() == '"') || (raw[0] == '\''
                && raw.last() == '\'')) {
                raw.subrange(1, raw.len() - 1)
            } else {
                raw
            };
            if v.len() > 0 {
                Option::Some(v)
            } else {
                Option::None
            }
        }
    }
}

/// The first line, from `i` on, that yields a value for `key`.
pub open spec fn spec_env_lookup(lines: Seq<Seq<char>>, key: Seq<char>, i: int) -> Option<
    Seq<char>,
>
    decreases lines.len() - i when 0 <= i
{
    if i < 0 || i >= lines.len() {
        Option::None
    } else {
        match spec_line_value(lines[i], key) {
            Option::Some(v) => Option::Some(v),
            Option::None => spec_env_lookup(lines, key, i + 1),
        }
    }
}

fn line_value(line: &str, key: &str) -> (r: Option<String>)
    ensures
        (match spec_line_value(line@, key@) {
            Option::Some(v) => r matches Some(s) && s@ == v,
            Option::None => r is None,
        }),
{
    let t = trim_str(line);
    let tv = str_to_chars(t.as_str());
    if tv.len() == 0 {
        return None;
    }
    if tv[0] == '#' {
        return None;
    }
    if !starts_with(t.as_str(), key) {
        return None;
    }
    let kv = str_to_chars(key);
    let after = subvec_chars(&tv, kv.len(), tv.len());
    let after_s = chars_to_string(&after);
    let rest = trim_start_str(after_s.as_str());
    let rv = str_to_chars(rest.as_str());
    if rv.len() == 0 {
        return None;
    }
    if rv[0] != '=' {
        return None;
    }
    let val_part = subvec_chars(&rv, 1, rv.len());
    let val_s = chars_to_string(&val_part);
    let raw = trim_str(val_s.as_str());
    let raw_v = str_to_chars(raw.as_str());
    let quoted = raw_v.len() >= 2 && ((raw_v[0] == '"' && raw_v[raw_v.len() - 1] == '"') || (
    raw_v[0] == '\'' && raw_v[raw_v.len() - 1] == '\''));
    let v = if quoted {
        let inner = subvec_chars(&raw_v, 1, raw_v.len() - 1);
        chars_to_string(&inner)
    } else {
        raw
    };
    if v.as_str().unicode_len() > 0 {
        Some(v)
    } else {
        None
    }
}

/// Look a key up in dotenv text, as the engine would: the first line that
/// defines it with a non-empty (unquoted) value; an error naming the key
/// when none does.
pub fn read_env_key_from(contents: &str, key: &str) -> (r: Result<String, String>)
    ensures
        (match spec_env_lookup(spec_lines(contents@), key@, 0) {
            Option::Some(v) => r matches Ok(s) && s@ == v,
            Option::None => (r matches Err(m) && m@ == key@
                + " not found in ~/.snailer/.env"@),
        }),
{
    let raw_lines = split_lines(contents);
    let ghost lv = spec_lines(contents@);
    let mut i: usize = 0;
    while i < raw_lines.len()
        invariant
            i <= raw_lines@.len(),
            lv == spec_lines(contents@),
            lv.len() == raw_lines@.len(),
            forall|k: int| 0 <= k < raw_lines@.len() ==> raw_lines@[k]@ == spec_split_lines(
                contents@,
            )[k],
            spec_env_lookup(lv, key@, 0) == spec_env_lookup(lv, key@, i as int),
        decreases raw_lines@.len() - i,
    {
        let stripped = strip_cr(raw_lines[i].as_str());
        proof {
            assert(lv[i as int] == spec_strip_cr(raw_lines@[i as int]@));
        }
        match line_value(stripped.as_str(), key) {
            Option::Some(v) => {
                return Ok(v);
            },
            Option::None => {},
        }
        i = i + 1;
    }
    let mut msg = String::from_str(key);
    msg.append(" not found in ~/.snailer/.env");
    Err(msg)
}

/// Some line of the file, trimmed, is exactly `needle`.
pub open spec fn spec_has_line(s: Seq<char>, needle: Seq<char>) -> bool {
    exists|k: int| 0 <= k < spec_lines(s).len() && spec_trim(#[trigger] spec_lines(s)[k]) == needle
}

/// Ensure the (trimmed, non-blank) line is present in the ignore-file text:
/// unchanged when some line already equals it, else appended with a final
/// newline; the flag says whether the text changed. A blank line is refused.
pub fn gitignore_with_line(existing: &str, line: &str) -> (r: Result<(String, bool), String>)
    ensures
        (match r {
            Ok((text, changed)) => {
                &&& !crate::textutil::spec_is_blank(line@)
                &&& (spec_has_line(existing@, spec_trim(line@)) ==> text@ == existing@ && !changed)
                &&& (!spec_has_line(existing@, spec_trim(line@)) ==> changed && text@ == (if
                existing@.len() > 0 && existing@.last() != '\n' {
                    existing@ + seq!['\n']
                } else {
                    existing@
                }) + spec_trim(line@) + seq!['\n'])
            },
            Err(m) => crate::textutil::spec_is_blank(line@) && m@ == "line is empty"@,
        }),
{
    let needle = trim_str(line);
    if needle.as_str().unicode_len() == 0 {
        proof {
            lemma_blank_trim(line@);
        }
        return Err(String::from_str("line is empty"));
    }
    proof {
        lemma_blank_trim(line@);
    }
    let raw_lines = split_lines(existing);
    let ghost lv = spec_lines(existing@);
    let mut i: usize = 0;
    let mut present = false;
    while i < raw_lines.len()
        invariant
            i <= raw_lines@.len(),
            lv == spec_lines(existing@),
            lv.len() == raw_lines@.len(),
            forall|k: int| 0 <= k < raw_lines@.len() ==> raw_lines@[k]@ == spec_split_lines(
                existing@,
            )[k],
            needle@ == spec_trim(line@),
            present ==> spec_has_line(existing@, needle@),
            !present ==> (forall|k: int| 0 <= k < i ==> spec_trim(#[trigger] lv[k]) != needle@),
        decreases raw_lines@.len() - i,
    {
        let stripped = strip_cr(raw_lines[i].as_str());
        proof {
            assert(lv[i as int] == spec_strip_cr(raw_lines@[i as int]@));
        }
        let t = trim_str(stripped.as_str());
        if crate::textutil::str_eq(t.as_str(), needle.as_str()) {
            proof {
                assert(spec_trim(lv[i as int]) == needle@);
            }
            present = true;
        }
        i = i + 1;
    }
    if present {
        let v = str_to_chars(existing);
        return Ok((chars_to_string(&v), false));
    }
    assert(!spec_has_line(existing@, needle@));
    let v = str_to_chars(existing);
    let mut out = chars_to_string(&v);
    if v.len() > 0 && v[v.len() - 1] != '\n' {
        push_char(&mut out, '\n');
    }
    out.append(needle.as_str());
    push_char(&mut out, '\n');
    Ok((out, true))
}


/// The directory above `d`: everything before the last slash, when that
/// slash is not the leading character; a directory without one has no
/// parent.
pub open spec fn spec_parent_dir(d: Seq<char>) -> Option<Seq<char>> {
    match crate::ghcli::spec_rfind_char(d, '/') {
        Option::Some(i) => if i >= 1 {
            Option::Some(d.subrange(0, i))
        } else {
            Option::None
        },
        Option::None => Option::None,
    }
}

/// The `.env` candidates of a directory and its ancestors, nearest first:
/// `<dir>/.env`, then the parent's, up to the root.
pub open spec fn spec_env_candidates(d: Seq<char>) -> Seq<Seq<char>>
    decreases d.len(),
{
    let head = crate::paths::spec_join(d, ".env"@);
    match spec_parent_dir(d) {
        Option::Some(p) => if p.len() < d.len() {
            seq![head] + spec_env_candidates(p)
        } else {
            seq![head]
        },
        Option::None => seq![head],
    }
}

/// The `.env` candidates of a directory and its ancestors, nearest first.
/// The directory is a `/`-separated path; the application probes the
/// candidates in order and uses the first that exists.
pub fn find_env_in_ancestors(dir: &str) -> (r: Vec<String>)
    ensures
        r@.len() == spec_env_candidates(dir@).len(),
        forall|k: int| 0 <= k < r@.len() ==> r@[k]@ == spec_env_candidates(dir@)[k],
        r@.len() >= 1,
{
    let mut out: Vec<String> = Vec::new();
    let mut cur = crate::textutil::str_to_chars(dir);
    let mut done = false;
    let ghost whole = dir@;
    proof {
        assert(spec_env_candidates(whole) =~= Seq::<Seq<char>>::empty() + spec_env_candidates(
            cur@,
        ));
    }
    while !done
        invariant
            !done ==> spec_env_candidates(whole).len() == out@.len() + spec_env_candidates(
                cur@,
            ).len() && (forall|k: int|
                0 <= k < spec_env_candidates(cur@).len() ==> spec_env_candidates(whole)[out@.len()
                    + k] == spec_env_candidates(cur@)[k]),
            forall|k: int| 0 <= k < out@.len() ==> out@[k]@ == spec_env_candidates(whole)[k],
            done ==> out@.len() == spec_env_candidates(whole).len(),
        decreases cur@.len() + 1, 1int - (if done { 1int } else { 0int }),
    {
        let cur_s = chars_to_string(&cur);
        let candidate = crate::paths::path_join(cur_s.as_str(), ".env");
        let ghost old_out_len = out@.len() as int;
        let ghost old_cur = cur@;
        out.push(candidate);
        let n = cur.len();
        let mut j: usize = n;
        let mut stop = false;
        while j > 0 && !stop
            invariant
                n == cur@.len(),
                j <= n,
                forall|k: int| j <= k < n ==> cur@[k] != '/',
                stop ==> j > 0 && cur@[j - 1] == '/',
            decreases j, 1int - (if stop { 1int } else { 0int }),
        {
            if cur[j - 1] == '/' {
                stop = true;
                continue;
            }
            j = j - 1;
        }
        proof {
            crate::ghcli::lemma_rfind_char_props(cur@, '/');
            if stop {
                match crate::ghcli::spec_rfind_char(cur@, '/') {
                    Option::Some(i) => {
                        assert(i == j - 1);
                    },
                    Option::None => {
                        assert(cur@[j - 1] != '/');
                    },
                }
            } else {
                match crate::ghcli::spec_rfind_char(cur@, '/') {
                    Option::Some(i) => {
                        assert(cur@[i] != '/');
                    },
                    Option::None => {},
                }
            }
        }
        if stop && j >= 2 {
            let c = j - 1;
            let parent = subvec_chars(&cur, 0, c);
            proof {
                assert(spec_parent_dir(old_cur) == Option::Some(parent@));
                assert(parent@.len() < old_cur.len());
                let head = seq![crate::paths::spec_join(old_cur, ".env"@)];
                assert(spec_env_candidates(old_cur) == head + spec_env_candidates(parent@));
                assert forall|k: int|
                    0 <= k < spec_env_candidates(parent@).len() implies spec_env_candidates(
                    whole,
                )[out@.len() + k] == spec_env_candidates(parent@)[k] by {
                    assert(spec_env_candidates(whole)[old_out_len + (k + 1)]
                        == spec_env_candidates(old_cur)[k + 1]);
                    assert(spec_env_candidates(old_cur)[k + 1] == (head + spec_env_candidates(
                        parent@,
                    ))[k + 1]);
                }
                assert(out@[old_out_len]@ == spec_env_candidates(whole)[old_out_len]) by {
                    assert(spec_env_candidates(old_cur)[0] == (head + spec_env_candidates(
                        parent@,
                    ))[0]);
                    assert(spec_env_candidates(whole)[old_out_len + 0] == spec_env_candidates(
                        old_cur,
                    )[0]);
                }
                assert forall|k: int|
                    0 <= k < out@.len() implies out@[k]@ == spec_env_candidates(whole)[k] by {
                    if k < old_out_len {
                        assert(out@[k] == out@.subrange(0, old_out_len)[k]);
                    }
                }
            }
            cur = parent;
        } else {
            done = true;
            proof {
                assert(spec_env_candidates(old_cur) =~= seq![
                    crate::paths::spec_join(old_cur, ".env"@),
                ]);
                assert(spec_env_candidates(whole)[old_out_len + 0] == spec_env_candidates(
                    old_cur,
                )[0]);
                assert forall|k: int|
                    0 <= k < out@.len() implies out@[k]@ == spec_env_candidates(whole)[k] by {
                    if k < old_out_len {
                        assert(out@[k] == out@.subrange(0, old_out_len)[k]);
                    }
                }
            }
        }
    }
    out
}

/// One step of the ordered environment-file search: what was probed, and the
/// path found there, if any.
pub struct EnvSource {
    /// The description shown to the user for this step.
    pub label: String,
    /// The existing file this step found, if any.
    pub found: Option<String>,
}

/// The first step that found a file.
pub open spec fn spec_first_found(sources: Seq<EnvSource>, i: int) -> Option<int>
    decreases sources.len() - i when 0 <= i
{
    if i < 0 || i >= sources.len() {
        Option::None
    } else if sources[i].found is Some {
        Option::Some(i)
    } else {
        spec_first_found(sources, i + 1)
    }
}

/// Resolve the ordered environment-file search: the reported order lists
/// every step up to and including the deciding one, and the selected path is
/// the first file found.
pub fn env_find_select(sources: Vec<EnvSource>) -> (r: crate::types::EnvFindResponse)
    ensures
        (match spec_first_found(sources@, 0) {
            Option::Some(i) => {
                &&& r.found
                &&& r.selected_path == sources@[i].found
                &&& r.demonstrate_order@.len() == i + 1
                &&& r.all_found_paths@.len() == 1
                &&& Some(r.all_found_paths@[0]) == sources@[i].found
                &&& (forall|k: int|
                    0 <= k <= i ==> #[trigger] r.demonstrate_order@[k]@ == sources@[k].label@)
            },
            Option::None => {
                &&& !r.found
                &&& r.selected_path is None
                &&& r.all_found_paths@.len() == 0
                &&& r.demonstrate_order@.len() == sources@.len()
                &&& (forall|k: int|
                    0 <= k < sources@.len() ==> #[trigger] r.demonstrate_order@[k]@
                        == sources@[k].label@)
            },
        }),
{
    let mut order: Vec<String> = Vec::new();
    let mut i: usize = 0;
    while i < sources.len()
        invariant
            i <= sources@.len(),
            order@.len() == i,
            forall|k: int| 0 <= k < i ==> #[trigger] order@[k]@ == sources@[k].label@,
            spec_first_found(sources@, 0) == spec_first_found(sources@, i as int),
        decreases sources@.len() - i,
    {
        order.push(sources[i].label.clone());
        match &sources[i].found {
            Option::Some(p) => {
                let selected = p.clone();
                let mut all: Vec<String> = Vec::new();
                all.push(selected.clone());
                proof {
                    assert(spec_first_found(sources@, i as int) == Option::Some(i as int));
                }
                return crate::types::EnvFindResponse {
                    found: true,
                    demonstrate_order: order,
                    selected_path: Some(selected),
                    all_found_paths: all,
                };
            },
            Option::None => {},
        }
        i = i + 1;
    }
    proof {
        assert(spec_first_found(sources@, i as int) is None);
    }
    crate::types::EnvFindResponse {
        found: false,
        demonstrate_order: order,
        selected_path: None,
        all_found_paths: Vec::new(),
    }
}

} // verus!
