//! Line-oriented key/value patching of configuration file text.
//!
//! A file's text is a sequence of lines separated by `'\n'`. Patching with a
//! key replaces every line whose whitespace-stripped content begins with the
//! key by `key` followed by the new value; every other line passes through
//! unchanged, in its original order, and the line structure (including a
//! trailing newline, if any) is kept.

use vstd::prelude::*;

verus! {

broadcast use vstd::string::group_string_axioms;

/// Whether `c` has the Unicode `White_Space` property, as
/// `char::is_whitespace` decides it.
pub open spec fn is_space(c: char) -> bool {
    c == ' ' || c == '\t' || c == '\n' || c == '\u{b}' || c == '\u{c}' || c == '\r'
        || c == '\u{85}' || c == '\u{a0}' || c == '\u{1680}'
        || ('\u{2000}' <= c && c <= '\u{200a}')
        || c == '\u{2028}' || c == '\u{2029}' || c == '\u{202f}' || c == '\u{205f}'
        || c == '\u{3000}'
}

/// `s` with every whitespace character removed.
pub open spec fn strip_ws(s: Seq<char>) -> Seq<char>
    decreases s.len(),
{
    if s.len() == 0 {
        Seq::empty()
    } else {
        let rest = strip_ws(s.drop_last());
        if is_space(s.last()) {
            rest
        } else {
            rest.push(s.last())
        }
    }
}

/// Whether a line is the one a patch replaces: its whitespace-stripped
/// content begins with the key.
pub open spec fn line_selects(line: Seq<char>, key: Seq<char>) -> bool {
    key.len() <= strip_ws(line).len() && key == strip_ws(line).subrange(0, key.len() as int)
}

/// A single line after patching: replaced wholesale when it selects the key,
/// untouched otherwise.
pub open spec fn patched_line(line: Seq<char>, key: Seq<char>, value: Seq<char>) -> Seq<char> {
    if line_selects(line, key) {
        key + value
    } else {
        line
    }
}

/// The index of the first `'\n'` in `s` at or after `i`, or `s.len()` if
/// there is none.
pub open spec fn line_end(s: Seq<char>, i: int) -> int
    decreases s.len() - i,
{
    if 0 <= i < s.len() {
        if s[i] == '\n' {
            i
        } else {
            line_end(s, i + 1)
        }
    } else {
        s.len() as int
    }
}

/// The lines of `s` from position `i` on: maximal `'\n'`-free segments. A
/// text of n separators has n + 1 lines; in particular text ending in `'\n'`
/// ends with an empty line.
pub open spec fn lines_from(s: Seq<char>, i: int) -> Seq<Seq<char>>
    decreases s.len() - i
        via lines_from_decreases
{
    let e = line_end(s, i);
    if e < s.len() {
        seq![s.subrange(i, e)] + lines_from(s, e + 1)
    } else {
        seq![s.subrange(i, e)]
    }
}

#[via_fn]
proof fn lines_from_decreases(s: Seq<char>, i: int) {
    if 0 <= i <= s.len() {
        lemma_line_end_bounds(s, i);
    }
}

/// The lines of the whole text.
pub open spec fn lines_of(s: Seq<char>) -> Seq<Seq<char>> {
    lines_from(s, 0)
}

/// Lines joined back into one text with `'\n'` between them.
pub open spec fn join_lines(ls: Seq<Seq<char>>) -> Seq<char>
    decreases ls.len(),
{
    if ls.len() == 0 {
        Seq::empty()
    } else if ls.len() == 1 {
        ls[0]
    } else {
        ls[0] + seq!['\n'] + join_lines(ls.drop_first())
    }
}

/// Each line patched in place.
pub open spec fn patched_lines(ls: Seq<Seq<char>>, key: Seq<char>, value: Seq<char>) -> Seq<
    Seq<char>,
> {
    ls.map_values(|l: Seq<char>| patched_line(l, key, value))
}

/// The whole text after patching: each line patched, the separators kept.
pub open spec fn patch_content(s: Seq<char>, key: Seq<char>, value: Seq<char>) -> Seq<char> {
    join_lines(patched_lines(lines_of(s), key, value))
}

/// The patched text from position `i` on; `patch_content` is the case
/// `i == 0`.
pub open spec fn patched_from(s: Seq<char>, i: int, key: Seq<char>, value: Seq<char>) -> Seq<
    char,
> {
    join_lines(patched_lines(lines_from(s, i), key, value))
}

/// `line_end` stays within `[i, s.len()]`, stops at a `'\n'`, and skips no
/// `'\n'` on the way.
pub proof fn lemma_line_end_bounds(s: Seq<char>, i: int)
    requires
        0 <= i <= s.len(),
    ensures
        i <= line_end(s, i) <= s.len(),
        line_end(s, i) < s.len() ==> s[line_end(s, i)] == '\n',
        forall|k: int| i <= k < line_end(s, i) ==> s[k] != '\n',
    decreases s.len() - i,
{
    if i < s.len() && s[i] != '\n' {
        lemma_line_end_bounds(s, i + 1);
    }
}

/// A position after a `'\n'`-free run, itself holding `'\n'` or the end of
/// the text, is exactly `line_end`.
pub proof fn lemma_line_end_at(s: Seq<char>, i: int, j: int)
    requires
        0 <= i <= j <= s.len(),
        forall|k: int| i <= k < j ==> s[k] != '\n',
        j < s.len() ==> s[j] == '\n',
    ensures
        line_end(s, i) == j,
    decreases j - i,
{
    if i < j {
        lemma_line_end_at(s, i + 1, j);
    }
}

/// The lines from `i` are the lines of the suffix starting at `i`.
pub proof fn lemma_lines_from_suffix(s: Seq<char>, i: int)
    requires
        0 <= i <= s.len(),
    ensures
        lines_from(s, i) == lines_of(s.subrange(i, s.len() as int)),
    decreases s.len() - i,
{
    let t = s.subrange(i, s.len() as int);
    let e = line_end(s, i);
    lemma_line_end_bounds(s, i);
    assert forall|k: int| 0 <= k < e - i implies t[k] != '\n' by {
        assert(t[k] == s[i + k]);
    }
    lemma_line_end_at(t, 0, e - i);
    assert(s.subrange(i, e) =~= t.subrange(0, e - i));
    if e < s.len() {
        lemma_lines_from_suffix(s, e + 1);
        let t2 = s.subrange(e + 1, s.len() as int);
        assert(t.subrange(e - i + 1, t.len() as int) =~= t2);
        assert(lines_from(t, e - i + 1) == lines_of(t.subrange(e - i + 1, t.len() as int))) by {
            lemma_lines_from_suffix(t, e - i + 1);
        }
        assert(lines_from(s, i) =~= lines_of(t));
    } else {
        assert(lines_from(s, i) =~= lines_of(t));
    }
}

/// There is always at least one line.
pub proof fn lemma_lines_from_len(s: Seq<char>, i: int)
    ensures
        lines_from(s, i).len() >= 1,
{
}

/// Unfolds the patched text one line at a time, as the rewriting loop
/// produces it.
pub proof fn lemma_patched_from_step(s: Seq<char>, i: int, key: Seq<char>, value: Seq<char>)
    requires
        0 <= i <= s.len(),
    ensures
        line_end(s, i) == s.len() ==> patched_from(s, i, key, value) == patched_line(
            s.subrange(i, s.len() as int),
            key,
            value,
        ),
        line_end(s, i) < s.len() ==> patched_from(s, i, key, value) == patched_line(
            s.subrange(i, line_end(s, i)),
            key,
            value,
        ) + seq!['\n'] + patched_from(s, line_end(s, i) + 1, key, value),
{
    let e = line_end(s, i);
    lemma_line_end_bounds(s, i);
    if e < s.len() {
        let rest = lines_from(s, e + 1);
        lemma_lines_from_len(s, e + 1);
        let mapped = patched_lines(seq![s.subrange(i, e)] + rest, key, value);
        assert(mapped =~= seq![patched_line(s.subrange(i, e), key, value)] + patched_lines(
            rest,
            key,
            value,
        ));
        assert(mapped.drop_first() =~= patched_lines(rest, key, value));
    }
}

/// Decides `is_space` at run time.
fn is_space_char(c: char) -> (r: bool)
    ensures
        r == is_space(c),
{
    c == ' ' || c == '\t' || c == '\n' || c == '\u{b}' || c == '\u{c}' || c == '\r'
        || c == '\u{85}' || c == '\u{a0}' || c == '\u{1680}'
        || ('\u{2000}' <= c && c <= '\u{200a}')
        || c == '\u{2028}' || c == '\u{2029}' || c == '\u{202f}' || c == '\u{205f}'
        || c == '\u{3000}'
}

/// The characters of `s` between `start` and `end` with whitespace removed.
fn strip_range(s: &str, start: usize, end: usize) -> (v: Vec<char>)
    requires
        start <= end <= s@.len(),
    ensures
        v@ == strip_ws(s@.subrange(start as int, end as int)),
{
    let mut v: Vec<char> = Vec::new();
    let mut j: usize = start;
    while j < end
        invariant
            start <= j <= end <= s@.len(),
            v@ == strip_ws(s@.subrange(start as int, j as int)),
        decreases end - j,
    {
        let c = s.get_char(j);
        proof {
            let pre = s@.subrange(start as int, j as int);
            let cur = s@.subrange(start as int, j + 1);
            assert(cur.drop_last() =~= pre);
            assert(cur.last() == s@[j as int]);
        }
        if !is_space_char(c) {
            v.push(c);
        }
        j = j + 1;
    }
    v
}

/// Whether the line of `s` between `start` and `end` selects `key`.
fn range_selects_key(s: &str, start: usize, end: usize, key: &str) -> (r: bool)
    requires
        start <= end <= s@.len(),
    ensures
        r == line_selects(s@.subrange(start as int, end as int), key@),
{
    let stripped = strip_range(s, start, end);
    let klen = key.unicode_len();
    if stripped.len() < klen {
        return false;
    }
    let mut j: usize = 0;
    while j < klen
        invariant
            j <= klen,
            klen == key@.len(),
            klen <= stripped@.len(),
            stripped@ == strip_ws(s@.subrange(start as int, end as int)),
            forall|k: int| 0 <= k < j ==> key@[k] == stripped@[k],
        decreases klen - j,
    {
        if key.get_char(j) != stripped[j] {
            return false;
        }
        j = j + 1;
    }
    proof {
        assert(key@ =~= stripped@.subrange(0, klen as int));
    }
    true
}

/// The index of the first `'\n'` in `s` at or after `start`, or `n` (the
/// character length of `s`) if there is none.
fn find_line_end(s: &str, start: usize, n: usize) -> (e: usize)
    requires
        n == s@.len(),
        start <= n,
    ensures
        start <= e <= n,
        e == line_end(s@, start as int),
{
    let mut j: usize = start;
    while j < n
        invariant
            start <= j <= n,
            n == s@.len(),
            forall|k: int| start <= k < j ==> s@[k] != '\n',
        decreases n - j,
    {
        if s.get_char(j) == '\n' {
            proof {
                lemma_line_end_at(s@, start as int, j as int);
            }
            return j;
        }
        j = j + 1;
    }
    proof {
        lemma_line_end_at(s@, start as int, n as int);
    }
    n
}

/// Rewrites `content` line by line: every line whose whitespace-stripped
/// content begins with `key` becomes `key` followed by `value`; every other
/// line, and the line structure itself, is kept byte for byte.
pub fn replace_key_line(content: &str, key: &str, value: &str) -> (r: String)
    ensures
        r@ == patch_content(content@, key@, value@),
{
    let n = content.unicode_len();
    let mut out = String::new();
    let mut pos: usize = 0;
    let mut done = false;
    while !done
        invariant
            pos <= n,
            n == content@.len(),
            done ==> out@ == patch_content(content@, key@, value@),
            !done ==> patch_content(content@, key@, value@) == out@ + patched_from(
                content@,
                pos as int,
                key@,
                value@,
            ),
        decreases n - pos + (if done { 0int } else { 1int }),
    {
        let e = find_line_end(content, pos, n);
        proof {
            lemma_patched_from_step(content@, pos as int, key@, value@);
        }
        let ghost out_before: Seq<char> = out@;
        let ghost seg: Seq<char> = content@.subrange(pos as int, e as int);
        if range_selects_key(content, pos, e, key) {
            out.append(key);
            out.append(value);
        } else {
            let piece = content.substring_char(pos, e);
            out.append(piece);
        }
        proof {
            assert(out@ == out_before + patched_line(seg, key@, value@));
        }
        if e == n {
            done = true;
            proof {
                assert(seg =~= content@.subrange(pos as int, content@.len() as int));
            }
        } else {
            out.append("\n");
            proof {
                reveal_strlit("\n");
                assert("\n"@ =~= seq!['\n']);
                assert(out@ == out_before + patched_line(seg, key@, value@) + seq!['\n']);
            }
            pos = e + 1;
        }
    }
    out
}

} // verus!
