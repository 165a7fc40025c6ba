//! The patcher's laws: what an apply does to a file's lines, that untouched
//! lines survive byte for byte, and that a later apply wins over an earlier
//! one.

use vstd::prelude::*;

use crate::patch::is_space;
use crate::patch::join_lines;
use crate::patch::line_end;
use crate::patch::line_selects;
use crate::patch::lines_from;
use crate::patch::lines_of;
use crate::patch::patch_content;
use crate::patch::patched_from;
use crate::patch::patched_line;
use crate::patch::patched_lines;
use crate::patch::strip_ws;
use crate::profile::konsolerc_patched;
use crate::profile::profile_patched;
use crate::theme::display_name_spec;
use crate::theme::profile_file_spec;
use crate::theme::ThemeType;
use crate::patch::lemma_line_end_at;
use crate::patch::lemma_line_end_bounds;
use crate::patch::lemma_lines_from_len;
use crate::patch::lemma_lines_from_suffix;
use crate::patch::lemma_patched_from_step;

verus! {

/// Stripping whitespace distributes over concatenation.
pub proof fn lemma_strip_ws_add(a: Seq<char>, b: Seq<char>)
    ensures
        strip_ws(a + b) == strip_ws(a) + strip_ws(b),
    decreases b.len(),
{
    if b.len() == 0 {
        assert(a + b =~= a);
        assert(strip_ws(a) + strip_ws(b) =~= strip_ws(a));
    } else {
        lemma_strip_ws_add(a, b.drop_last());
        assert((a + b).drop_last() =~= a + b.drop_last());
        assert((a + b).last() == b.last());
        if !is_space(b.last()) {
            assert(strip_ws(a + b) =~= strip_ws(a) + strip_ws(b));
        }
    }
}

/// A text without a newline is one single line.
pub proof fn lemma_lines_of_single(l: Seq<char>)
    requires
        !l.contains('\n'),
    ensures
        lines_of(l) == seq![l],
{
    assert forall|k: int| 0 <= k < l.len() implies l[k] != '\n' by {
        if l[k] == '\n' {
            assert(l.contains('\n'));
        }
    }
    lemma_line_end_at(l, 0, l.len() as int);
    assert(lines_of(l) =~= seq![l.subrange(0, l.len() as int)]);
    assert(l.subrange(0, l.len() as int) =~= l);
    assert(seq![l.subrange(0, l.len() as int)] =~= seq![l]);
}

/// Splitting after a newline-free first line peels it off whole.
pub proof fn lemma_lines_of_concat(l: Seq<char>, b: Seq<char>)
    requires
        !l.contains('\n'),
    ensures
        lines_of(l + seq!['\n'] + b) == seq![l] + lines_of(b),
{
    let s = l + seq!['\n'] + b;
    assert forall|k: int| 0 <= k < l.len() implies s[k] != '\n' by {
        assert(s[k] == l[k]);
        if l[k] == '\n' {
            assert(l.contains('\n'));
        }
    }
    assert(s[l.len() as int] == '\n');
    lemma_line_end_at(s, 0, l.len() as int);
    lemma_lines_from_suffix(s, l.len() as int + 1);
    assert(s.subrange(l.len() as int + 1, s.len() as int) =~= b);
    assert(s.subrange(0, l.len() as int) =~= l);
    assert(lines_of(s) =~= seq![l] + lines_of(b));
}

/// Joining the lines of a text gives the text back.
pub proof fn lemma_join_lines_of(s: Seq<char>)
    ensures
        join_lines(lines_of(s)) == s,
    decreases s.len(),
{
    let e = line_end(s, 0);
    lemma_line_end_bounds(s, 0);
    if e < s.len() {
        let suf = s.subrange(e + 1, s.len() as int);
        lemma_lines_from_suffix(s, e + 1);
        lemma_join_lines_of(suf);
        lemma_lines_from_len(suf, 0);
        let ls = lines_of(s);
        assert(ls == seq![s.subrange(0, e)] + lines_of(suf));
        assert(ls.len() >= 2);
        assert(ls[0] == s.subrange(0, e));
        assert(ls.drop_first() =~= lines_of(suf));
        assert(join_lines(ls) == s.subrange(0, e) + seq!['\n'] + suf);
        assert(s.subrange(0, e) + seq!['\n'] + suf =~= s);
    } else {
        assert(lines_of(s) =~= seq![s.subrange(0, s.len() as int)]);
        assert(join_lines(lines_of(s)) == s.subrange(0, s.len() as int));
        assert(s.subrange(0, s.len() as int) =~= s);
    }
}

/// The patched text from the start of the text is the patched whole text.
proof fn lemma_patch_content_is_from(s: Seq<char>, key: Seq<char>, value: Seq<char>)
    ensures
        patch_content(s, key, value) == patched_from(s, 0, key, value),
{
    assert(patched_lines(lines_of(s), key, value) =~= patched_lines(lines_from(s, 0), key, value));
}

/// The patched tail from `i` is the patched suffix starting at `i`.
proof fn lemma_patched_from_suffix(s: Seq<char>, i: int, key: Seq<char>, value: Seq<char>)
    requires
        0 <= i <= s.len(),
    ensures
        patched_from(s, i, key, value) == patch_content(
            s.subrange(i, s.len() as int),
            key,
            value,
        ),
{
    lemma_lines_from_suffix(s, i);
    let suf = s.subrange(i, s.len() as int);
    assert(patched_lines(lines_from(s, i), key, value) =~= patched_lines(
        lines_of(suf),
        key,
        value,
    ));
}

/// An apply maps the file's lines one to one: the line count is kept, every
/// line that selects the key reads `key` then `value` afterwards, and every
/// other line is byte-for-byte what it was.
pub proof fn lemma_patch_lines(s: Seq<char>, key: Seq<char>, value: Seq<char>)
    requires
        !key.contains('\n'),
        !value.contains('\n'),
    ensures
        lines_of(patch_content(s, key, value)).len() == lines_of(s).len(),
        forall|i: int|
            0 <= i < lines_of(s).len() ==> lines_of(patch_content(s, key, value))[i]
                == patched_line(lines_of(s)[i], key, value),
    decreases s.len(),
{
    let e = line_end(s, 0);
    lemma_line_end_bounds(s, 0);
    let l0 = s.subrange(0, e);
    assert(!l0.contains('\n')) by {
        if l0.contains('\n') {
            let k = choose|k: int| 0 <= k < l0.len() && l0[k] == '\n';
            assert(s[k] == '\n');
        }
    }
    let p0 = patched_line(l0, key, value);
    assert(!p0.contains('\n')) by {
        if line_selects(l0, key) && (key + value).contains('\n') {
            let k = choose|k: int| 0 <= k < (key + value).len() && (key + value)[k] == '\n';
            if k < key.len() {
                assert(key[k] == '\n');
            } else {
                assert(value[k - key.len()] == '\n');
            }
        }
    }
    lemma_patch_content_is_from(s, key, value);
    lemma_patched_from_step(s, 0, key, value);
    if e < s.len() {
        let suf = s.subrange(e + 1, s.len() as int);
        lemma_lines_from_suffix(s, e + 1);
        lemma_patched_from_suffix(s, e + 1, key, value);
        lemma_patch_lines(suf, key, value);
        lemma_lines_of_concat(p0, patch_content(suf, key, value));
        assert(patch_content(s, key, value) == p0 + seq!['\n'] + patch_content(suf, key, value));
        let before = lines_of(s);
        let after = lines_of(patch_content(s, key, value));
        assert(before == seq![l0] + lines_of(suf));
        assert(after == seq![p0] + lines_of(patch_content(suf, key, value)));
        assert forall|i: int| 0 <= i < before.len() implies after[i] == patched_line(
            before[i],
            key,
            value,
        ) by {
            if i == 0 {
                assert(before[0] == l0);
                assert(after[0] == p0);
            } else {
                assert(before[i] == lines_of(suf)[i - 1]);
                assert(after[i] == lines_of(patch_content(suf, key, value))[i - 1]);
            }
        }
    } else {
        assert(l0 =~= s);
        assert(patch_content(s, key, value) == p0);
        lemma_lines_of_single(l0);
        lemma_lines_of_single(p0);
        assert(lines_of(s) == seq![l0]);
    }
}

/// A replacement line selects its own key again: with the whitespace-free
/// key in front, the stripped line still begins with the key.
pub proof fn lemma_replacement_selects(key: Seq<char>, value: Seq<char>)
    requires
        strip_ws(key) == key,
    ensures
        line_selects(key + value, key),
{
    lemma_strip_ws_add(key, value);
    assert((key + strip_ws(value)).subrange(0, key.len() as int) =~= key);
}

/// A later apply of the same key overwrites an earlier one: patching twice
/// with two values leaves exactly what patching once with the second value
/// leaves. In particular no second key line is ever introduced.
pub proof fn lemma_patch_last_write_wins(s: Seq<char>, key: Seq<char>, v1: Seq<char>, v2: Seq<char>)
    requires
        !key.contains('\n'),
        !v1.contains('\n'),
        strip_ws(key) == key,
    ensures
        patch_content(patch_content(s, key, v1), key, v2) == patch_content(s, key, v2),
{
    let p1 = patch_content(s, key, v1);
    lemma_patch_lines(s, key, v1);
    lemma_replacement_selects(key, v1);
    assert forall|i: int| 0 <= i < lines_of(s).len() implies patched_line(
        #[trigger] lines_of(p1)[i],
        key,
        v2,
    ) == patched_line(lines_of(s)[i], key, v2) by {
        if line_selects(lines_of(s)[i], key) {
            assert(lines_of(p1)[i] == key + v1);
        }
    }
    assert(patched_lines(lines_of(p1), key, v2) =~= patched_lines(lines_of(s), key, v2));
}

/// An apply never changes which lines select the key: a selecting line is
/// replaced by one that selects it again, and every other line is
/// untouched. So an apply neither duplicates nor loses the key's line.
pub proof fn lemma_patch_preserves_selection(s: Seq<char>, key: Seq<char>, value: Seq<char>)
    requires
        !key.contains('\n'),
        !value.contains('\n'),
        strip_ws(key) == key,
    ensures
        lines_of(patch_content(s, key, value)).len() == lines_of(s).len(),
        forall|i: int|
            0 <= i < lines_of(s).len() ==> (line_selects(
                #[trigger] lines_of(patch_content(s, key, value))[i],
                key,
            ) <==> line_selects(lines_of(s)[i], key)),
{
    lemma_patch_lines(s, key, value);
    lemma_replacement_selects(key, value);
}

/// When no line selects the key, an apply leaves the text untouched.
pub proof fn lemma_patch_no_match(s: Seq<char>, key: Seq<char>, value: Seq<char>)
    requires
        forall|i: int| 0 <= i < lines_of(s).len() ==> !line_selects(#[trigger] lines_of(s)[i], key),
    ensures
        patch_content(s, key, value) == s,
{
    let mapped = patched_lines(lines_of(s), key, value);
    assert(mapped =~= lines_of(s));
    lemma_join_lines_of(s);
}

/// A line whose stripped content differs from the key at some position
/// within the key does not select it.
proof fn lemma_key_mismatch_at(line: Seq<char>, key: Seq<char>, j: int)
    requires
        0 <= j < key.len(),
        strip_ws(line).len() >= key.len() ==> strip_ws(line)[j] != key[j],
    ensures
        !line_selects(line, key),
{
    if line_selects(line, key) {
        assert(key[j] == strip_ws(line).subrange(0, key.len() as int)[j]);
    }
}

/// No line selects both the display-name key and the scheme key: its
/// stripped first character cannot be both.
proof fn lemma_keys_disjoint(l: Seq<char>)
    ensures
        !(line_selects(l, "Name="@) && line_selects(l, "ColorScheme="@)),
{
    reveal_strlit("Name=");
    reveal_strlit("ColorScheme=");
    if line_selects(l, "Name="@) && line_selects(l, "ColorScheme="@) {
        assert("Name="@[0] == strip_ws(l).subrange(0, 5)[0]);
        assert("ColorScheme="@[0] == strip_ws(l).subrange(0, 12)[0]);
    }
}

/// Ground facts about the two profile keys: neither holds a newline or any
/// whitespace.
proof fn lemma_profile_key_facts()
    ensures
        !"Name="@.contains('\n'),
        !"ColorScheme="@.contains('\n'),
        strip_ws("Name="@) == "Name="@,
        strip_ws("ColorScheme="@) == "ColorScheme="@,
{
    reveal_strlit("Name=");
    reveal_strlit("ColorScheme=");
    reveal_with_fuel(strip_ws, 14);
    assert(strip_ws("Name="@) =~= "Name="@);
    assert(strip_ws("ColorScheme="@) =~= "ColorScheme="@);
    if "Name="@.contains('\n') {
        let k = choose|k: int| 0 <= k < "Name="@.len() && "Name="@[k] == '\n';
        assert(false);
    }
    if "ColorScheme="@.contains('\n') {
        let k = choose|k: int| 0 <= k < "ColorScheme="@.len() && "ColorScheme="@[k] == '\n';
        assert(false);
    }
}

/// Ground facts about a theme's display name: no newline, no whitespace.
proof fn lemma_display_name_facts(t: ThemeType)
    ensures
        !display_name_spec(t).contains('\n'),
        strip_ws(display_name_spec(t)) == display_name_spec(t),
{
    reveal_strlit("Dark");
    reveal_strlit("Light");
    reveal_with_fuel(strip_ws, 7);
    match t {
        ThemeType::Dark => {
            assert(strip_ws("Dark"@) =~= "Dark"@);
            if "Dark"@.contains('\n') {
                let k = choose|k: int| 0 <= k < "Dark"@.len() && "Dark"@[k] == '\n';
                assert(false);
            }
        },
        ThemeType::Light => {
            assert(strip_ws("Light"@) =~= "Light"@);
            if "Light"@.contains('\n') {
                let k = choose|k: int| 0 <= k < "Light"@.len() && "Light"@[k] == '\n';
                assert(false);
            }
        },
    }
}

/// Applying a theme to the main configuration file's text keeps every line
/// count and every unrelated line byte for byte, and rewrites exactly the
/// lines selecting the default-profile key to name the theme's profile
/// file.
pub proof fn lemma_konsolerc_apply(s: Seq<char>, t: ThemeType)
    ensures
        lines_of(konsolerc_patched(s, t)).len() == lines_of(s).len(),
        forall|i: int|
            0 <= i < lines_of(s).len() && line_selects(#[trigger] lines_of(s)[i], "DefaultProfile="@)
                ==> lines_of(konsolerc_patched(s, t))[i] == "DefaultProfile="@ + profile_file_spec(t),
        forall|i: int|
            0 <= i < lines_of(s).len() && !line_selects(
                #[trigger] lines_of(s)[i],
                "DefaultProfile="@,
            ) ==> lines_of(konsolerc_patched(s, t))[i] == lines_of(s)[i],
{
    reveal_strlit("DefaultProfile=");
    if "DefaultProfile="@.contains('\n') {
        let k = choose|k: int| 0 <= k < "DefaultProfile="@.len() && "DefaultProfile="@[k] == '\n';
        assert(false);
    }
    reveal_strlit("Dark.profile");
    reveal_strlit("Light.profile");
    match t {
        ThemeType::Dark => {
            if "Dark.profile"@.contains('\n') {
                let k = choose|k: int|
                    0 <= k < "Dark.profile"@.len() && "Dark.profile"@[k] == '\n';
                assert(false);
            }
        },
        ThemeType::Light => {
            if "Light.profile"@.contains('\n') {
                let k = choose|k: int|
                    0 <= k < "Light.profile"@.len() && "Light.profile"@[k] == '\n';
                assert(false);
            }
        },
    }
    lemma_patch_lines(s, "DefaultProfile="@, profile_file_spec(t));
}

/// Applying a theme and a scheme to an existing profile file's text keeps
/// the line count; rewrites exactly the lines selecting the scheme key to
/// the chosen scheme and the lines selecting the display-name key to the
/// theme's display name; and keeps every other line byte for byte.
pub proof fn lemma_profile_apply(s: Seq<char>, t: ThemeType, scheme: Seq<char>)
    requires
        !scheme.contains('\n'),
    ensures
        lines_of(profile_patched(Some(s), t, scheme)).len() == lines_of(s).len(),
        forall|i: int|
            0 <= i < lines_of(s).len() && line_selects(#[trigger] lines_of(s)[i], "ColorScheme="@)
                ==> lines_of(profile_patched(Some(s), t, scheme))[i] == "ColorScheme="@ + scheme,
        forall|i: int|
            0 <= i < lines_of(s).len() && line_selects(#[trigger] lines_of(s)[i], "Name="@)
                ==> lines_of(profile_patched(Some(s), t, scheme))[i] == "Name="@
                + display_name_spec(t),
        forall|i: int|
            0 <= i < lines_of(s).len() && !line_selects(#[trigger] lines_of(s)[i], "ColorScheme="@)
                && !line_selects(lines_of(s)[i], "Name="@) ==> lines_of(
                profile_patched(Some(s), t, scheme),
            )[i] == lines_of(s)[i],
{
    let disp = display_name_spec(t);
    lemma_profile_key_facts();
    lemma_display_name_facts(t);
    let named = patch_content(s, "Name="@, disp);
    lemma_patch_lines(s, "Name="@, disp);
    lemma_patch_lines(named, "ColorScheme="@, scheme);
    lemma_replacement_selects("Name="@, disp);
    assert forall|i: int| 0 <= i < lines_of(s).len() implies !line_selects(
        #[trigger] lines_of(named)[i],
        "ColorScheme="@,
    ) == !line_selects(lines_of(s)[i], "ColorScheme="@) by {
        if line_selects(lines_of(s)[i], "Name="@) {
            lemma_keys_disjoint(lines_of(s)[i]);
            lemma_keys_disjoint(lines_of(named)[i]);
        }
    }
    assert forall|i: int|
        0 <= i < lines_of(s).len() && line_selects(
            #[trigger] lines_of(s)[i],
            "Name="@,
        ) implies lines_of(profile_patched(Some(s), t, scheme))[i] == "Name="@ + disp by {
        assert(lines_of(named)[i] == "Name="@ + disp);
        lemma_keys_disjoint(lines_of(named)[i]);
    }
}

/// Two selector rewrites in a row leave exactly what the second alone
/// leaves: the last applied theme owns the `DefaultProfile=` line.
pub proof fn lemma_konsolerc_last_write_wins(s: Seq<char>, t1: ThemeType, t2: ThemeType)
    ensures
        konsolerc_patched(konsolerc_patched(s, t1), t2) == konsolerc_patched(s, t2),
{
    reveal_strlit("DefaultProfile=");
    reveal_with_fuel(strip_ws, 16);
    assert(strip_ws("DefaultProfile="@) =~= "DefaultProfile="@);
    if "DefaultProfile="@.contains('\n') {
        let k = choose|k: int| 0 <= k < "DefaultProfile="@.len() && "DefaultProfile="@[k] == '\n';
        assert(false);
    }
    reveal_strlit("Dark.profile");
    reveal_strlit("Light.profile");
    match t1 {
        ThemeType::Dark => {
            if "Dark.profile"@.contains('\n') {
                let k = choose|k: int|
                    0 <= k < "Dark.profile"@.len() && "Dark.profile"@[k] == '\n';
                assert(false);
            }
        },
        ThemeType::Light => {
            if "Light.profile"@.contains('\n') {
                let k = choose|k: int|
                    0 <= k < "Light.profile"@.len() && "Light.profile"@[k] == '\n';
                assert(false);
            }
        },
    }
    lemma_patch_last_write_wins(s, "DefaultProfile="@, profile_file_spec(t1), profile_file_spec(t2));
}

/// Two applies to the same profile in a row leave exactly what the second
/// alone leaves: the second scheme wins, and no second scheme line appears.
pub proof fn lemma_profile_last_write_wins(
    existing: Option<Seq<char>>,
    t: ThemeType,
    s1: Seq<char>,
    s2: Seq<char>,
)
    requires
        !s1.contains('\n'),
    ensures
        profile_patched(Some(profile_patched(existing, t, s1)), t, s2) == profile_patched(
            existing,
            t,
            s2,
        ),
{
    let disp = display_name_spec(t);
    lemma_profile_key_facts();
    lemma_display_name_facts(t);
    let base = match existing {
        Some(s) => s,
        None => crate::profile::default_profile_body_spec(t),
    };
    let named = patch_content(base, "Name="@, disp);
    let p1 = patch_content(named, "ColorScheme="@, s1);
    lemma_patch_lines(base, "Name="@, disp);
    lemma_patch_lines(named, "ColorScheme="@, s1);
    lemma_replacement_selects("Name="@, disp);
    assert forall|i: int| 0 <= i < lines_of(p1).len() implies patched_line(
        #[trigger] lines_of(p1)[i],
        "Name="@,
        disp,
    ) == lines_of(p1)[i] by {
        let lb = lines_of(base)[i];
        let ln = lines_of(named)[i];
        let lp = lines_of(p1)[i];
        reveal_strlit("ColorScheme=");
        reveal_strlit("Name=");
        if line_selects(ln, "ColorScheme="@) {
            assert(lp == "ColorScheme="@ + s1);
            lemma_strip_ws_add("ColorScheme="@, s1);
            assert(strip_ws(lp)[0] == 'C');
            lemma_key_mismatch_at(lp, "Name="@, 0);
        } else {
            assert(lp == ln);
            if line_selects(lb, "Name="@) {
                assert(ln == "Name="@ + disp);
            } else {
                assert(ln == lb);
            }
        }
    }
    assert(patched_lines(lines_of(p1), "Name="@, disp) =~= lines_of(p1));
    lemma_join_lines_of(p1);
    assert(patch_content(p1, "Name="@, disp) == p1);
    lemma_patch_last_write_wins(named, "ColorScheme="@, s1, s2);
}

/// Applying a theme and a scheme where no profile file exists produces
/// exactly the default body with the theme's display name on the `Name=`
/// line and the chosen scheme on the `ColorScheme=` line.
pub proof fn lemma_profile_created(t: ThemeType, scheme: Seq<char>)
    requires
        !scheme.contains('\n'),
    ensures
        lines_of(profile_patched(None, t, scheme)) == seq![
            "[Appearance]"@,
            "ColorScheme="@ + scheme,
            Seq::<char>::empty(),
            "[General]"@,
            "Command=/bin/bash"@,
            "Name="@ + display_name_spec(t),
            "Parent=FALLBACK/"@,
            Seq::<char>::empty(),
        ],
{
    let disp = display_name_spec(t);
    let d = disp.len() as int;
    let base = crate::profile::default_profile_body_spec(t);
    let nl = seq!['\n'];
    let l0 = "[Appearance]"@;
    let l1 = "ColorScheme=Breeze"@;
    let l2 = Seq::<char>::empty();
    let l3 = "[General]"@;
    let l4 = "Command=/bin/bash"@;
    let l5 = "Name="@ + disp;
    let l6 = "Parent=FALLBACK/"@;
    let l7 = Seq::<char>::empty();
    reveal_strlit("[Appearance]\nColorScheme=Breeze\n\n[General]\nCommand=/bin/bash\nName=");
    reveal_strlit("\nParent=FALLBACK/\n");
    reveal_strlit("[Appearance]");
    reveal_strlit("ColorScheme=Breeze");
    reveal_strlit("[General]");
    reveal_strlit("Command=/bin/bash");
    reveal_strlit("Name=");
    reveal_strlit("Parent=FALLBACK/");
    reveal_strlit("ColorScheme=");
    lemma_profile_key_facts();
    lemma_display_name_facts(t);
    let n = base.len() as int;
    let r1 = base.subrange(13, n);
    let r2 = base.subrange(32, n);
    let r3 = base.subrange(33, n);
    let r4 = base.subrange(43, n);
    let r5 = base.subrange(61, n);
    let r6 = base.subrange(67 + d, n);
    let r7 = base.subrange(84 + d, n);
    assert(base =~= l0 + nl + r1);
    assert(r1 =~= l1 + nl + r2);
    assert(r2 =~= l2 + nl + r3);
    assert(r3 =~= l3 + nl + r4);
    assert(r4 =~= l4 + nl + r5);
    assert(r5 =~= l5 + nl + r6);
    assert(r6 =~= l6 + nl + r7);
    assert(r7 =~= l7);
    // each line is newline-free
    assert forall|k: int| 0 <= k < l0.len() implies l0[k] != '\n' by {}
    assert(!l0.contains('\n'));
    assert(!l1.contains('\n'));
    assert(!l2.contains('\n'));
    assert(!l3.contains('\n'));
    assert(!l4.contains('\n'));
    assert(!l5.contains('\n')) by {
        if l5.contains('\n') {
            let k = choose|k: int| 0 <= k < l5.len() && l5[k] == '\n';
            if k >= 5 {
                assert(disp[k - 5] == '\n');
                assert(disp.contains('\n'));
            }
        }
    }
    assert(!l6.contains('\n'));
    assert(!l7.contains('\n'));
    lemma_lines_of_single(l7);
    lemma_lines_of_concat(l6, r7);
    lemma_lines_of_concat(l5, r6);
    lemma_lines_of_concat(l4, r5);
    lemma_lines_of_concat(l3, r4);
    lemma_lines_of_concat(l2, r3);
    lemma_lines_of_concat(l1, r2);
    lemma_lines_of_concat(l0, r1);
    let ls = seq![l0, l1, l2, l3, l4, l5, l6, l7];
    assert(lines_of(base) =~= ls);
    // how each line stands to the two keys
    reveal_with_fuel(strip_ws, 19);
    assert(strip_ws(l0) =~= l0);
    assert(strip_ws(l1) =~= l1);
    assert(strip_ws(l2) =~= l2);
    assert(strip_ws(l3) =~= l3);
    assert(strip_ws(l4) =~= l4);
    lemma_strip_ws_add("Name="@, disp);
    assert(strip_ws(l5) == "Name="@ + disp);
    assert(strip_ws(l6) =~= l6);
    lemma_replacement_selects("Name="@, disp);
    assert(line_selects(l5, "Name="@));
    lemma_key_mismatch_at(l0, "Name="@, 0);
    lemma_key_mismatch_at(l1, "Name="@, 0);
    lemma_key_mismatch_at(l2, "Name="@, 0);
    lemma_key_mismatch_at(l3, "Name="@, 0);
    lemma_key_mismatch_at(l4, "Name="@, 0);
    lemma_key_mismatch_at(l6, "Name="@, 0);
    lemma_key_mismatch_at(l7, "Name="@, 0);
    assert(line_selects(l1, "ColorScheme="@)) by {
        assert(strip_ws(l1).subrange(0, 12) =~= "ColorScheme="@);
    }
    lemma_key_mismatch_at(l0, "ColorScheme="@, 0);
    lemma_key_mismatch_at(l3, "ColorScheme="@, 0);
    lemma_key_mismatch_at(l4, "ColorScheme="@, 2);
    assert(strip_ws(l5)[0] == 'N');
    lemma_key_mismatch_at(l5, "ColorScheme="@, 0);
    lemma_key_mismatch_at(l6, "ColorScheme="@, 0);
    lemma_key_mismatch_at(l2, "ColorScheme="@, 0);
    lemma_key_mismatch_at(l7, "ColorScheme="@, 0);
    // the display-name pass leaves the default body as it is
    lemma_patch_lines(base, "Name="@, disp);
    let named = patch_content(base, "Name="@, disp);
    assert forall|i: int| 0 <= i < lines_of(base).len() implies patched_line(
        #[trigger] lines_of(base)[i],
        "Name="@,
        disp,
    ) == lines_of(base)[i] by {
        if line_selects(lines_of(base)[i], "Name="@) {
            assert(lines_of(base)[i] == l5);
        }
    }
    assert(patched_lines(lines_of(base), "Name="@, disp) =~= lines_of(base));
    lemma_join_lines_of(base);
    assert(named == base);
    // the scheme pass rewrites exactly the scheme line
    lemma_patch_lines(base, "ColorScheme="@, scheme);
    let result = patch_content(base, "ColorScheme="@, scheme);
    assert(profile_patched(None, t, scheme) == result);
    assert(lines_of(result) =~= seq![
        l0,
        "ColorScheme="@ + scheme,
        l2,
        l3,
        l4,
        l5,
        l6,
        l7,
    ]) by {
        assert(lines_of(result)[0] == patched_line(l0, "ColorScheme="@, scheme));
        assert(lines_of(result)[1] == patched_line(l1, "ColorScheme="@, scheme));
        assert(lines_of(result)[2] == patched_line(l2, "ColorScheme="@, scheme));
        assert(lines_of(result)[3] == patched_line(l3, "ColorScheme="@, scheme));
        assert(lines_of(result)[4] == patched_line(l4, "ColorScheme="@, scheme));
        assert(lines_of(result)[5] == patched_line(l5, "ColorScheme="@, scheme));
        assert(lines_of(result)[6] == patched_line(l6, "ColorScheme="@, scheme));
        assert(lines_of(result)[7] == patched_line(l7, "ColorScheme="@, scheme));
    }
}

} // verus!
