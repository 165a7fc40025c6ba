//! The live-session notifier's decisions: which running processes are
//! terminal-emulator sessions worth a control call, and how each one's
//! control endpoint is named. The surrounding process enumerates the
//! processes and makes the calls; both are best-effort and their failures
//! are discarded by design.

use vstd::prelude::*;

verus! {

/// Whether `c` is `l` or its ASCII uppercase form.
pub open spec fn char_matches_lower(c: char, l: char) -> bool {
    c == l || c as u32 + 32 == l as u32
}

/// Whether a process name is the terminal emulator's, ASCII case aside.
pub open spec fn is_konsole_name_spec(s: Seq<char>) -> bool {
    s.len() == 7 && char_matches_lower(s[0], 'k') && char_matches_lower(s[1], 'o')
        && char_matches_lower(s[2], 'n') && char_matches_lower(s[3], 's') && char_matches_lower(
        s[4],
        'o',
    ) && char_matches_lower(s[5], 'l') && char_matches_lower(s[6], 'e')
}

/// Decides `char_matches_lower` at run time.
fn char_eq_lower(c: char, l: char) -> (r: bool)
    ensures
        r == char_matches_lower(c, l),
{
    c == l || (c as u32) + 32 == (l as u32)
}

/// Whether a running process's name is the terminal emulator's, ASCII case
/// aside.
pub fn is_konsole_name(name: &str) -> (r: bool)
    ensures
        r == is_konsole_name_spec(name@),
{
    if name.unicode_len() != 7 {
        return false;
    }
    char_eq_lower(name.get_char(0), 'k') && char_eq_lower(name.get_char(1), 'o') && char_eq_lower(
        name.get_char(2),
        'n',
    ) && char_eq_lower(name.get_char(3), 's') && char_eq_lower(name.get_char(4), 'o')
        && char_eq_lower(name.get_char(5), 'l') && char_eq_lower(name.get_char(6), 'e')
}

/// The process identifiers whose names are the terminal emulator's, in the
/// listed order.
pub open spec fn konsole_pids_spec(procs: Seq<(u32, String)>) -> Seq<u32>
    decreases procs.len(),
{
    if procs.len() == 0 {
        Seq::empty()
    } else {
        let rest = konsole_pids_spec(procs.drop_last());
        if is_konsole_name_spec(procs.last().1@) {
            rest.push(procs.last().0)
        } else {
            rest
        }
    }
}

/// Picks, from an enumeration of running processes as identifier and name
/// pairs, the identifiers of the terminal-emulator sessions to notify.
pub fn konsole_pids(procs: &Vec<(u32, String)>) -> (r: Vec<u32>)
    ensures
        r@ == konsole_pids_spec(procs@),
{
    let mut out: Vec<u32> = Vec::new();
    let mut i: usize = 0;
    while i < procs.len()
        invariant
            i <= procs@.len(),
            out@ == konsole_pids_spec(procs@.subrange(0, i as int)),
        decreases procs@.len() - i,
    {
        proof {
            let pre = procs@.subrange(0, i as int);
            let cur = procs@.subrange(0, i + 1);
            assert(cur.drop_last() =~= pre);
            assert(cur.last() == procs@[i as int]);
        }
        if is_konsole_name(procs[i].1.as_str()) {
            out.push(procs[i].0);
        }
        i = i + 1;
    }
    proof {
        assert(procs@.subrange(0, procs@.len() as int) =~= procs@);
    }
    out
}

/// The digit character of a value below ten.
pub open spec fn dec_digit(d: int) -> char {
    if d == 0 {
        '0'
    } else if d == 1 {
        '1'
    } else if d == 2 {
        '2'
    } else if d == 3 {
        '3'
    } else if d == 4 {
        '4'
    } else if d == 5 {
        '5'
    } else if d == 6 {
        '6'
    } else if d == 7 {
        '7'
    } else if d == 8 {
        '8'
    } else {
        '9'
    }
}

/// A nonnegative value written in decimal, most significant digit first,
/// with no leading zero except for the value zero itself.
pub open spec fn dec_spec(n: int) -> Seq<char>
    decreases n,
{
    if n < 10 {
        seq![dec_digit(n)]
    } else {
        dec_spec(n / 10).push(dec_digit(n % 10))
    }
}

/// One decimal digit as text.
fn digit_str(d: u32) -> (r: &'static str)
    requires
        d < 10,
    ensures
        r@ == seq![dec_digit(d as int)],
{
    proof {
        reveal_strlit("0");
        reveal_strlit("1");
        reveal_strlit("2");
        reveal_strlit("3");
        reveal_strlit("4");
        reveal_strlit("5");
        reveal_strlit("6");
        reveal_strlit("7");
        reveal_strlit("8");
        reveal_strlit("9");
    }
    if d == 0 {
        proof {
            assert("0"@ =~= seq![dec_digit(0)]);
        }
        "0"
    } else if d == 1 {
        proof {
            assert("1"@ =~= seq![dec_digit(1)]);
        }
        "1"
    } else if d == 2 {
        proof {
            assert("2"@ =~= seq![dec_digit(2)]);
        }
        "2"
    } else if d == 3 {
        proof {
            assert("3"@ =~= seq![dec_digit(3)]);
        }
        "3"
    } else if d == 4 {
        proof {
            assert("4"@ =~= seq![dec_digit(4)]);
        }
        "4"
    } else if d == 5 {
        proof {
            assert("5"@ =~= seq![dec_digit(5)]);
        }
        "5"
    } else if d == 6 {
        proof {
            assert("6"@ =~= seq![dec_digit(6)]);
        }
        "6"
    } else if d == 7 {
        proof {
            assert("7"@ =~= seq![dec_digit(7)]);
        }
        "7"
    } else if d == 8 {
        proof {
            assert("8"@ =~= seq![dec_digit(8)]);
        }
        "8"
    } else {
        proof {
            assert("9"@ =~= seq![dec_digit(9)]);
        }
        "9"
    }
}

/// A process identifier written in decimal.
pub fn u32_decimal(n: u32) -> (r: String)
    ensures
        r@ == dec_spec(n as int),
    decreases n,
{
    if n < 10 {
        String::from_str(digit_str(n))
    } else {
        let q = u32_decimal(n / 10);
        q.concat(digit_str(n % 10))
    }
}

/// The bus name of one running session's control endpoint: the well-known
/// prefix with the process identifier appended.
pub fn konsole_service_name(pid: u32) -> (r: String)
    ensures
        r@ == "org.kde.konsole-"@ + dec_spec(pid as int),
{
    String::from_str("org.kde.konsole-").concat(u32_decimal(pid).as_str())
}

} // verus!
