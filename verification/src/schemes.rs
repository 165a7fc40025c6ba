//! Which installed color schemes a directory listing offers: the scheme
//! names are the stems of the `.colorscheme` files. The surrounding process
//! lists the directory's file names; the selection is decided here.

use vstd::prelude::*;

verus! {

/// Whether a file name is a color-scheme file: it ends with the
/// `.colorscheme` extension and has a nonempty stem in front of it.
pub open spec fn is_scheme_file(name: Seq<char>) -> bool {
    name.len() > ".colorscheme"@.len() && name.subrange(
        name.len() - ".colorscheme"@.len(),
        name.len() as int,
    ) == ".colorscheme"@
}

/// A scheme file's name with the extension cut off: the scheme's name.
pub open spec fn scheme_stem(name: Seq<char>) -> Seq<char> {
    name.subrange(0, name.len() - ".colorscheme"@.len())
}

/// The scheme names a list of file names offers, in the listed order.
pub open spec fn scheme_names_spec(names: Seq<Seq<char>>) -> Seq<Seq<char>>
    decreases names.len(),
{
    if names.len() == 0 {
        Seq::empty()
    } else {
        let rest = scheme_names_spec(names.drop_last());
        if is_scheme_file(names.last()) {
            rest.push(scheme_stem(names.last()))
        } else {
            rest
        }
    }
}

/// Decides `is_scheme_file` at run time.
fn is_scheme_file_name(name: &str) -> (r: bool)
    ensures
        r == is_scheme_file(name@),
{
    let ext = ".colorscheme";
    let elen = ext.unicode_len();
    let n = name.unicode_len();
    if n <= elen {
        return false;
    }
    let mut j: usize = 0;
    while j < elen
        invariant
            j <= elen,
            elen == ext@.len(),
            elen < n,
            n == name@.len(),
            ext@ == ".colorscheme"@,
            forall|k: int| 0 <= k < j ==> name@[n - elen + k] == ext@[k],
        decreases elen - j,
    {
        if name.get_char(n - elen + j) != ext.get_char(j) {
            return false;
        }
        j = j + 1;
    }
    proof {
        assert(name@.subrange(n - elen as int, n as int) =~= ext@);
    }
    true
}

/// Picks the scheme names out of a directory's file names: for every name
/// ending in `.colorscheme`, in the given order, the name without the
/// extension; nothing else.
pub fn colorscheme_names(files: &Vec<String>) -> (r: Vec<String>)
    ensures
        r.deep_view() == scheme_names_spec(files.deep_view()),
{
    let mut out: Vec<String> = Vec::new();
    let mut i: usize = 0;
    while i < files.len()
        invariant
            i <= files@.len(),
            out.deep_view() == scheme_names_spec(files.deep_view().subrange(0, i as int)),
        decreases files@.len() - i,
    {
        let name = &files[i];
        proof {
            let pre = files.deep_view().subrange(0, i as int);
            let cur = files.deep_view().subrange(0, i + 1);
            assert(cur.drop_last() =~= pre);
            assert(cur.last() == name@);
        }
        if is_scheme_file_name(name.as_str()) {
            let n = name.as_str().unicode_len();
            proof {
                reveal_strlit(".colorscheme");
            }
            let stem = name.as_str().substring_char(0, n - 12);
            proof {
                assert(stem@ == scheme_stem(name@));
            }
            let ghost before = out.deep_view();
            out.push(String::from_str(stem));
            proof {
                assert(out.deep_view() =~= before.push(stem@));
            }
        }
        i = i + 1;
    }
    proof {
        assert(files.deep_view().subrange(0, files@.len() as int) =~= files.deep_view());
    }
    out
}

} // verus!
