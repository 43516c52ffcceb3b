//! File names and extensions of `/`-separated paths, as `Path::file_name`
//! and `Path::extension` read them.
use vstd::prelude::*;
use crate::text::{chars_of, find_last, last_index_of, lemma_last_index_of, split_char, split_on, string_of_range, views};

verus! {

/// The last component that is neither empty nor `.`; `None` when there is
/// none or when it is `..`.
pub open spec fn last_normal(comps: Seq<Seq<char>>) -> Option<Seq<char>>
    decreases comps.len(),
{
    if comps.len() == 0 {
        None
    } else if comps.last().len() == 0 || comps.last() == seq!['.'] {
        last_normal(comps.drop_last())
    } else if comps.last() == seq!['.', '.'] {
        None
    } else {
        Some(comps.last())
    }
}

/// The final component of a path.
pub open spec fn file_name(p: Seq<char>) -> Option<Seq<char>> {
    last_normal(split_on(p, '/'))
}

/// The text after the last `.` of a file name, unless that dot starts it.
pub open spec fn name_extension(name: Seq<char>) -> Option<Seq<char>> {
    match last_index_of(name, '.') {
        None => None,
        Some(k) => if k == 0 { None } else { Some(name.subrange(k + 1, name.len() as int)) },
    }
}

/// The extension of a path (`Path::extension`).
pub open spec fn path_extension(p: Seq<char>) -> Option<Seq<char>> {
    match file_name(p) {
        None => None,
        Some(n) => name_extension(n),
    }
}

/// The final component of a path.
pub fn path_file_name(p: &str) -> (r: Option<String>)
    ensures
        match r {
            Some(n) => file_name(p@) == Some(n@),
            None => file_name(p@) is None,
        },
{
    let comps = split_char(p, '/');
    let ghost cs = views(comps@);
    let mut j = comps.len();
    assert(cs.subrange(0, j as int) =~= cs);
    while j > 0
        invariant
            j <= comps.len(),
            cs == views(comps@),
            file_name(p@) == last_normal(cs.subrange(0, j as int)),
        decreases j,
    {
        let ghost pre = cs.subrange(0, j as int);
        assert(pre.last() == comps@[j - 1]@);
        assert(pre.drop_last() =~= cs.subrange(0, j - 1));
        let c = chars_of(comps[j - 1].as_str());
        let n = c.len();
        if n == 0 {
            j = j - 1;
        } else if n == 1 && c[0] == '.' {
            assert(c@ =~= seq!['.']);
            j = j - 1;
        } else if n == 2 && c[0] == '.' && c[1] == '.' {
            assert(c@ =~= seq!['.', '.']);
            return None;
        } else {
            assert(c@ != seq!['.']) by {
                if n == 1 {
                    assert(c@[0] != '.');
                }
            }
            assert(c@ != seq!['.', '.']) by {
                if n == 2 {
                    assert(c@[0] != '.' || c@[1] != '.');
                }
            }
            return Some(comps[j - 1].clone());
        }
    }
    None
}

/// The extension of a path.
pub fn extension(p: &str) -> (r: Option<String>)
    ensures
        match r {
            Some(e) => path_extension(p@) == Some(e@),
            None => path_extension(p@) is None,
        },
{
    match path_file_name(p) {
        None => None,
        Some(name) => {
            let v = chars_of(name.as_str());
            proof {
                lemma_last_index_of(v@, '.');
            }
            match find_last(&v, '.') {
                None => None,
                Some(k) => {
                    if k == 0 {
                        None
                    } else {
                        Some(string_of_range(&v, k + 1, v.len()))
                    }
                },
            }
        },
    }
}

} // verus!
