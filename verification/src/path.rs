use vstd::prelude::*;
use crate::text::{to_chars, last_index_of, last_index_in};

verus! {

/// The last component of a path written with `/` separators, as std's `Path::file_name`
/// gives it: empty and `.` components are passed over, and a path that ends in `..` or
/// has no component has no file name.
pub open spec fn file_name(path: Seq<char>) -> Option<Seq<char>>
    decreases path.len(),
{
    let slash = last_index_of(path, '/');
    let part = path.subrange(slash + 1, path.len() as int);
    if part.len() == 0 || part == seq!['.'] {
        if slash < 0 {
            None
        } else {
            proof {
                lemma_last_index_bounds(path, '/');
            }
            file_name(path.subrange(0, slash))
        }
    } else if part == seq!['.', '.'] {
        None
    } else {
        Some(part)
    }
}

/// The stem of a file name, as std documents it for `Path::file_stem`: the whole name
/// where it holds no `.` or only a leading one, else the part before the last `.`.
pub open spec fn name_stem(name: Seq<char>) -> Seq<char> {
    let dot = last_index_of(name, '.');
    if dot <= 0 {
        name
    } else {
        name.subrange(0, dot)
    }
}

/// The stem of the file name of `path`, as std's `Path::file_stem` gives it.
pub open spec fn file_stem_of(path: Seq<char>) -> Option<Seq<char>> {
    match file_name(path) {
        None => None,
        Some(name) => Some(name_stem(name)),
    }
}

/// Where `last_index_of` can point.
pub proof fn lemma_last_index_bounds(s: Seq<char>, c: char)
    ensures
        -1 <= last_index_of(s, c) < s.len(),
        last_index_of(s, c) >= 0 ==> s[last_index_of(s, c)] == c,
    decreases s.len(),
{
    if s.len() > 0 && s.last() != c {
        lemma_last_index_bounds(s.drop_last(), c);
    }
}

/// The stem of the file name of `path`, where it has one.
pub fn file_stem(path: &str) -> (r: Option<String>)
    ensures
        match r {
            Some(stem) => file_stem_of(path@) == Some(stem@),
            None => file_stem_of(path@) is None,
        },
{
    let chars = to_chars(path);
    let mut end = chars.len();
    assert(path@.subrange(0, end as int) =~= path@);
    loop
        invariant
            end <= chars@.len(),
            chars@ == path@,
            file_name(path@) == file_name(path@.subrange(0, end as int)),
        decreases end,
    {
        let ghost prefix = path@.subrange(0, end as int);
        proof { lemma_last_index_bounds(prefix, '/'); }
        let slash = last_index_in(&chars, end, '/');
        let start = match slash {
            Some(k) => k + 1,
            None => 0,
        };
        let ghost part = prefix.subrange(last_index_of(prefix, '/') + 1, prefix.len() as int);
        assert(part =~= path@.subrange(start as int, end as int));
        let len = end - start;
        if len == 0 || (len == 1 && chars[start] == '.') {
            assert(part.len() == 0 || part =~= seq!['.']);
            match slash {
                None => {
                    return None;
                },
                Some(k) => {
                    assert(prefix.subrange(0, k as int) =~= path@.subrange(0, k as int));
                    end = k;
                },
            }
        } else if len == 2 && chars[start] == '.' && chars[start + 1] == '.' {
            assert(part =~= seq!['.', '.']);
            return None;
        } else {
            assert(part.len() != 0);
            proof {
                if part.len() == 1 {
                    assert(part[0] == chars@[start as int]);
                    assert(part != seq!['.']);
                }
                if part.len() == 2 {
                    assert(part[0] == chars@[start as int]);
                    assert(part[1] == chars@[start + 1]);
                    assert(part != seq!['.', '.']);
                }
            }
            let name = path.substring_char(start, end);
            let name_chars = to_chars(name);
            let ghost nm = name@;
            proof { lemma_last_index_bounds(nm, '.'); }
            let dot = last_index_in(&name_chars, name_chars.len(), '.');
            assert(nm.subrange(0, nm.len() as int) =~= nm);
            match dot {
                Some(d) => {
                    if d == 0 {
                        return Some(name.to_owned());
                    }
                    return Some(name.substring_char(0, d).to_owned());
                },
                None => {
                    return Some(name.to_owned());
                },
            }
        }
    }
}

} // verus!
