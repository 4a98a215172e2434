//! A character-level model of the paths the collector and the strategies
//! work with. Paths are `/`-separated strings, assumed normalized: no
//! trailing separator and no empty components.

use vstd::prelude::*;
use vstd::string::*;

use crate::text::matches_at;

verus! {

/// Joining two paths inserts exactly one separator between them.
pub open spec fn spec_path_join(a: Seq<char>, b: Seq<char>) -> Seq<char> {
    a + seq!['/'] + b
}

/// `prefix` names a directory that `path` lies under, or `path` itself.
pub open spec fn spec_has_path_prefix(path: Seq<char>, prefix: Seq<char>) -> bool {
    path == prefix || (prefix.len() + 1 <= path.len() && path.subrange(
        0,
        prefix.len() as int,
    ) == prefix && path[prefix.len() as int] == '/')
}

/// What is left of `path` once `prefix` and its separator are removed.
pub open spec fn spec_stripped(path: Seq<char>, prefix: Seq<char>) -> Seq<char> {
    if path == prefix {
        Seq::empty()
    } else {
        path.subrange(prefix.len() as int + 1, path.len() as int)
    }
}

/// The position of the last occurrence of `c` in `s`, or -1 when absent.
pub open spec fn last_index_of_char(s: Seq<char>, c: char) -> int
    decreases s.len(),
{
    if s.len() == 0 {
        -1
    } else if s[s.len() - 1] == c {
        s.len() - 1
    } else {
        last_index_of_char(s.drop_last(), c)
    }
}

proof fn lemma_last_index_found(s: Seq<char>, c: char, r: int)
    requires
        0 <= r < s.len(),
        s[r] == c,
        forall|j: int| r < j < s.len() ==> s[j] != c,
    ensures
        last_index_of_char(s, c) == r,
    decreases s.len(),
{
    if r == s.len() - 1 {
    } else {
        assert(s.drop_last()[r] == c);
        lemma_last_index_found(s.drop_last(), c, r);
    }
}

proof fn lemma_last_index_absent(s: Seq<char>, c: char)
    requires
        forall|j: int| 0 <= j < s.len() ==> s[j] != c,
    ensures
        last_index_of_char(s, c) == -1,
    decreases s.len(),
{
    if s.len() > 0 {
        lemma_last_index_absent(s.drop_last(), c);
    }
}

/// The position of the last occurrence of `c` in `s`, searched from the end.
fn last_char_position(s: &str, c: char, len: usize) -> (r: Option<usize>)
    requires
        len == s@.len(),
    ensures
        match r {
            Some(i) => i < len && i as int == last_index_of_char(s@, c),
            None => last_index_of_char(s@, c) == -1,
        },
{
    let mut i: usize = len;
    while i > 0
        invariant
            len == s@.len(),
            0 <= i <= len,
            forall|j: int| i <= j < len ==> s@[j] != c,
        decreases i,
    {
        if s.get_char(i - 1) == c {
            proof {
                lemma_last_index_found(s@, c, i - 1);
            }
            return Some(i - 1);
        }
        i = i - 1;
    }
    proof {
        lemma_last_index_absent(s@, c);
    }
    None
}

/// Joins two normalized paths with a single separator.
pub fn path_join(a: &str, b: &str) -> (r: String)
    ensures
        r@ == spec_path_join(a@, b@),
{
    let r = a.to_owned().concat("/").concat(b);
    proof {
        reveal_strlit("/");
        assert(r@ =~= spec_path_join(a@, b@));
    }
    r
}

/// Removes a leading directory prefix from a path. Returns the remainder
/// relative to `prefix`, or nothing when `path` does not lie under `prefix`.
pub fn strip_path_prefix(path: &str, prefix: &str) -> (r: Option<String>)
    ensures
        match r {
            Some(rest) => spec_has_path_prefix(path@, prefix@) && rest@ == spec_stripped(
                path@,
                prefix@,
            ),
            None => !spec_has_path_prefix(path@, prefix@),
        },
{
    let path_len: usize = path.unicode_len();
    let prefix_len: usize = prefix.unicode_len();
    if path_len == prefix_len {
        if matches_at(path, prefix, 0, path_len, prefix_len) {
            proof {
                assert(path@.subrange(0, 0 + prefix@.len() as int) =~= path@);
            }
            let empty = "".to_owned();
            proof {
                reveal_strlit("");
                assert(empty@ =~= Seq::<char>::empty());
            }
            Some(empty)
        } else {
            proof {
                assert(path@.subrange(0, 0 + prefix@.len() as int) =~= path@);
            }
            None
        }
    } else if prefix_len < path_len {
        if matches_at(path, prefix, 0, path_len, prefix_len) && path.get_char(prefix_len) == '/' {
            let rest = path.substring_char(prefix_len + 1, path_len).to_owned();
            proof {
                assert(path@ != prefix@);
            }
            Some(rest)
        } else {
            None
        }
    } else {
        proof {
            assert(path@.len() != prefix@.len());
        }
        None
    }
}

/// The path ends in a file name with the `rs` extension: a final `.rs`
/// whose dot is neither the start of the file name nor a separator away.
pub open spec fn spec_has_rs_extension(p: Seq<char>) -> bool {
    p.len() >= 4 && p[p.len() - 3] == '.' && p[p.len() - 2] == 'r' && p[p.len() - 1] == 's' && p[
        p.len() - 4
    ] != '/'
}

/// Whether the path names a Rust source file.
pub fn has_rs_extension(path: &str) -> (r: bool)
    ensures
        r == spec_has_rs_extension(path@),
{
    let len: usize = path.unicode_len();
    if len < 4 {
        return false;
    }
    path.get_char(len - 3) == '.' && path.get_char(len - 2) == 'r' && path.get_char(len - 1) == 's'
        && path.get_char(len - 4) != '/'
}

/// Replacing a path's extension: everything after the last dot of the last
/// component is replaced by `ext`; a path whose last component has no
/// extension gets `.` and `ext` appended.
pub open spec fn spec_replace_extension(path: Seq<char>, ext: Seq<char>) -> Seq<char> {
    let slash = last_index_of_char(path, '/');
    let dot = last_index_of_char(path, '.');
    if dot > slash + 1 {
        path.subrange(0, dot + 1) + ext
    } else {
        path + seq!['.'] + ext
    }
}

/// Replaces the extension of the path's last component with `ext`.
pub fn replace_extension(path: &str, ext: &str) -> (r: String)
    ensures
        r@ == spec_replace_extension(path@, ext@),
{
    let len: usize = path.unicode_len();
    let slash = last_char_position(path, '/', len);
    let dot = last_char_position(path, '.', len);
    let replace_from: Option<usize> = match (dot, slash) {
        (Some(d), Some(s)) => if d > s + 1 {
            Some(d)
        } else {
            None
        },
        (Some(d), None) => if d > 0 {
            Some(d)
        } else {
            None
        },
        _ => None,
    };
    match replace_from {
        Some(d) => {
            let r = path.substring_char(0, d + 1).to_owned().concat(ext);
            proof {
                assert(r@ =~= spec_replace_extension(path@, ext@));
            }
            r
        },
        None => {
            let r = path.to_owned().concat(".").concat(ext);
            proof {
                reveal_strlit(".");
                assert(r@ =~= spec_replace_extension(path@, ext@));
            }
            r
        },
    }
}

} // verus!
