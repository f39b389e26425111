//! Small verified string utilities shared by the parser and the ingestion
//! pipeline: character-exact equality, the hidden-name test, and the check
//! for the container file extension.

use vstd::prelude::*;
use vstd::string::StrSliceExecFns;

verus! {

/// Character-for-character equality of two string slices.
pub fn str_eq(a: &str, b: &str) -> (r: bool)
    ensures
        r == (a@ == b@),
{
    let an = a.unicode_len();
    let bn = b.unicode_len();
    if an != bn {
        return false;
    }
    let mut i: usize = 0;
    while i < an
        invariant
            an == a@.len(),
            bn == b@.len(),
            an == bn,
            i <= an,
            forall|k: int| 0 <= k < i ==> a@[k] == b@[k],
        decreases an - i,
    {
        if a.get_char(i) != b.get_char(i) {
            return false;
        }
        i += 1;
    }
    proof {
        assert(a@ =~= b@);
    }
    true
}

/// A directory or file name is hidden when it starts with the hidden-file
/// marker `.`.
pub open spec fn spec_is_hidden(name: Seq<char>) -> bool {
    name.len() > 0 && name[0] == '.'
}

/// Whether a name starts with the hidden-file marker.
pub fn is_hidden_name(name: &str) -> (r: bool)
    ensures
        r == spec_is_hidden(name@),
{
    if name.unicode_len() == 0 {
        false
    } else {
        name.get_char(0) == '.'
    }
}

/// The index of the last occurrence of `c` in `s`, or `-1` when absent.
pub open spec fn last_index_of(s: Seq<char>, c: char) -> int
    decreases s.len(),
{
    if s.len() == 0 {
        -1
    } else if s.last() == c {
        s.len() - 1
    } else {
        last_index_of(s.drop_last(), c)
    }
}

pub proof fn lemma_last_index_of(s: Seq<char>, c: char)
    ensures
        -1 <= last_index_of(s, c) < s.len(),
        last_index_of(s, c) >= 0 ==> s[last_index_of(s, c)] == c,
        forall|k: int| last_index_of(s, c) < k < s.len() ==> s[k] != c,
    decreases s.len(),
{
    if s.len() > 0 && s.last() != c {
        lemma_last_index_of(s.drop_last(), c);
        assert(forall|k: int| 0 <= k < s.len() - 1 ==> s[k] == s.drop_last()[k]);
    }
}

/// The file component of a path written with `/` separators: everything
/// after the last separator, or the whole path when there is none.
pub open spec fn file_component(path: Seq<char>) -> Seq<char> {
    path.subrange(last_index_of(path, '/') + 1, path.len() as int)
}

/// A path names a container file when its file component has a non-empty
/// stem followed by the extension `jdx`. A leading `.` alone does not count
/// as the start of an extension, so a hidden name such as `.jdx` has none.
pub open spec fn spec_has_jdx_extension(path: Seq<char>) -> bool {
    let comp = file_component(path);
    let d = last_index_of(comp, '.');
    d >= 1 && comp.subrange(d + 1, comp.len() as int) == "jdx"@
}

/// The index of the last occurrence of `c` in `s`, or `None` when absent.
fn last_char_index(s: &str, c: char) -> (r: Option<usize>)
    ensures
        match r {
            Some(i) => i < s@.len() && last_index_of(s@, c) == i,
            None => last_index_of(s@, c) == -1,
        },
{
    proof {
        lemma_last_index_of(s@, c);
    }
    let n = s.unicode_len();
    let mut i: usize = n;
    while i > 0
        invariant
            n == s@.len(),
            i <= n,
            forall|k: int| i <= k < n ==> s@[k] != c,
        decreases i,
    {
        i = i - 1;
        if s.get_char(i) == c {
            proof {
                lemma_last_index_of(s@, c);
                let l = last_index_of(s@, c);
                if l > i {
                    assert(s@[l] != c);
                }
                if l < i {
                    assert(s@[i as int] != c);
                }
            }
            return Some(i);
        }
    }
    None
}

/// Whether the path carries the `.jdx` container extension.
pub fn has_jdx_extension(path: &str) -> (r: bool)
    ensures
        r == spec_has_jdx_extension(path@),
{
    let n = path.unicode_len();
    let start: usize = match last_char_index(path, '/') {
        Some(sep) => sep + 1,
        None => 0,
    };
    let comp = path.substring_char(start, n);
    proof {
        assert(comp@ =~= file_component(path@));
    }
    let comp_len = comp.unicode_len();
    match last_char_index(comp, '.') {
        Some(d) => {
            if d == 0 {
                return false;
            }
            proof {
                lemma_last_index_of(comp@, '.');
            }
            let ext = comp.substring_char(d + 1, comp_len);
            str_eq(ext, "jdx")
        },
        None => false,
    }
}

} // verus!
