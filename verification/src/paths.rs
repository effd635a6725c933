//! Path string logic for grouping gallery entries by folder.
//!
//! Paths are `/`-separated strings. An entry's folder group is the name of
//! its immediate parent directory, the sentinel `Root` when the parent is
//! the watched root itself, and `Unknown` when no parent name can be read
//! off the path.

use vstd::prelude::*;

verus! {

/// Index of the last `/` in `p`, or `-1` when `p` holds none.
pub open spec fn last_slash(p: Seq<char>) -> int
    decreases p.len(),
{
    if p.len() == 0 {
        -1
    } else if p.last() == '/' {
        p.len() - 1
    } else {
        last_slash(p.drop_last())
    }
}

/// What `last_slash` finds: the position of a `/` with none after it, or
/// `-1` when the string has no `/` at all.
pub proof fn lemma_last_slash(p: Seq<char>)
    ensures
        last_slash(p) >= -1,
        last_slash(p) == -1 ==> forall|j: int| 0 <= j < p.len() ==> p[j] != '/',
        last_slash(p) >= 0 ==> last_slash(p) < p.len() && p[last_slash(p)] == '/',
        last_slash(p) >= 0 ==> forall|j: int| last_slash(p) < j < p.len() ==> p[j] != '/',
    decreases p.len(),
{
    if p.len() > 0 && p.last() != '/' {
        lemma_last_slash(p.drop_last());
        assert(forall|j: int| 0 <= j < p.len() - 1 ==> p[j] == p.drop_last()[j]);
    }
}

/// A `/` at position `k` puts the last slash at `k` or later.
proof fn lemma_no_slash_after(p: Seq<char>, k: int)
    requires
        0 <= k < p.len(),
        p[k] == '/',
    ensures
        last_slash(p) >= k,
    decreases p.len(),
{
    if k < p.len() - 1 && p.last() != '/' {
        assert(p.drop_last()[k] == p[k]);
        lemma_no_slash_after(p.drop_last(), k);
    }
}

/// Everything before the last `/`: the parent directory of a path that has
/// one.
pub open spec fn parent_of(p: Seq<char>) -> Seq<char> {
    p.subrange(0, last_slash(p))
}

/// Everything after the last `/` (the whole string when there is none): the
/// final path component.
pub open spec fn base_name_of(p: Seq<char>) -> Seq<char> {
    p.subrange(last_slash(p) + 1, p.len() as int)
}

/// The folder group of a path under a watched root: `Root` for files sitting
/// directly in the root, the parent directory's name otherwise, and
/// `Unknown` when the path has no parent or the parent has no name.
pub open spec fn folder_group_of(path: Seq<char>, root: Seq<char>) -> Seq<char> {
    if last_slash(path) < 0 {
        "Unknown"@
    } else if parent_of(path) == root {
        "Root"@
    } else if base_name_of(parent_of(path)).len() == 0 {
        "Unknown"@
    } else {
        base_name_of(parent_of(path))
    }
}

/// Finds the last `/` of a string, as a character index.
fn last_slash_index(s: &str) -> (r: Option<usize>)
    ensures
        r is Some ==> last_slash(s@) == r->Some_0 && r->Some_0 < s@.len(),
        r is None ==> last_slash(s@) == -1,
{
    let n = s.unicode_len();
    let mut i: usize = n;
    while i > 0
        invariant
            i <= n,
            n == s@.len(),
            forall|j: int| i <= j < n ==> s@[j] != '/',
        decreases i,
    {
        let c = s.get_char(i - 1);
        if c == '/' {
            proof {
                lemma_last_slash(s@);
                lemma_no_slash_after(s@, i - 1);
                if last_slash(s@) > i - 1 {
                    assert(s@[last_slash(s@)] == '/');
                    assert(s@[last_slash(s@)] != '/');
                }
                assert(last_slash(s@) == i - 1);
            }
            return Some(i - 1);
        }
        i -= 1;
    }
    proof {
        lemma_last_slash(s@);
        if last_slash(s@) >= 0 {
            assert(s@[last_slash(s@)] == '/');
            assert(s@[last_slash(s@)] != '/');
        }
    }
    None
}

/// Computes a path's folder group under the watched root.
pub fn folder_group(path: &String, root: &String) -> (r: String)
    ensures
        r@ == folder_group_of(path@, root@),
{
    let slash = last_slash_index(path.as_str());
    match slash {
        None => String::from_str("Unknown"),
        Some(i) => {
            let parent = path.as_str().substring_char(0, i);
            let parent_string = parent.to_owned();
            if parent_string == *root {
                String::from_str("Root")
            } else {
                let name = match last_slash_index(parent) {
                    None => parent.to_owned(),
                    Some(j) => {
                        let parent_len = parent.unicode_len();
                        parent.substring_char(j + 1, parent_len).to_owned()
                    },
                };
                proof {
                    assert(name@ =~= base_name_of(parent_of(path@)));
                }
                if name.as_str().unicode_len() == 0 {
                    String::from_str("Unknown")
                } else {
                    name
                }
            }
        },
    }
}

} // verus!
