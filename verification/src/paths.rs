//! Path-string logic: parent and file-name extraction, joining, prefix
//! stripping, destination mapping, and home-directory abbreviation.
//!
//! Paths are UTF-8 strings with `/` as the separator, assumed normalized
//! (absolute where the data model requires it, no trailing separator).

use vstd::prelude::*;

verus! {

/// Index of the last `/` in `s`, or -1 if `s` has none.
pub open spec fn spec_last_slash(s: Seq<char>) -> int
    decreases s.len(),
{
    if s.len() == 0 {
        -1
    } else if s[s.len() - 1] == '/' {
        s.len() - 1
    } else {
        spec_last_slash(s.drop_last())
    }
}

pub proof fn lemma_last_slash(s: Seq<char>)
    ensures
        -1 <= spec_last_slash(s) < s.len(),
        spec_last_slash(s) >= 0 ==> s[spec_last_slash(s)] == '/',
        forall|j: int| spec_last_slash(s) < j < s.len() ==> s[j] != '/',
        spec_last_slash(s) == -1 ==> forall|j: int| 0 <= j < s.len() ==> s[j] != '/',
    decreases s.len(),
{
    if s.len() == 0 {
    } else if s[s.len() - 1] == '/' {
    } else {
        lemma_last_slash(s.drop_last());
        assert(forall|j: int| 0 <= j < s.len() - 1 ==> s[j] == s.drop_last()[j]);
    }
}

/// The position of the last `/`, found by scanning from the end.
fn last_slash_index(path: &str) -> (r: Option<usize>)
    ensures
        match r {
            Some(i) => i == spec_last_slash(path@),
            None => spec_last_slash(path@) == -1,
        },
{
    let n = path.unicode_len();
    let mut i = n;
    while i > 0
        invariant
            i <= n,
            n == path@.len(),
            forall|j: int| i <= j < n ==> path@[j] != '/',
        decreases i,
    {
        i = i - 1;
        if path.get_char(i) == '/' {
            proof {
                lemma_last_slash(path@);
            }
            return Some(i);
        }
    }
    proof {
        lemma_last_slash(path@);
    }
    None
}

/// The parent directory of a path; `None` for the filesystem root and for a
/// path without a separator.
pub open spec fn spec_parent_of(s: Seq<char>) -> Option<Seq<char>> {
    let i = spec_last_slash(s);
    if i == -1 {
        None
    } else if i == 0 {
        if s.len() == 1 {
            None
        } else {
            Some(s.take(1))
        }
    } else {
        Some(s.take(i))
    }
}

pub fn parent_of(path: &str) -> (r: Option<String>)
    ensures
        match r {
            Some(p) => spec_parent_of(path@) == Some(p@),
            None => spec_parent_of(path@) is None,
        },
{
    proof {
        lemma_last_slash(path@);
    }
    match last_slash_index(path) {
        None => None,
        Some(i) => {
            if i == 0 {
                if path.unicode_len() == 1 {
                    None
                } else {
                    Some(String::from_str(path.substring_char(0, 1)))
                }
            } else {
                Some(String::from_str(path.substring_char(0, i)))
            }
        },
    }
}

/// The final component of a path: everything after the last `/`.
pub open spec fn spec_file_name(s: Seq<char>) -> Seq<char> {
    s.skip(spec_last_slash(s) + 1)
}

/// Whether a name follows the hidden-file convention (a leading `.`).
pub open spec fn spec_dotted(name: Seq<char>) -> bool {
    name.len() > 0 && name[0] == '.'
}

/// Whether the final component of `path` begins with `.`.
pub fn name_is_dotted(path: &str) -> (r: bool)
    ensures
        r == spec_dotted(spec_file_name(path@)),
{
    proof {
        lemma_last_slash(path@);
    }
    let n = path.unicode_len();
    let start = match last_slash_index(path) {
        None => 0,
        Some(i) => i + 1,
    };
    if start < n {
        path.get_char(start) == '.'
    } else {
        false
    }
}

/// Join a base path with a further path; an absolute second path replaces the
/// base.
pub open spec fn spec_join(base: Seq<char>, rel: Seq<char>) -> Seq<char> {
    if rel.len() > 0 && rel[0] == '/' {
        rel
    } else if base.len() == 0 {
        rel
    } else if base[base.len() - 1] == '/' {
        base + rel
    } else {
        base + seq!['/'] + rel
    }
}

pub fn join_path(base: &str, rel: &str) -> (r: String)
    ensures
        r@ == spec_join(base@, rel@),
{
    proof {
        reveal_strlit("/");
    }
    let bl = base.unicode_len();
    let rl = rel.unicode_len();
    if rl > 0 && rel.get_char(0) == '/' {
        rel.to_owned()
    } else if bl == 0 {
        rel.to_owned()
    } else if base.get_char(bl - 1) == '/' {
        let mut r = base.to_owned();
        r.append(rel);
        r
    } else {
        let mut r = base.to_owned();
        r.append("/");
        r.append(rel);
        r
    }
}

/// The remainder of `path` under the prefix `root`, or `None` if `path` does
/// not lie under `root`.
pub open spec fn spec_strip_prefix(path: Seq<char>, root: Seq<char>) -> Option<Seq<char>> {
    if path == root {
        Some(Seq::<char>::empty())
    } else if path.len() > root.len() && path.take(root.len() as int) == root && path[root.len() as int]
        == '/' {
        Some(path.skip(root.len() as int + 1))
    } else {
        None
    }
}

pub fn strip_path_prefix(path: &str, root: &str) -> (r: Option<String>)
    ensures
        match r {
            Some(s) => spec_strip_prefix(path@, root@) == Some(s@),
            None => spec_strip_prefix(path@, root@) is None,
        },
{
    let pl = path.unicode_len();
    let rl = root.unicode_len();
    if pl == rl {
        if String::from_str(path) == String::from_str(root) {
            Some(String::new())
        } else {
            None
        }
    } else if pl > rl && path.get_char(rl) == '/' && String::from_str(
        path.substring_char(0, rl),
    ) == String::from_str(root) {
        Some(String::from_str(path.substring_char(rl + 1, pl)))
    } else {
        proof {
            assert(path@ == root@ ==> path@.len() == root@.len());
        }
        None
    }
}

/// Where a walked source entry lands: the source root itself maps to the
/// configured destination verbatim, a child of the root is rebased under it,
/// and an entry not under its claimed root has no destination.
pub open spec fn spec_map_destination(
    source_file: Seq<char>,
    root: Seq<char>,
    destination: Seq<char>,
) -> Option<Seq<char>> {
    if source_file == root {
        Some(destination)
    } else {
        match spec_strip_prefix(source_file, root) {
            Some(rel) => Some(spec_join(destination, rel)),
            None => None,
        }
    }
}

pub fn map_destination(source_file: &str, root: &str, destination: &str) -> (r: Option<String>)
    ensures
        match r {
            Some(d) => spec_map_destination(source_file@, root@, destination@) == Some(d@),
            None => spec_map_destination(source_file@, root@, destination@) is None,
        },
{
    if String::from_str(source_file) == String::from_str(root) {
        Some(destination.to_owned())
    } else {
        match strip_path_prefix(source_file, root) {
            Some(rel) => Some(join_path(destination, rel.as_str())),
            None => None,
        }
    }
}

/// A path shown to the user: a home-directory prefix is abbreviated to `~`.
pub open spec fn spec_display_tilde(path: Seq<char>, home: Option<Seq<char>>) -> Seq<char> {
    match home {
        Some(h) => {
            if h.len() <= path.len() && path.take(h.len() as int) == h {
                seq!['~'] + path.skip(h.len() as int)
            } else {
                path
            }
        },
        None => path,
    }
}

pub fn display_path_with_tilde(path: &str, home_dir: &Option<String>) -> (r: String)
    ensures
        r@ == spec_display_tilde(path@, home_dir.deep_view()),
{
    match home_dir {
        None => path.to_owned(),
        Some(h) => {
            let hl = h.as_str().unicode_len();
            let pl = path.unicode_len();
            if hl <= pl && String::from_str(path.substring_char(0, hl)) == *h {
                proof {
                    reveal_strlit("~");
                }
                let mut r = String::from_str("~");
                r.append(path.substring_char(hl, pl));
                r
            } else {
                path.to_owned()
            }
        },
    }
}

} // verus!
