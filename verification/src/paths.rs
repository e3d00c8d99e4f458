//! Derivation of the backup locations belonging to a target path.
//!
//! For a target file at `dir/name.ext`, prior versions are kept under the
//! hidden directory `dir/.name`, each snapshot named
//! `dir/.name/name.ext.<timestamp>`.  This naming scheme is part of the
//! durable on-disk contract; recovery tooling depends on it.

use vstd::prelude::*;
use vstd::string::StrSliceExecFns;
use vstd::string::StringExecFns;

verus! {

/// `s` with every trailing path separator removed.
pub open spec fn strip_trailing_sep(s: Seq<char>) -> Seq<char>
    decreases s.len(),
{
    if s.len() > 0 && s[s.len() - 1] == '/' {
        strip_trailing_sep(s.drop_last())
    } else {
        s
    }
}

proof fn lemma_strip_trailing_sep_take(s: Seq<char>, k: int)
    requires
        0 <= k <= s.len(),
        forall|j: int| k <= j < s.len() ==> s[j] == '/',
        k > 0 ==> s[k - 1] != '/',
    ensures
        strip_trailing_sep(s) == s.take(k),
    decreases s.len(),
{
    if s.len() == k {
        assert(s.take(k) =~= s);
    } else {
        lemma_strip_trailing_sep_take(s.drop_last(), k);
        assert(s.drop_last().take(k) =~= s.take(k));
    }
}

/// Index of the last occurrence of `c` in `s`, or `-1` if `c` does not occur.
pub open spec fn last_index_of(s: Seq<char>, c: char) -> int
    decreases s.len(),
{
    if s.len() == 0 {
        -1
    } else if s[s.len() - 1] == c {
        s.len() - 1
    } else {
        last_index_of(s.drop_last(), c)
    }
}

pub proof fn lemma_last_index_of(s: Seq<char>, c: char)
    ensures
        last_index_of(s, c) >= 0 ==> {
            let i = last_index_of(s, c);
            &&& i < s.len()
            &&& s[i] == c
            &&& forall|j: int| i < j < s.len() ==> s[j] != c
        },
        last_index_of(s, c) < 0 ==> forall|j: int| 0 <= j < s.len() ==> s[j] != c,
        last_index_of(s, c) >= -1,
    decreases s.len(),
{
    if s.len() != 0 && s[s.len() - 1] != c {
        lemma_last_index_of(s.drop_last(), c);
        assert(forall|j: int| 0 <= j < s.len() - 1 ==> s.drop_last()[j] == s[j]);
    }
}

/// The file name of a target path: what follows the last separator, once
/// trailing separators are ignored.
pub open spec fn file_name_of(p: Seq<char>) -> Seq<char> {
    let t = strip_trailing_sep(p);
    let i = last_index_of(t, '/');
    if i < 0 {
        t
    } else {
        t.skip(i + 1)
    }
}

/// The parent directory of a target path: what precedes the last
/// separator, once trailing separators are ignored.
pub open spec fn parent_of(p: Seq<char>) -> Seq<char> {
    let t = strip_trailing_sep(p);
    let i = last_index_of(t, '/');
    if i < 0 {
        Seq::empty()
    } else {
        t.take(i)
    }
}

/// A file name without its final extension.  A name without a dot, or
/// whose only dot leads it, is its own stem.
pub open spec fn stem_of(name: Seq<char>) -> Seq<char> {
    let d = last_index_of(name, '.');
    if d <= 0 {
        name
    } else {
        name.take(d)
    }
}

/// The hidden directory that keeps prior versions of the file at `p`:
/// `<parent>/.<stem>`.
pub open spec fn backup_dir_of(p: Seq<char>) -> Seq<char> {
    parent_of(p) + "/."@ + stem_of(file_name_of(p))
}

/// Where the prior version of the file at `p` is snapshotted when the
/// timestamp reads `ts`: `<backup dir>/<file name>.<ts>`.
pub open spec fn snapshot_path_of(p: Seq<char>, ts: Seq<char>) -> Seq<char> {
    backup_dir_of(p) + "/"@ + file_name_of(p) + "."@ + ts
}

/// Strip every trailing separator from `s`.
fn strip_trailing(s: &str) -> (r: String)
    ensures
        r@ == strip_trailing_sep(s@),
{
    let len = s.unicode_len();
    let mut k: usize = len;
    while k > 0 && s.get_char(k - 1) == '/'
        invariant
            k <= len,
            len == s@.len(),
            forall|j: int| k <= j < s@.len() ==> s@[j] == '/',
        decreases k,
    {
        k = k - 1;
    }
    proof {
        lemma_strip_trailing_sep_take(s@, k as int);
    }
    s.substring_char(0, k).to_owned()
}

/// Last occurrence of the character `c` in `s`.
fn rfind_char(s: &str, c: char) -> (r: Option<usize>)
    ensures
        match r {
            Some(i) => last_index_of(s@, c) == i,
            None => last_index_of(s@, c) == -1,
        },
{
    proof {
        lemma_last_index_of(s@, c);
    }
    let len = s.unicode_len();
    let mut k: usize = len;
    while k > 0
        invariant
            k <= len,
            len == s@.len(),
            forall|j: int| k <= j < s@.len() ==> s@[j] != c,
            last_index_of(s@, c) >= 0 ==> {
                let i = last_index_of(s@, c);
                &&& i < s@.len()
                &&& s@[i] == c
                &&& forall|j: int| i < j < s@.len() ==> s@[j] != c
            },
            last_index_of(s@, c) < 0 ==> forall|j: int| 0 <= j < s@.len() ==> s@[j] != c,
        decreases k,
    {
        if s.get_char(k - 1) == c {
            return Some(k - 1);
        }
        k = k - 1;
    }
    None
}

/// The parent directory, file name and stem of a target path.
fn split_path_parts(target: &str) -> (r: (String, String, String))
    ensures
        r.0@ == parent_of(target@),
        r.1@ == file_name_of(target@),
        r.2@ == stem_of(file_name_of(target@)),
{
    let t = strip_trailing(target);
    let tlen = t.as_str().unicode_len();
    proof {
        lemma_last_index_of(t@, '/');
    }
    let parent: String;
    let name: String;
    match rfind_char(t.as_str(), '/') {
        None => {
            parent = String::new();
            name = t;
        },
        Some(i) => {
            parent = t.as_str().substring_char(0, i).to_owned();
            name = t.as_str().substring_char(i + 1, tlen).to_owned();
        },
    }
    proof {
        lemma_last_index_of(name@, '.');
    }
    let stem: String;
    match rfind_char(name.as_str(), '.') {
        None => {
            stem = name.clone();
        },
        Some(d) => {
            if d == 0 {
                stem = name.clone();
            } else {
                stem = name.as_str().substring_char(0, d).to_owned();
            }
        },
    }
    (parent, name, stem)
}

/// The parent directory of `target`.
pub fn parent_dir(target: &str) -> (r: String)
    ensures
        r@ == parent_of(target@),
{
    let parts = split_path_parts(target);
    parts.0
}

/// The backup directory belonging to `target`.
pub fn backup_dir_path(target: &str) -> (r: String)
    ensures
        r@ == backup_dir_of(target@),
{
    let parts = split_path_parts(target);
    let mut out = parts.0;
    out.append("/.");
    out.append(parts.2.as_str());
    out
}

/// The snapshot path for the prior version of `target` at timestamp `ts`.
pub fn snapshot_path(target: &str, ts: &str) -> (r: String)
    ensures
        r@ == snapshot_path_of(target@, ts@),
{
    let parts = split_path_parts(target);
    let mut out = parts.0;
    out.append("/.");
    out.append(parts.2.as_str());
    out.append("/");
    out.append(parts.1.as_str());
    out.append(".");
    out.append(ts);
    proof {
        assert(out@ =~= snapshot_path_of(target@, ts@));
    }
    out
}

} // verus!
