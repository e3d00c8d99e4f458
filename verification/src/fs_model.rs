//! An in-memory model of the directory tree the service writes into.
//!
//! The model abstracts storage to a flat map from paths to entries, each
//! entry a regular file with its bytes or a directory.  The write
//! policies and the retrieval responder are specified and proved against
//! this map; the unverified server mirrors each step onto the real
//! filesystem.  Parent/child relations between paths are deliberately
//! not tracked: the policies never consult them.

use vstd::prelude::*;
use crate::text::str_eq;

verus! {

/// The mathematical view of one directory entry.
pub enum FsEntryV {
    File(Seq<u8>),
    Dir,
}

/// One directory entry: a regular file with its content, or a directory.
#[derive(Debug)]
pub enum FsEntry {
    File(Vec<u8>),
    Dir,
}

impl View for FsEntry {
    type V = FsEntryV;

    open spec fn view(&self) -> FsEntryV {
        match self {
            FsEntry::File(d) => FsEntryV::File(d@),
            FsEntry::Dir => FsEntryV::Dir,
        }
    }
}

/// Whether `fs` holds a regular file at `p`.
pub open spec fn is_file_at(fs: Map<Seq<char>, FsEntryV>, p: Seq<char>) -> bool {
    fs.contains_key(p) && fs[p] is File
}

/// The bytes of the regular file `fs` holds at `p`.
pub open spec fn file_data_at(fs: Map<Seq<char>, FsEntryV>, p: Seq<char>) -> Seq<u8>
    recommends
        is_file_at(fs, p),
{
    fs[p]->File_0
}

/// Whether `fs` holds a directory at `p`.
pub open spec fn is_dir_at(fs: Map<Seq<char>, FsEntryV>, p: Seq<char>) -> bool {
    fs.contains_key(p) && fs[p] is Dir
}

/// The map described by a journal of entry updates, later updates
/// shadowing earlier ones.
pub open spec fn map_of(es: Seq<(String, FsEntry)>) -> Map<Seq<char>, FsEntryV>
    decreases es.len(),
{
    if es.len() == 0 {
        Map::empty()
    } else {
        map_of(es.drop_last()).insert(es.last().0@, es.last().1@)
    }
}

/// Entries past index `i` never mention `k`, so the journal up to `i`
/// already settles what the whole journal says about `k`.
proof fn lemma_map_of_frame(es: Seq<(String, FsEntry)>, k: Seq<char>, i: int)
    requires
        0 <= i <= es.len(),
        forall|j: int| i <= j < es.len() ==> es[j].0@ != k,
    ensures
        map_of(es).contains_key(k) == map_of(es.take(i)).contains_key(k),
        map_of(es).contains_key(k) ==> map_of(es)[k] == map_of(es.take(i))[k],
    decreases es.len(),
{
    if i == es.len() {
        assert(es.take(i) =~= es);
    } else {
        assert(es.last().0@ != k);
        lemma_map_of_frame(es.drop_last(), k, i);
        assert(es.drop_last().take(i) =~= es.take(i));
    }
}

/// The in-memory filesystem: a journal of writes, read through its
/// [`View`] as a map from paths to entries.
#[derive(Debug)]
pub struct FsModel {
    entries: Vec<(String, FsEntry)>,
}

impl View for FsModel {
    type V = Map<Seq<char>, FsEntryV>;

    closed spec fn view(&self) -> Map<Seq<char>, FsEntryV> {
        map_of(self.entries@)
    }
}

impl FsModel {
    /// An empty tree: no file and no directory exists yet.
    pub fn new() -> (r: Self)
        ensures
            r@ == Map::<Seq<char>, FsEntryV>::empty(),
    {
        FsModel { entries: Vec::new() }
    }

    /// Look up the entry at path `p`.
    pub fn get<'a>(&'a self, p: &str) -> (r: Option<&'a FsEntry>)
        ensures
            match r {
                Some(e) => self@.contains_key(p@) && self@[p@] == e@,
                None => !self@.contains_key(p@),
            },
    {
        let n = self.entries.len();
        let mut i: usize = n;
        while i > 0
            invariant
                i <= n,
                n == self.entries@.len(),
                forall|j: int| i <= j < n ==> self.entries@[j].0@ != p@,
            decreases i,
        {
            let pair = &self.entries[i - 1];
            if str_eq(pair.0.as_str(), p) {
                proof {
                    lemma_map_of_frame(self.entries@, p@, i as int);
                    assert(self.entries@.take(i as int).drop_last() =~= self.entries@.take(
                        i - 1,
                    ));
                    assert(self.entries@.take(i as int).last() == self.entries@[i - 1]);
                }
                return Some(&pair.1);
            }
            i = i - 1;
        }
        proof {
            lemma_map_of_frame(self.entries@, p@, 0);
            assert(self.entries@.take(0) =~= Seq::<(String, FsEntry)>::empty());
        }
        None
    }

    /// Truncate-and-write `data` to the file at `p`, creating it if absent.
    pub fn set_file(&mut self, p: &str, data: Vec<u8>)
        ensures
            final(self)@ == old(self)@.insert(p@, FsEntryV::File(data@)),
    {
        let ghost dv = data@;
        self.entries.push((p.to_owned(), FsEntry::File(data)));
        proof {
            assert(self.entries@.drop_last() =~= old(self).entries@);
            assert(self@ =~= old(self)@.insert(p@, FsEntryV::File(dv)));
        }
    }

    /// Record a directory at `p`.
    pub fn set_dir(&mut self, p: &str)
        ensures
            final(self)@ == old(self)@.insert(p@, FsEntryV::Dir),
    {
        self.entries.push((p.to_owned(), FsEntry::Dir));
        proof {
            assert(self.entries@.drop_last() =~= old(self).entries@);
            assert(self@ =~= old(self)@.insert(p@, FsEntryV::Dir));
        }
    }
}

} // verus!
