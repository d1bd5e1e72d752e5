//! The table that tells where unpublished crates live: from a crate's name to
//! the local path that a manifest declared for it.

use vstd::prelude::*;
use crate::text::same_text;

verus! {

/// A path as a manifest declares it: the directory of the declaring crate and
/// the path written in the manifest, which is relative to that directory
/// unless it is absolute.
#[derive(Debug, PartialEq, Eq)]
pub struct LocalPath {
    pub base: String,
    pub declared: String,
}

/// A declared path over character sequences.
pub struct LocalPathView {
    pub base: Seq<char>,
    pub declared: Seq<char>,
}

impl View for LocalPath {
    type V = LocalPathView;

    open spec fn view(&self) -> LocalPathView {
        LocalPathView { base: self.base@, declared: self.declared@ }
    }
}

impl Clone for LocalPath {
    fn clone(&self) -> (copy: LocalPath)
        ensures
            copy@ == self@,
    {
        LocalPath { base: self.base.clone(), declared: self.declared.clone() }
    }
}

impl LocalPath {
    /// The path `declared`, declared by the crate in the directory `base`.
    pub fn new(base: &str, declared: &str) -> (path: LocalPath)
        ensures
            path@ == (LocalPathView { base: base@, declared: declared@ }),
    {
        LocalPath { base: base.to_string(), declared: declared.to_string() }
    }

    /// Whether two declared paths are written alike.
    pub fn same_as(&self, other: &LocalPath) -> (same: bool)
        ensures
            same == (self@ == other@),
    {
        self.base == other.base && self.declared == other.declared
    }
}

/// One line of the table: a crate's name and the path declared for it.
#[derive(Debug, PartialEq, Eq)]
pub struct PathEntry {
    pub name: String,
    pub path: LocalPath,
}

/// A line of the table over character sequences.
pub struct PathEntryView {
    pub name: Seq<char>,
    pub path: LocalPathView,
}

impl View for PathEntry {
    type V = PathEntryView;

    open spec fn view(&self) -> PathEntryView {
        PathEntryView { name: self.name@, path: self.path@ }
    }
}

impl Clone for PathEntry {
    fn clone(&self) -> (copy: PathEntry)
        ensures
            copy@ == self@,
    {
        PathEntry { name: self.name.clone(), path: self.path.clone() }
    }
}

/// The views of a sequence of lines.
pub open spec fn entry_views(entries: Seq<PathEntry>) -> Seq<PathEntryView> {
    entries.map_values(|entry: PathEntry| entry@)
}

/// The table that results from writing `entries` into `table` one after
/// another: a later line for a name replaces an earlier one.
pub open spec fn spec_extend(
    table: Map<Seq<char>, LocalPathView>,
    entries: Seq<PathEntryView>,
) -> Map<Seq<char>, LocalPathView>
    decreases entries.len(),
{
    if entries.len() == 0 {
        table
    } else {
        spec_extend(table, entries.drop_last()).insert(entries.last().name, entries.last().path)
    }
}

/// From crate names to declared paths.
///
/// The table is kept as the list of lines written into it; what it maps a name
/// to is what the last line for that name says.
#[derive(Debug, PartialEq, Eq)]
pub struct PathTable {
    entries: Vec<PathEntry>,
}

impl View for PathTable {
    type V = Map<Seq<char>, LocalPathView>;

    closed spec fn view(&self) -> Map<Seq<char>, LocalPathView> {
        spec_extend(Map::empty(), entry_views(self.entries@))
    }
}

impl Clone for PathTable {
    fn clone(&self) -> (copy: PathTable)
        ensures
            copy@ == self@,
    {
        let mut entries: Vec<PathEntry> = Vec::new();
        for i in 0..self.entries.len()
            invariant
                entries@.len() == i,
                forall|j: int| 0 <= j < i ==> entries@[j]@ == self.entries@[j]@,
        {
            entries.push(self.entries[i].clone());
        }
        assert(entry_views(entries@) =~= entry_views(self.entries@));
        PathTable { entries }
    }
}

impl PathTable {
    /// The table that knows no path.
    pub fn new() -> (table: PathTable)
        ensures
            table@ == Map::<Seq<char>, LocalPathView>::empty(),
    {
        let table = PathTable { entries: Vec::new() };
        assert(entry_views(table.entries@) =~= Seq::<PathEntryView>::empty());
        table
    }

    /// Writes the path of `name` into the table, in place of what the table
    /// held for that name.
    pub fn insert(&mut self, name: &str, path: LocalPath)
        ensures
            final(self)@ == old(self)@.insert(name@, path@),
    {
        let ghost before = entry_views(self.entries@);
        let entry = PathEntry { name: name.to_string(), path };
        self.entries.push(entry);
        proof {
            let after = entry_views(self.entries@);
            assert(after.drop_last() =~= before);
            assert(after.last() == entry@);
        }
    }

    /// The path that the table holds for `name`, if it holds one.
    pub fn get(&self, name: &str) -> (found: Option<LocalPath>)
        ensures
            match found {
                Some(path) => self@.contains_key(name@) && self@[name@] == path@,
                None => !self@.contains_key(name@),
            },
    {
        let ghost all = entry_views(self.entries@);
        let mut i = self.entries.len();
        assert(all.subrange(0, i as int) =~= all);
        while i > 0
            invariant
                i <= self.entries@.len(),
                all == entry_views(self.entries@),
                self@.contains_key(name@) == spec_extend(
                    Map::empty(),
                    all.subrange(0, i as int),
                ).contains_key(name@),
                self@.contains_key(name@) ==> self@[name@] == spec_extend(
                    Map::empty(),
                    all.subrange(0, i as int),
                )[name@],
            decreases i,
        {
            proof {
                let prefix = all.subrange(0, i as int);
                assert(prefix.drop_last() =~= all.subrange(0, i - 1));
                assert(prefix.last() == all[i - 1]);
            }
            i -= 1;
            if same_text(self.entries[i].name.as_str(), name) {
                return Some(self.entries[i].path.clone());
            }
        }
        assert(all.subrange(0, 0) =~= Seq::<PathEntryView>::empty());
        None
    }

    /// Writes every line of `entries` into the table, in order.
    pub fn extend(&mut self, entries: &Vec<PathEntry>)
        ensures
            final(self)@ == spec_extend(old(self)@, entry_views(entries@)),
    {
        let ghost lines = entry_views(entries@);
        assert(lines.subrange(0, 0) =~= Seq::<PathEntryView>::empty());
        for i in 0..entries.len()
            invariant
                lines == entry_views(entries@),
                self@ == spec_extend(old(self)@, lines.subrange(0, i as int)),
        {
            proof {
                let prefix = lines.subrange(0, i + 1);
                assert(prefix.drop_last() =~= lines.subrange(0, i as int));
                assert(prefix.last() == entries@[i as int]@);
            }
            self.insert(entries[i].name.as_str(), entries[i].path.clone());
        }
        assert(lines.subrange(0, entries@.len() as int) =~= lines);
    }
}

} // verus!
