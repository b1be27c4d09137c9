//! The map from a folder's path to its mailbox identity.

use vstd::prelude::*;
use crate::models::Folder;

verus! {

/// The map that a folder list stands for: each path leads to the mailbox of
/// the last folder in the list that has that path.
pub open spec fn folder_map_of(folders: Seq<Folder>) -> Map<Seq<char>, u64>
    decreases folders.len(),
{
    if folders.len() == 0 {
        Map::empty()
    } else {
        folder_map_of(folders.drop_last()).insert(folders.last().path@, folders.last().mailbox_hash)
    }
}

/// The paths that occur in a folder list.
pub open spec fn folder_paths(folders: Seq<Folder>) -> Set<Seq<char>> {
    Set::new(|p: Seq<char>| exists|i: int| 0 <= i < folders.len() && #[trigger] folders[i].path@ == p)
}

/// The map of a folder list knows exactly the paths of that list.
pub proof fn lemma_folder_map_dom(folders: Seq<Folder>)
    ensures
        folder_map_of(folders).dom() =~= folder_paths(folders),
    decreases folders.len(),
{
    if folders.len() > 0 {
        let init = folders.drop_last();
        lemma_folder_map_dom(init);
        assert forall|p: Seq<char>| folder_paths(folders).contains(p) implies folder_map_of(
            folders,
        ).dom().contains(p) by {
            let i = choose|i: int| 0 <= i < folders.len() && #[trigger] folders[i].path@ == p;
            if i < folders.len() - 1 {
                assert(init[i].path@ == p);
            }
        }
    }
}

/// Every folder's path leads to the mailbox of some folder with that path,
/// and the last folder with a path decides.
pub proof fn lemma_folder_map_value(folders: Seq<Folder>, i: int)
    requires
        0 <= i < folders.len(),
        forall|j: int| i < j < folders.len() ==> (#[trigger] folders[j]).path@ != folders[i].path@,
    ensures
        folder_map_of(folders).contains_key(folders[i].path@),
        folder_map_of(folders)[folders[i].path@] == folders[i].mailbox_hash,
    decreases folders.len(),
{
    if i < folders.len() - 1 {
        let init = folders.drop_last();
        lemma_folder_map_value(init, i);
    }
}

/// Path-to-mailbox map of one account. It is only ever rebuilt whole.
#[derive(Debug)]
pub struct FolderMap {
    entries: Vec<(String, u64)>,
}

/// The map that a list of entries stands for; a later entry wins.
pub closed spec fn entries_map(entries: Seq<(String, u64)>) -> Map<Seq<char>, u64>
    decreases entries.len(),
{
    if entries.len() == 0 {
        Map::empty()
    } else {
        entries_map(entries.drop_last()).insert(entries.last().0@, entries.last().1)
    }
}

impl View for FolderMap {
    type V = Map<Seq<char>, u64>;

    closed spec fn view(&self) -> Map<Seq<char>, u64> {
        entries_map(self.entries@)
    }
}

impl FolderMap {
    /// The empty map.
    pub fn new() -> (r: Self)
        ensures
            r@ == Map::<Seq<char>, u64>::empty(),
    {
        FolderMap { entries: Vec::new() }
    }

    /// The map of a folder list, built from nothing: no entry of an earlier
    /// list survives.
    pub fn from_folders(folders: &Vec<Folder>) -> (r: Self)
        ensures
            r@ == folder_map_of(folders@),
    {
        let mut entries: Vec<(String, u64)> = Vec::new();
        let mut i: usize = 0;
        while i < folders.len()
            invariant
                i <= folders@.len(),
                entries_map(entries@) == folder_map_of(folders@.take(i as int)),
            decreases folders@.len() - i,
        {
            let ghost before = entries@;
            entries.push((folders[i].path.clone(), folders[i].mailbox_hash));
            proof {
                assert(entries@.drop_last() =~= before);
                assert(folders@.take(i + 1).drop_last() =~= folders@.take(i as int));
            }
            i += 1;
        }
        assert(folders@.take(i as int) =~= folders@);
        FolderMap { entries }
    }

    /// The mailbox that a path leads to, if the map knows the path.
    pub fn get(&self, path: &str) -> (r: Option<u64>)
        ensures
            r == (if self@.contains_key(path@) {
                Some(self@[path@])
            } else {
                None
            }),
    {
        let wanted = path.to_owned();
        let mut i: usize = self.entries.len();
        assert(self.entries@.take(i as int) =~= self.entries@);
        while i > 0
            invariant
                i <= self.entries@.len(),
                wanted@ == path@,
                entries_map(self.entries@).contains_key(path@) == entries_map(
                    self.entries@.take(i as int),
                ).contains_key(path@),
                entries_map(self.entries@).contains_key(path@) ==> entries_map(self.entries@)[path@]
                    == entries_map(self.entries@.take(i as int))[path@],
            decreases i,
        {
            proof {
                assert(self.entries@.take(i as int).drop_last() =~= self.entries@.take(i - 1));
            }
            i -= 1;
            if self.entries[i].0 == wanted {
                return Some(self.entries[i].1);
            }
        }
        None
    }
}

} // verus!
