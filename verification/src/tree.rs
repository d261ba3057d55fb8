//! The generic, untyped tree that a configuration document parses into.

use vstd::prelude::*;

verus! {

/// Mathematical model of a parsed configuration value.
///
/// Only strings, arrays and tables are told apart: every other scalar
/// (integer, float, boolean, date) is `Other`, because nothing in the
/// configuration rules reads more of it than "not a string, not an array".
pub enum TreeView {
    Text(Seq<char>),
    List(Seq<TreeView>),
    Table(Seq<(Seq<char>, TreeView)>),
    Other,
}

/// The value stored under `key` in a sequence of table entries: that of the
/// first entry with this key, if there is one.
pub open spec fn entry_for(entries: Seq<(Seq<char>, TreeView)>, key: Seq<char>) -> Option<TreeView>
    decreases entries.len(),
{
    if entries.len() == 0 {
        None
    } else if entries[0].0 == key {
        Some(entries[0].1)
    } else {
        entry_for(entries.drop_first(), key)
    }
}

impl TreeView {
    /// The member of a table under exactly `key`. A value that is not a
    /// table has no members.
    pub open spec fn get(self, key: Seq<char>) -> Option<TreeView> {
        match self {
            TreeView::Table(entries) => entry_for(entries, key),
            _ => None,
        }
    }

    /// The value reached by following `path` key by key through nested
    /// tables; the empty path reaches the value itself.
    pub open spec fn lookup(self, path: Seq<Seq<char>>) -> Option<TreeView>
        decreases path.len(),
    {
        if path.len() == 0 {
            Some(self)
        } else {
            match self.get(path[0]) {
                Some(member) => member.lookup(path.drop_first()),
                None => None,
            }
        }
    }
}

/// `entry_for` finds the first entry with the key, and finds none exactly
/// when no entry has the key.
pub proof fn lemma_entry_for_is_first_match(entries: Seq<(Seq<char>, TreeView)>, key: Seq<char>)
    ensures
        match entry_for(entries, key) {
            Some(value) => exists|i: int|
                0 <= i < entries.len() && #[trigger] entries[i] == (key, value) && forall|j: int|
                    0 <= j < i ==> (#[trigger] entries[j]).0 != key,
            None => forall|i: int| 0 <= i < entries.len() ==> (#[trigger] entries[i]).0 != key,
        },
    decreases entries.len(),
{
    if entries.len() > 0 && entries[0].0 != key {
        let rest = entries.drop_first();
        lemma_entry_for_is_first_match(rest, key);
        assert forall|i: int| 0 <= i < rest.len() implies rest[i] == entries[i + 1] by {}
        match entry_for(rest, key) {
            Some(value) => {
                let i = choose|i: int|
                    0 <= i < rest.len() && #[trigger] rest[i] == (key, value) && forall|j: int|
                        0 <= j < i ==> (#[trigger] rest[j]).0 != key;
                assert(entries[i + 1] == (key, value));
                assert forall|j: int| 0 <= j < i + 1 implies (#[trigger] entries[j]).0 != key by {
                    if j > 0 {
                        assert(rest[j - 1] == entries[j]);
                    }
                }
            },
            None => {
                assert forall|i: int| 0 <= i < entries.len() implies (#[trigger] entries[i]).0
                    != key by {
                    if i > 0 {
                        assert(rest[i - 1] == entries[i]);
                    }
                }
            },
        }
    } else if entries.len() > 0 {
        assert(entries[0] == (key, entries[0].1));
    }
}

/// A parsed configuration value, as executable data.
#[derive(Debug, PartialEq)]
pub enum Tree {
    /// A string.
    Text(String),
    /// An array of values.
    List(Vec<Tree>),
    /// A table: keys with their values. Where a key stands twice, the first
    /// entry is the member.
    Table(Vec<(String, Tree)>),
    /// Any scalar that is not a string.
    Other,
}

/// The model of a tree: strings by their characters, arrays and tables
/// element by element. (The bounds inside the closures are there for the
/// termination check.)
pub open spec fn tree_view(tree: Tree) -> TreeView
    decreases tree,
{
    match tree {
        Tree::Text(s) => TreeView::Text(s@),
        Tree::List(items) => TreeView::List(
            Seq::new(
                items@.len(),
                |i: int|
                    if 0 <= i < items@.len() {
                        tree_view(items@[i])
                    } else {
                        TreeView::Other
                    },
            ),
        ),
        Tree::Table(entries) => TreeView::Table(
            Seq::new(
                entries@.len(),
                |i: int|
                    if 0 <= i < entries@.len() {
                        (entries@[i].0@, tree_view(entries@[i].1))
                    } else {
                        (Seq::empty(), TreeView::Other)
                    },
            ),
        ),
        Tree::Other => TreeView::Other,
    }
}

impl View for Tree {
    type V = TreeView;

    open spec fn view(&self) -> TreeView {
        tree_view(*self)
    }
}

/// The characters of each key of a path.
pub open spec fn key_views(path: Seq<&str>) -> Seq<Seq<char>> {
    path.map_values(|key: &str| key@)
}

impl Tree {
    /// The member of a table under exactly `key`, if `self` is a table that
    /// has one.
    pub fn get(&self, key: &str) -> (member: Option<&Tree>)
        ensures
            match member {
                Some(found) => self@.get(key@) == Some(found@),
                None => self@.get(key@) is None,
            },
    {
        match self {
            Tree::Table(entries) => {
                let wanted = key.to_owned();
                let ghost model = self@->Table_0;
                proof {
                    assert(model.skip(0) =~= model);
                }
                let mut i: usize = 0;
                while i < entries.len()
                    invariant
                        i <= entries.len(),
                        wanted@ == key@,
                        self@ == TreeView::Table(model),
                        model.len() == entries.len(),
                        forall|j: int|
                            0 <= j < entries.len() ==> #[trigger] model[j] == (
                                entries[j].0@,
                                entries[j].1@,
                            ),
                        entry_for(model, key@) == entry_for(model.skip(i as int), key@),
                    decreases entries.len() - i,
                {
                    let entry = &entries[i];
                    proof {
                        let rest = model.skip(i as int);
                        assert(rest[0] == model[i as int]);
                        assert(rest.drop_first() == model.skip(i + 1));
                    }
                    if entry.0 == wanted {
                        return Some(&entry.1);
                    }
                    i += 1;
                }
                None
            },
            _ => None,
        }
    }

    /// The value reached by following `path` key by key through nested
    /// tables, if every key on the way names a member.
    pub fn lookup(&self, path: &[&str]) -> (found: Option<&Tree>)
        ensures
            match found {
                Some(tree) => self@.lookup(key_views(path@)) == Some(tree@),
                None => self@.lookup(key_views(path@)) is None,
            },
    {
        let ghost keys = key_views(path@);
        let mut current = self;
        let mut i: usize = 0;
        proof {
            assert(keys.skip(0) =~= keys);
        }
        while i < path.len()
            invariant
                i <= path.len(),
                keys == key_views(path@),
                self@.lookup(keys) == current@.lookup(keys.skip(i as int)),
            decreases path.len() - i,
        {
            proof {
                let rest = keys.skip(i as int);
                assert(rest[0] == path@[i as int]@);
                assert(rest.drop_first() =~= keys.skip(i + 1));
            }
            match current.get(path[i]) {
                Some(member) => {
                    current = member;
                },
                None => {
                    return None;
                },
            }
            i += 1;
        }
        Some(current)
    }
}

} // verus!
