//! What a whole walk through the directories of a session comes to: every transcript that can be
//! reached without following a link is copied once, under its path below the root.

use vstd::multiset::Multiset;
use vstd::prelude::*;

use crate::diagnostics::{
    entry_asks, goes_up, transcript_name, CopiedFile, EntryAction, EntryKind, TranscriptWalk,
};
use crate::paths::joined;

verus! {

/// What stands at a place on disk, with all that stands below it.
pub enum Tree {
    Link,
    File,
    Other,
    /// An entry of which nothing can be learned.
    Unknown,
    /// A directory that cannot be read.
    Sealed,
    /// A directory: the names of its entries, in the order in which it lists them, and the entries.
    Directory(Seq<(Seq<char>, Tree)>),
}

impl Tree {
    pub open spec fn kind(self) -> EntryKind {
        match self {
            Tree::Link => EntryKind::Link,
            Tree::File => EntryKind::File,
            Tree::Sealed => EntryKind::Directory,
            Tree::Directory(_) => EntryKind::Directory,
            _ => EntryKind::Other,
        }
    }
}

/// What there is to find: the paths of transcripts, and how much can not be read or must be refused.
#[verifier::ext_equal]
pub struct Find {
    pub transcripts: Multiset<Seq<char>>,
    pub faults: nat,
}

impl Find {
    pub open spec fn nothing() -> Find {
        Find { transcripts: Multiset::empty(), faults: 0 }
    }

    pub open spec fn fault() -> Find {
        Find { transcripts: Multiset::empty(), faults: 1 }
    }

    pub open spec fn transcript(path: Seq<char>) -> Find {
        Find { transcripts: Multiset::singleton(path), faults: 0 }
    }

    pub open spec fn with(self, more: Find) -> Find {
        Find {
            transcripts: self.transcripts.add(more.transcripts),
            faults: self.faults + more.faults,
        }
    }
}

/// What there is to find in a directory that stands at a path below the root.
pub open spec fn found_in(tree: Tree, path: Seq<char>) -> Find
    decreases tree,
{
    match tree {
        Tree::Directory(entries) => found_among(entries, path),
        _ => Find::fault(),
    }
}

/// What there is to find among some entries of a directory.
pub open spec fn found_among(entries: Seq<(Seq<char>, Tree)>, path: Seq<char>) -> Find
    decreases entries,
{
    if entries.len() == 0 {
        Find::nothing()
    } else {
        let below = joined(path, entries[0].0);
        let first = match entries[0].1 {
            Tree::Link => Find::nothing(),
            Tree::Other => Find::nothing(),
            Tree::Unknown => Find::fault(),
            Tree::File => if !transcript_name(entries[0].0) {
                Find::nothing()
            } else if goes_up(below) {
                Find::fault()
            } else {
                Find::transcript(below)
            },
            _ => found_in(entries[0].1, below),
        };
        first.with(found_among(entries.subrange(1, entries.len() as int), path))
    }
}

/// What there is to find in directories that are still to be looked into.
pub open spec fn found_ahead(directories: Seq<(Tree, String)>) -> Find
    decreases directories.len(),
{
    if directories.len() == 0 {
        Find::nothing()
    } else {
        found_ahead(directories.drop_last()).with(
            found_in(directories.last().0, directories.last().1@),
        )
    }
}

/// A walk on its way: the path of the directory that it is in, the entries of it that it has not met
/// yet, and the paths of the transcripts that could not be copied.
pub struct Walking {
    pub walk: TranscriptWalk<Tree>,
    pub path: Seq<char>,
    pub left: Seq<(Seq<char>, Tree)>,
    pub lost: Multiset<Seq<char>>,
}

impl Walking {
    /// Whether a walk is at its start.
    pub open spec fn begins(self, root: Tree) -> bool {
        &&& self.walk.begun(root)
        &&& self.left.len() == 0
        &&& self.lost == Multiset::<Seq<char>>::empty()
    }

    /// Whether a walk has looked into every directory.
    pub open spec fn ends(self) -> bool {
        self.left.len() == 0 && self.walk.directories@.len() == 0
    }

    /// Whether a walk turns to its next directory, and reads it if it can be read.
    pub open spec fn turns(self, after: Walking, mid: TranscriptWalk<Tree>) -> bool {
        let (tree, below) = self.walk.directories@.last();
        &&& self.left.len() == 0
        &&& self.walk.directories@.len() > 0
        &&& self.walk.turned(mid, Some((tree, below)))
        &&& after.path == below@
        &&& after.lost == self.lost
        &&& match tree {
            Tree::Directory(entries) => after.walk == mid && after.left == entries,
            _ => after.walk == mid.failed() && after.left.len() == 0,
        }
    }

    /// Whether a walk meets its next entry, and copies it if it is asked to.
    pub open spec fn meets(
        self,
        after: Walking,
        mid: TranscriptWalk<Tree>,
        action: EntryAction,
        copy: Option<(Tree, String)>,
        outcome: Result<(u64, String), String>,
    ) -> bool {
        let (name, tree) = self.left[0];
        &&& self.left.len() > 0
        &&& after.path == self.path
        &&& after.left == self.left.subrange(1, self.left.len() as int)
        &&& if tree is Unknown {
            after.walk == self.walk.failed() && after.lost == self.lost
        } else {
            &&& entry_asks(action, self.path, name, tree.kind())
            &&& self.walk.met(mid, tree, action, copy)
            &&& match copy {
                None => after.walk == mid && after.lost == self.lost,
                Some((_, below)) => {
                    &&& mid.noted(after.walk, below, outcome)
                    &&& after.lost == if outcome is Ok {
                        self.lost
                    } else {
                        self.lost.insert(below@)
                    }
                },
            }
        }
    }

    /// Whether a walk goes one step on.
    pub open spec fn goes_on(self, after: Walking) -> bool {
        ||| exists|mid: TranscriptWalk<Tree>| self.turns(after, mid)
        ||| exists|
            mid: TranscriptWalk<Tree>,
            action: EntryAction,
            copy: Option<(Tree, String)>,
            outcome: Result<(u64, String), String>,
        | self.meets(after, mid, action, copy, outcome)
    }

    /// What there still is to find.
    pub open spec fn ahead(self) -> Find {
        found_ahead(self.walk.directories@).with(found_among(self.left, self.path))
    }

    /// Whether what was found, and what there still is to find, is all that there is.
    spec fn balanced(self, all: Find) -> bool {
        &&& paths(self.walk.files@).add(self.lost).add(self.ahead().transcripts)
            == all.transcripts
        &&& self.ahead().faults <= all.faults + self.lost.len()
        &&& self.walk.errors == counted((all.faults + self.lost.len() - self.ahead().faults) as nat)
    }
}

/// A walk from its start, step by step.
pub open spec fn is_walk(states: Seq<Walking>, root: Tree) -> bool {
    &&& states.len() > 0
    &&& states[0].begins(root)
    &&& forall|i: int| 0 <= i < states.len() - 1 ==> (#[trigger] states[i]).goes_on(states[i + 1])
}

/// The paths of files that were copied.
pub open spec fn paths(files: Seq<CopiedFile>) -> Multiset<Seq<char>> {
    files.map_values(|file: CopiedFile| file.relative_path@).to_multiset()
}

/// A number, as far as it can be counted.
pub open spec fn counted(number: nat) -> u64 {
    if number > u64::MAX {
        u64::MAX
    } else {
        number as u64
    }
}

/// A walk that has looked into every directory has copied each transcript that stands below the root
/// and can be reached without following a link, once and under its path, but for those whose copying
/// failed, and has copied nothing else. It has counted these, and whatever it could not read or had to
/// refuse.
pub proof fn a_walk_copies_each_transcript_once(states: Seq<Walking>, root: Tree)
    requires
        is_walk(states, root),
        states.last().ends(),
    ensures
        paths(states.last().walk.files@).add(states.last().lost) == found_in(
            root,
            Seq::empty(),
        ).transcripts,
        states.last().walk.errors == counted(
            found_in(root, Seq::empty()).faults + states.last().lost.len(),
        ),
{
    lemma_walk_balanced(states, root);
    let last = states.last();
    assert(last.ahead() =~= Find::nothing());
    assert(paths(last.walk.files@).add(last.lost).add(Multiset::empty()) =~= paths(
        last.walk.files@,
    ).add(last.lost));
}

proof fn lemma_walk_balanced(states: Seq<Walking>, root: Tree)
    requires
        is_walk(states, root),
    ensures
        states.last().balanced(found_in(root, Seq::empty())),
    decreases states.len(),
{
    let all = found_in(root, Seq::empty());
    let last = states.last();
    if states.len() == 1 {
        let directories = last.walk.directories@;
        assert(directories.last().1@ =~= Seq::empty());
        assert(found_ahead(directories.drop_last()) == Find::nothing());
        assert(last.ahead() =~= all);
        assert(last.walk.files@.map_values(|file: CopiedFile| file.relative_path@) =~= Seq::empty());
        broadcast use vstd::seq_lib::group_to_multiset_ensures;

        assert(paths(last.walk.files@).len() == 0);
        assert(paths(last.walk.files@) =~= Multiset::empty());
        assert(paths(last.walk.files@).add(last.lost).add(all.transcripts) =~= all.transcripts);
    } else {
        let before = states.drop_last();
        assert forall|i: int| 0 <= i < before.len() - 1 implies (#[trigger] before[i]).goes_on(
            before[i + 1],
        ) by {
            assert(states[i].goes_on(states[i + 1]));
        }
        lemma_walk_balanced(before, root);
        assert(states[states.len() - 2].goes_on(states[states.len() - 2 + 1]));
        lemma_step_balanced(before.last(), last, all);
    }
}

proof fn lemma_step_balanced(before: Walking, after: Walking, all: Find)
    requires
        before.goes_on(after),
        before.balanced(all),
    ensures
        after.balanced(all),
{
    if exists|mid: TranscriptWalk<Tree>| before.turns(after, mid) {
        let mid = choose|mid: TranscriptWalk<Tree>| before.turns(after, mid);
        lemma_turn_balanced(before, after, mid, all);
    } else {
        let (mid, action, copy, outcome) = choose|
            mid: TranscriptWalk<Tree>,
            action: EntryAction,
            copy: Option<(Tree, String)>,
            outcome: Result<(u64, String), String>,
        | before.meets(after, mid, action, copy, outcome);
        lemma_meeting_balanced(before, after, mid, action, copy, outcome, all);
    }
}

proof fn lemma_turn_balanced(
    before: Walking,
    after: Walking,
    mid: TranscriptWalk<Tree>,
    all: Find,
)
    requires
        before.turns(after, mid),
        before.balanced(all),
    ensures
        after.balanced(all),
{
    let (tree, below) = before.walk.directories@.last();
    let rest = found_ahead(before.walk.directories@.drop_last());
    assert(before.ahead() =~= rest.with(found_in(tree, below@)));
    match tree {
        Tree::Directory(entries) => {
            assert(after.ahead() =~= before.ahead());
        },
        _ => {
            assert(after.ahead() =~= rest);
            assert(before.ahead().transcripts =~= rest.transcripts);
        },
    }
}

proof fn lemma_meeting_balanced(
    before: Walking,
    after: Walking,
    mid: TranscriptWalk<Tree>,
    action: EntryAction,
    copy: Option<(Tree, String)>,
    outcome: Result<(u64, String), String>,
    all: Find,
)
    requires
        before.meets(after, mid, action, copy, outcome),
        before.balanced(all),
    ensures
        after.balanced(all),
{
    let (name, tree) = before.left[0];
    let below = joined(before.path, name);
    let ahead = found_ahead(before.walk.directories@);
    let rest = found_among(after.left, after.path);
    match tree {
        Tree::Unknown => {
            assert(before.ahead().transcripts =~= after.ahead().transcripts);
        },
        Tree::File => {
            if !transcript_name(name) {
                assert(before.ahead() =~= after.ahead());
            } else if goes_up(below) {
                assert(before.ahead().transcripts =~= after.ahead().transcripts);
            } else {
                assert(before.ahead().transcripts =~= after.ahead().transcripts.insert(below));
                if outcome is Ok {
                    let file = after.walk.files@.last();
                    let own = |file: CopiedFile| file.relative_path@;
                    assert(after.walk.files@ == before.walk.files@.push(file));
                    assert(after.walk.files@.map_values(own) =~= before.walk.files@.map_values(
                        own,
                    ).push(below));
                    broadcast use vstd::seq_lib::group_to_multiset_ensures;

                    assert(paths(after.walk.files@) =~= paths(before.walk.files@).insert(below));
                }
                assert(paths(after.walk.files@).add(after.lost).add(after.ahead().transcripts)
                    =~= paths(before.walk.files@).add(before.lost).add(before.ahead().transcripts));
            }
        },
        Tree::Link => {
            assert(before.ahead() =~= after.ahead());
        },
        Tree::Other => {
            assert(before.ahead() =~= after.ahead());
        },
        _ => {
            assert(found_ahead(after.walk.directories@) == ahead.with(found_in(tree, below)));
            assert(before.ahead() =~= after.ahead());
        },
    }
}

} // verus!
