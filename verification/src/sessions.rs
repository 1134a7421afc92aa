//! Where a pane keeps its history, and how it is started.

use vstd::prelude::*;
use vstd::string::*;

use crate::diagnostics::ClientRootInput;
use crate::geometry::Rect;
use crate::hosts::{KeyView, ScopedTarget, ScopedView};
use crate::paths::{join, joined};
use crate::text::{concat4, same_text};

verus! {

/// The longest first line that the history of a session may have.
pub const MAX_HEADER_BYTES: usize = 65536;

/// The first line of the history of a session.
#[derive(Clone, Debug, PartialEq, Eq)]
pub struct LegacyHeader {
    pub entry_type: String,
    pub id: String,
    pub cwd: String,
}

/// What stands in an old directory of a session.
#[derive(Debug)]
pub enum LegacyEntry {
    /// Something that is no file.
    NotFile,
    /// A file that is no history.
    File,
    /// A history, with its first line where that could be read.
    History(Option<LegacyHeader>),
}

/// An old directory of a session.
#[derive(Debug)]
pub enum LegacyRoot {
    Absent,
    NotDirectory,
    Directory(Vec<LegacyEntry>),
}

/// What is done about the directory of a session.
#[derive(Debug, PartialEq, Eq)]
pub enum RootPlan {
    /// It is there.
    Use,
    /// It is made.
    Create,
    /// The old one takes its place.
    Migrate,
    /// The old one is left alone, and the session is not opened.
    Refuse(String),
}

/// Where the first line of a history ends, if it is not too long.
pub open spec fn header_end(bytes: Seq<u8>, from: int) -> Option<int>
    decreases bytes.len() - from,
{
    if from >= bytes.len() || from > MAX_HEADER_BYTES {
        None
    } else if bytes[from] == 10 {
        Some(from)
    } else {
        header_end(bytes, from + 1)
    }
}

/// Where the first line of a history ends, if it is not too long.
pub fn find_header_end(bytes: &[u8]) -> (end: Option<usize>)
    ensures
        match end {
            Some(end) => end < bytes@.len() && header_end(bytes@, 0) == Some(end as int),
            None => header_end(bytes@, 0) is None,
        },
{
    let mut at: usize = 0;
    while at < bytes.len() && at <= MAX_HEADER_BYTES
        invariant
            at <= bytes@.len(),
            header_end(bytes@, at as int) == header_end(bytes@, 0),
        decreases bytes@.len() - at,
    {
        if bytes[at] == 10 {
            return Some(at);
        }
        at = at + 1;
    }
    None
}

/// Whether the history of an entry belongs to a target.
pub open spec fn header_matches(header: LegacyHeader, target: ScopedView) -> bool {
    header.entry_type@ == "session"@ && header.id@ == target.target.session_id && header.cwd@
        == target.target.cwd
}

/// Whether an entry speaks against taking a directory over.
pub open spec fn entry_fits(entry: LegacyEntry, target: ScopedView) -> bool {
    match entry {
        LegacyEntry::NotFile => false,
        LegacyEntry::File => true,
        LegacyEntry::History(Some(header)) => header_matches(header, target),
        LegacyEntry::History(None) => false,
    }
}

/// Whether an old directory belongs to a target: it holds nothing but files, one of them is a
/// history, and every history is of that session in that directory.
pub open spec fn belongs_to(entries: Seq<LegacyEntry>, target: ScopedView) -> bool {
    &&& forall|i: int| 0 <= i < entries.len() ==> entry_fits(#[trigger] entries[i], target)
    &&& exists|i: int| 0 <= i < entries.len() && (#[trigger] entries[i]) is History
}

fn does_entry_fit(entry: &LegacyEntry, target: &ScopedTarget) -> (yes: bool)
    ensures
        yes == entry_fits(*entry, target@),
{
    match entry {
        LegacyEntry::NotFile => false,
        LegacyEntry::File => true,
        LegacyEntry::History(header) => match header {
            Some(header) => same_text(&header.entry_type, "session") && same_text(
                &header.id,
                &target.target.session_id,
            ) && same_text(&header.cwd, &target.target.cwd),
            None => false,
        },
    }
}

/// Whether an old directory belongs to a target.
pub fn legacy_matches_local_target(entries: &Vec<LegacyEntry>, target: &ScopedTarget) -> (yes: bool)
    ensures
        yes == belongs_to(entries@, target@),
{
    let mut history: bool = false;
    let mut at: usize = 0;
    while at < entries.len()
        invariant
            at <= entries@.len(),
            forall|i: int| 0 <= i < at ==> entry_fits(#[trigger] entries@[i], target@),
            history == exists|i: int| 0 <= i < at && (#[trigger] entries@[i]) is History,
        decreases entries@.len() - at,
    {
        if !does_entry_fit(&entries[at], target) {
            assert(!entry_fits(entries@[at as int], target@));
            return false;
        }
        let found: bool = match &entries[at] {
            LegacyEntry::History(_) => true,
            _ => false,
        };
        if found {
            assert(entries@[at as int] is History);
        }
        history = history || found;
        at = at + 1;
    }
    history
}

/// The directory of a session.
pub open spec fn session_root(parent: Seq<char>, key: KeyView) -> Seq<char> {
    joined(parent, key.cache_component())
}

/// The old directory of a session.
pub open spec fn legacy_root(parent: Seq<char>, key: KeyView) -> Seq<char> {
    joined(parent, key.legacy_cache_component())
}

/// The directory of a session and the old one.
pub fn session_roots(target: &ScopedTarget, parent: &str) -> (roots: (String, String))
    ensures
        roots.0@ == session_root(parent@, target@.key),
        roots.1@ == legacy_root(parent@, target@.key),
{
    (
        join(parent, &target.key.cache_component()),
        join(parent, &target.key.legacy_cache_component()),
    )
}

/// What is told where an old directory is left alone.
pub open spec fn preserved(legacy: Seq<char>, workspace: Seq<char>) -> Seq<char> {
    "preserved legacy Pi session data at "@ + legacy
        + "; no history was deleted; export or migrate it before opening workspace "@ + workspace
}

/// What is told where an old directory is left alone.
pub fn preserved_legacy_error(legacy_root: &str, target: &ScopedTarget) -> (message: String)
    ensures
        message@ == preserved(legacy_root@, target@.target.workspace_id),
{
    concat4(
        "preserved legacy Pi session data at ",
        legacy_root,
        "; no history was deleted; export or migrate it before opening workspace ",
        &target.target.workspace_id,
    )
}

/// Whether the plan leaves an old directory with something in it where it is, and opens nothing.
pub open spec fn refuses(plan: RootPlan, parent: Seq<char>, target: ScopedView) -> bool {
    plan matches RootPlan::Refuse(message) && message@ == preserved(
        legacy_root(parent, target.key),
        target.target.workspace_id,
    )
}

/// Whether a plan is what is done about the directory of a session.
pub open spec fn is_planned(
    plan: RootPlan,
    target: ScopedView,
    parent: Seq<char>,
    remote: bool,
    scoped_exists: bool,
    legacy: LegacyRoot,
) -> bool {
    if scoped_exists {
        plan is Use
    } else {
        match legacy {
            LegacyRoot::Absent => plan is Create,
            LegacyRoot::NotDirectory => refuses(plan, parent, target),
            LegacyRoot::Directory(entries) => if entries@.len() == 0 {
                plan is Create
            } else if !remote && target.key.host == "local"@ && belongs_to(entries@, target) {
                plan is Migrate
            } else {
                refuses(plan, parent, target)
            },
        }
    }
}

/// What is done about the directory of a session. One that is there is used as it is. An old one is
/// taken over only where it certainly belongs to the session, on this machine; where it may belong to
/// another, it is left alone.
pub fn prepare_session_root(
    target: &ScopedTarget,
    parent: &str,
    remote: bool,
    scoped_exists: bool,
    legacy: &LegacyRoot,
) -> (plan: RootPlan)
    ensures
        is_planned(plan, target@, parent@, remote, scoped_exists, *legacy),
{
    if scoped_exists {
        return RootPlan::Use;
    }
    let legacy_path = join(parent, &target.key.legacy_cache_component());
    match legacy {
        LegacyRoot::Absent => RootPlan::Create,
        LegacyRoot::NotDirectory => RootPlan::Refuse(preserved_legacy_error(&legacy_path, target)),
        LegacyRoot::Directory(entries) => if entries.len() == 0 {
            RootPlan::Create
        } else if !remote && same_text(target.key.host_id.as_str(), "local")
            && legacy_matches_local_target(entries, target) {
            RootPlan::Migrate
        } else {
            RootPlan::Refuse(preserved_legacy_error(&legacy_path, target))
        },
    }
}

/// Where a pane is started: in the directory of its target, or, where that is on another machine, in
/// one of this machine.
pub fn pi_working_directory(target: &ScopedTarget, local_pi_directory: &str, remote: bool) -> (
    directory: String)
    ensures
        directory@ == (if remote {
            local_pi_directory@
        } else {
            target@.target.cwd
        }),
{
    if remote {
        local_pi_directory.to_owned()
    } else {
        target.target.cwd.clone()
    }
}

/// Whether the editor of a pane is ready: its marker names the session.
pub fn editor_ready(marker: Option<&str>, expected_session_id: &str) -> (ready: bool)
    ensures
        ready == (match marker {
            Some(session) => session@ == expected_session_id@,
            None => false,
        }),
{
    match marker {
        Some(session) => same_text(session, expected_session_id),
        None => false,
    }
}

/// What diagnostics say of the session of a target.
pub fn client_root_input(target: &ScopedTarget, root: String) -> (input: ClientRootInput)
    ensures
        input.host_id@ == target@.key.host,
        input.workspace_id@ == target@.target.workspace_id,
        input.session_id@ == target@.target.session_id,
        input.provider@ == target@.target.provider,
        input.model@ == target@.target.model,
        input.root == root,
{
    ClientRootInput {
        host_id: target.key.host_id.to_string(),
        workspace_id: target.target.workspace_id.clone(),
        session_id: target.target.session_id.clone(),
        provider: target.target.provider.clone(),
        model: target.target.model.clone(),
        root,
    }
}

/// The size that a pane has to be given, where its area is of another size and not too small.
pub open spec fn new_size(area: Rect, known: Option<(u16, u16)>) -> Option<(u16, u16)> {
    if area.width >= 2 && area.height >= 2 && known != Some((area.width, area.height)) {
        Some((area.width, area.height))
    } else {
        None
    }
}

/// The size that a pane has to be given, where its area is of another size and not too small.
pub fn resize_pane(area: Rect, known: Option<(u16, u16)>) -> (size: Option<(u16, u16)>)
    ensures
        size == new_size(area, known),
{
    let same: bool = match known {
        Some((width, height)) => width == area.width && height == area.height,
        None => false,
    };
    if area.width >= 2 && area.height >= 2 && !same {
        Some((area.width, area.height))
    } else {
        None
    }
}

/// The size that a pane starts with: that of its area, but never less than two by two.
pub open spec fn first_size(area: Rect) -> (u16, u16) {
    (
        if area.width < 2 {
            2
        } else {
            area.width
        },
        if area.height < 2 {
            2
        } else {
            area.height
        },
    )
}

/// The size that a pane starts with: that of its area, but never less than two by two.
pub fn starting_size(area: Rect) -> (size: (u16, u16))
    ensures
        size == first_size(area),
{
    (
        if area.width < 2 {
            2
        } else {
            area.width
        },
        if area.height < 2 {
            2
        } else {
            area.height
        },
    )
}

} // verus!
