//! Moving over the spine, and what choosing one of its rows does.

use vstd::prelude::*;
use vstd::string::*;

use crate::app::{
    has_text, lists_text, move_within, moved, next_number, number_after, App, ArchiveRequest,
    ArchivedConversation,
};
use crate::hosts::{key_on, HostId, ScopedTarget, ScopedView};
use crate::picker::last_place;
use crate::protocol::{
    optional_target, Agent, Leader, Mission, Snapshot, Target, TargetView,
};
use crate::seqs::{find, position};
use crate::spine::{
    followed_row, named_row, row_key, row_views, Row, RowKind, RowKindView, RowView,
};
use crate::text::{clone_texts, optional, same_text, texts};

verus! {

/// A target on a host, where it has the ids that a key needs.
pub open spec fn scope(host: Seq<char>, target: Option<TargetView>) -> Option<ScopedView> {
    match target {
        Some(target) => if target.workspace_id.len() > 0 && target.session_id.len() > 0 {
            Some(ScopedView { key: key_on(host, target), target })
        } else {
            None
        },
        None => None,
    }
}

/// What an optional target holds.
pub open spec fn optional_scoped(target: Option<ScopedTarget>) -> Option<ScopedView> {
    match target {
        Some(target) => Some(target@),
        None => None,
    }
}

/// A target on a host, where it has the ids that a key needs.
pub fn scope_target(host: &HostId, target: Option<Target>) -> (scoped: Option<ScopedTarget>)
    ensures
        optional_scoped(scoped) == scope(host@, optional_target(target)),
{
    match target {
        Some(target) => match ScopedTarget::new(host.clone(), target) {
            Ok(scoped) => Some(scoped),
            Err(_) => None,
        },
        None => None,
    }
}

/// Texts other than a given one.
pub open spec fn other_than(text: Seq<char>) -> spec_fn(String) -> bool {
    |item: String| item@ != text
}

fn remove_text(list: &Vec<String>, text: &str) -> (rest: Vec<String>)
    ensures
        rest@ == list@.filter(other_than(text@)),
{
    let ghost wanted = other_than(text@);
    let mut rest: Vec<String> = Vec::new();
    let mut at: usize = 0;
    proof {
        reveal(Seq::filter);
        assert(rest@ =~= list@.take(0).filter(wanted));
    }
    while at < list.len()
        invariant
            at <= list@.len(),
            wanted == other_than(text@),
            rest@ == list@.take(at as int).filter(wanted),
        decreases list@.len() - at,
    {
        let ghost now = list@.take(at + 1);
        assert(now.drop_last() =~= list@.take(at as int));
        assert(now.last() == list@[at as int]);
        proof {
            reveal(Seq::filter);
        }
        if !same_text(&list[at], text) {
            rest.push(list[at].clone());
        }
        at = at + 1;
    }
    assert(list@.take(at as int) =~= list@);
    rest
}

/// A list of texts with one of them put in or taken out.
#[verifier::opaque]
pub open spec fn toggled(before: Seq<String>, after: Seq<String>, text: Seq<char>) -> bool {
    if lists_text(before, text) {
        after == before.filter(other_than(text))
    } else {
        texts(after) == texts(before).push(text)
    }
}

fn toggle_text(list: &Vec<String>, text: &str) -> (changed: Vec<String>)
    ensures
        toggled(list@, changed@, text@),
{
    proof {
        reveal(toggled);
    }
    if has_text(list, text) {
        remove_text(list, text)
    } else {
        let mut changed = clone_texts(list);
        changed.push(text.to_owned());
        assert(texts(changed@) =~= texts(list@).push(text@));
        changed
    }
}

/// A list of texts in which one of them stands, or does not.
pub open spec fn folded(before: Seq<String>, after: Seq<String>, text: Seq<char>, wanted: bool) -> bool {
    if wanted && lists_text(before, text) {
        after == before
    } else if wanted {
        texts(after) == texts(before).push(text)
    } else {
        after == before.filter(other_than(text))
    }
}

fn fold(list: &Vec<String>, text: &str, wanted: bool) -> (changed: Vec<String>)
    ensures
        folded(list@, changed@, text@, wanted),
{
    if !wanted {
        remove_text(list, text)
    } else if has_text(list, text) {
        clone_texts(list)
    } else {
        proof {
            reveal(toggled);
        }
        toggle_text(list, text)
    }
}

/// The archived conversation of an agent.
pub open spec fn of_agent(agent_id: Seq<char>) -> spec_fn(ArchivedConversation) -> bool {
    |archive: ArchivedConversation| archive.agent_id@ == agent_id
}

/// Where the archived conversation of an agent stands in a list.
pub fn find_archive(archives: &Vec<ArchivedConversation>, agent_id: &str) -> (found: Option<usize>)
    ensures
        match found {
            Some(at) => at < archives@.len() && position(archives@, of_agent(agent_id@), 0) == at,
            None => position(archives@, of_agent(agent_id@), 0) == archives@.len(),
        },
{
    let mut at: usize = 0;
    while at < archives.len()
        invariant
            at <= archives@.len(),
            position(archives@, of_agent(agent_id@), at as int) == position(
                archives@,
                of_agent(agent_id@),
                0,
            ),
        decreases archives@.len() - at,
    {
        if same_text(&archives[at].agent_id, agent_id) {
            return Some(at);
        }
        at = at + 1;
    }
    None
}

/// The leader that a session belongs to.
pub open spec fn leads_session(workspace: Seq<char>, session: Seq<char>) -> spec_fn(Leader) -> bool {
    |leader: Leader| leader.workspace_id@ == workspace && leader.session_id@ == session
}

/// Whether a mission with this id belongs to a workspace.
pub open spec fn mission_in(missions: Seq<Mission>, id: Seq<char>, workspace: Seq<char>) -> bool {
    exists|i: int|
        0 <= i < missions.len() && (#[trigger] missions[i]).id@ == id && missions[i].workspace_id@
            == workspace
}

/// The agent that a session of a workspace belongs to.
pub open spec fn agent_of_session(
    missions: Seq<Mission>,
    workspace: Seq<char>,
    session: Seq<char>,
) -> spec_fn(Agent) -> bool {
    |agent: Agent|
        agent.session_id@ == session && mission_in(missions, agent.mission_id@, workspace)
}

fn is_mission_in(missions: &Vec<Mission>, id: &str, workspace: &str) -> (found: bool)
    ensures
        found == mission_in(missions@, id@, workspace@),
{
    let mut at: usize = 0;
    while at < missions.len()
        invariant
            at <= missions@.len(),
            forall|i: int|
                0 <= i < at ==> !((#[trigger] missions@[i]).id@ == id@
                    && missions@[i].workspace_id@ == workspace@),
        decreases missions@.len() - at,
    {
        if same_text(&missions[at].id, id) && same_text(&missions[at].workspace_id, workspace) {
            return true;
        }
        at = at + 1;
    }
    false
}

/// Where the agent of a session stands in a snapshot.
pub fn find_session_agent(snapshot: &Snapshot, workspace: &str, session: &str) -> (found: Option<
    usize,
>)
    ensures
        ({
            let wanted = agent_of_session(snapshot.missions@, workspace@, session@);
            match found {
                Some(at) => at < snapshot.agents@.len() && position(snapshot.agents@, wanted, 0)
                    == at,
                None => position(snapshot.agents@, wanted, 0) == snapshot.agents@.len(),
            }
        }),
{
    let ghost wanted = agent_of_session(snapshot.missions@, workspace@, session@);
    let mut at: usize = 0;
    while at < snapshot.agents.len()
        invariant
            at <= snapshot.agents@.len(),
            wanted == agent_of_session(snapshot.missions@, workspace@, session@),
            position(snapshot.agents@, wanted, at as int) == position(snapshot.agents@, wanted, 0),
        decreases snapshot.agents@.len() - at,
    {
        let agent = &snapshot.agents[at];
        if same_text(&agent.session_id, session) && is_mission_in(
            &snapshot.missions,
            &agent.mission_id,
            workspace,
        ) {
            return Some(at);
        }
        at = at + 1;
    }
    None
}

/// Where the leader of a session stands in a snapshot.
pub fn find_session_leader(snapshot: &Snapshot, workspace: &str, session: &str) -> (found: Option<
    usize,
>)
    ensures
        ({
            let wanted = leads_session(workspace@, session@);
            match found {
                Some(at) => at < snapshot.leaders@.len() && position(snapshot.leaders@, wanted, 0)
                    == at,
                None => position(snapshot.leaders@, wanted, 0) == snapshot.leaders@.len(),
            }
        }),
{
    let ghost wanted = leads_session(workspace@, session@);
    let mut at: usize = 0;
    while at < snapshot.leaders.len()
        invariant
            at <= snapshot.leaders@.len(),
            wanted == leads_session(workspace@, session@),
            position(snapshot.leaders@, wanted, at as int) == position(
                snapshot.leaders@,
                wanted,
                0,
            ),
        decreases snapshot.leaders@.len() - at,
    {
        let leader = &snapshot.leaders[at];
        if same_text(&leader.workspace_id, workspace) && same_text(&leader.session_id, session) {
            return Some(at);
        }
        at = at + 1;
    }
    None
}

/// Who holds, in a new snapshot, the place that a session held in the old one: the leader of the
/// same workspace, or the same agent in the same workspace.
pub open spec fn successor(current: Snapshot, next: Snapshot, active: ScopedView) -> Option<
    ScopedView,
> {
    let workspace = active.target.workspace_id;
    if find(current.leaders@, leads_session(workspace, active.target.session_id)) is Some {
        scope(active.key.host, next.leader_of(workspace))
    } else {
        match find(
            current.agents@,
            agent_of_session(current.missions@, workspace, active.target.session_id),
        ) {
            Some(agent) => match next.agent_of(agent.id@) {
                Some(target) => if target.workspace_id == workspace {
                    scope(active.key.host, Some(target))
                } else {
                    None
                },
                None => None,
            },
            None => None,
        }
    }
}

fn find_successor(current: &Snapshot, next: &Snapshot, active: &ScopedTarget) -> (target: Option<
    ScopedTarget,
>)
    ensures
        optional_scoped(target) == successor(*current, *next, active@),
{
    let workspace = &active.target.workspace_id;
    let session = &active.target.session_id;
    if find_session_leader(current, workspace, session).is_some() {
        return scope_target(&active.key.host_id, next.leader_target(workspace));
    }
    match find_session_agent(current, workspace, session) {
        Some(at) => match next.agent_target(&current.agents[at].id) {
            Some(target) => if same_text(&target.workspace_id, workspace) {
                scope_target(&active.key.host_id, Some(target))
            } else {
                None
            },
            None => None,
        },
        None => None,
    }
}

/// The product of a step and a page, within what a step can be.
pub open spec fn pages(delta: isize, page: usize) -> isize {
    let steps = delta * page;
    if steps > isize::MAX {
        isize::MAX
    } else if steps < isize::MIN {
        isize::MIN
    } else {
        steps as isize
    }
}

fn scale(delta: isize, page: usize) -> (steps: isize)
    ensures
        steps == pages(delta, page),
{
    assert(i128::MIN <= delta * page <= i128::MAX) by (nonlinear_arith)
        requires
            -0x8000_0000_0000_0000 <= delta <= 0x7fff_ffff_ffff_ffff,
            0 <= page <= 0xffff_ffff_ffff_ffff,
    ;
    let steps: i128 = delta as i128 * page as i128;
    if steps > isize::MAX as i128 {
        isize::MAX
    } else if steps < isize::MIN as i128 {
        isize::MIN
    } else {
        steps as isize
    }
}

impl App {
    /// Moves the cursor over the spine.
    pub fn move_cursor(&mut self, delta: isize)
        ensures
            *final(self) == old(self).moved_cursor(delta),
    {
        let length: usize = self.rows_len();
        let last: usize = if length == 0 {
            0
        } else {
            length - 1
        };
        self.cursor = move_within(self.cursor, delta, last);
    }

    /// The cursor moved over the spine.
    pub open spec fn moved_cursor(self, delta: isize) -> App {
        App { cursor: moved(self.cursor, delta, last_place(self.spine().len())), ..self }
    }

    /// The cursor moved by as many rows as can be seen.
    pub open spec fn paged_cursor(self, delta: isize) -> App {
        self.moved_cursor(
            pages(
                delta,
                if self.visible_selectable_rows == 0 {
                    1
                } else {
                    self.visible_selectable_rows
                },
            ),
        )
    }

    /// Moves the cursor by as many rows as can be seen.
    pub fn move_cursor_page(&mut self, delta: isize)
        ensures
            *final(self) == old(self).paged_cursor(delta),
    {
        let page: usize = if self.visible_selectable_rows == 0 {
            1
        } else {
            self.visible_selectable_rows
        };
        self.move_cursor(scale(delta, page));
    }

    /// Moves the cursor to the first row.
    pub fn move_cursor_home(&mut self)
        ensures
            *final(self) == (App { cursor: 0, ..*old(self) }),
    {
        self.cursor = 0;
    }

    /// The cursor on the last row.
    pub open spec fn ended_cursor(self) -> App {
        App { cursor: last_place(self.spine().len()), ..self }
    }

    /// Moves the cursor to the last row.
    pub fn move_cursor_end(&mut self)
        ensures
            *final(self) == old(self).ended_cursor(),
    {
        let length: usize = self.rows_len();
        self.cursor = if length == 0 {
            0
        } else {
            length - 1
        };
    }

    /// The name of the row at the cursor.
    pub open spec fn selected_key(self) -> Option<Seq<char>> {
        if self.cursor < self.spine().len() {
            Some(self.spine()[self.cursor as int].kind.key())
        } else {
            None
        }
    }

    fn selected_row_key(&self) -> (key: Option<String>)
        ensures
            optional(key) == self.selected_key(),
    {
        let rows = self.rows();
        assert(row_views(rows@).len() == rows@.len());
        if self.cursor < rows.len() {
            assert(row_views(rows@)[self.cursor as int] == rows@[self.cursor as int]@);
            Some(row_key(&rows[self.cursor].kind))
        } else {
            None
        }
    }

    /// Puts the cursor on the row with a name, else as near to its place as the rows allow.
    fn follow(&mut self, key: Option<String>)
        ensures
            *final(self) == (App {
                cursor: placed(old(self).spine(), optional(key), old(self).cursor),
                ..*old(self)
            }),
    {
        let rows = self.rows();
        self.cursor = place(&rows, &key, self.cursor);
    }

    /// The next filter, and the cursor on its row as long as that is shown.
    pub open spec fn cycled_filter(self) -> App {
        let next = App { status_filter: self.status_filter.following(), ..self };
        App { cursor: followed_row(self.spine(), next.spine(), self.cursor), ..next }
    }

    /// Goes on to the next filter. The cursor stays on its row as long as that is shown.
    pub fn cycle_status_filter(&mut self)
        ensures
            *final(self) == old(self).cycled_filter(),
    {
        let selected = self.selected_row_key();
        self.status_filter = self.status_filter.next();
        self.follow(selected);
    }

    /// The leader of the workspace that is shown.
    pub open spec fn leader(self) -> Option<ScopedView> {
        match (self.snapshot, self.workspace()) {
            (Some(snapshot), Some(workspace)) => scope(
                self.selected_host@,
                snapshot.leader_of(workspace),
            ),
            _ => None,
        }
    }

    /// The leader of the workspace that is shown.
    pub fn leader_target(&self) -> (target: Option<ScopedTarget>)
        ensures
            optional_scoped(target) == self.leader(),
    {
        match (&self.snapshot, &self.workspace_id) {
            (Some(snapshot), Some(workspace)) => scope_target(
                &self.selected_host,
                snapshot.leader_target(workspace),
            ),
            _ => None,
        }
    }

    /// What asking for the leader of the workspace does.
    pub open spec fn asked_leader(self, after: App) -> bool {
        &&& optional_scoped(after.pending_target) == self.leader()
        &&& after == (App {
            pending_target: after.pending_target,
            nav_focused: self.nav_focused && after.pending_target is None,
            ..self
        })
    }

    /// Asks for the leader of the workspace.
    pub fn select_leader(&mut self)
        ensures
            old(self).asked_leader(*final(self)),
    {
        let target = self.leader_target();
        let focused: bool = self.nav_focused && target.is_none();
        self.pending_target = target;
        self.nav_focused = focused;
    }

    /// Asks for the target that is shown once more.
    pub fn refresh_active_target(&mut self)
        ensures
            *final(self) == (App {
                pending_target: old(self).active_target,
                nav_focused: old(self).nav_focused && old(self).active_target is None,
                ..*old(self)
            }),
    {
        let target: Option<ScopedTarget> = match &self.active_target {
            Some(target) => Some(target.clone()),
            None => None,
        };
        let focused: bool = self.nav_focused && target.is_none();
        self.pending_target = target;
        self.nav_focused = focused;
    }

    /// What the row at the cursor stands for.
    pub open spec fn selected_kind(self) -> Option<RowKindView> {
        if self.cursor < self.spine().len() {
            Some(self.spine()[self.cursor as int].kind)
        } else {
            None
        }
    }

    fn selected_row_kind(&self) -> (kind: Option<RowKind>)
        ensures
            match kind {
                Some(kind) => self.selected_kind() == Some(kind@),
                None => self.selected_kind() is None,
            },
    {
        let mut rows = self.rows();
        assert(row_views(rows@).len() == rows@.len());
        if self.cursor < rows.len() {
            assert(row_views(rows@)[self.cursor as int] == rows@[self.cursor as int]@);
            Some(rows.swap_remove(self.cursor).kind)
        } else {
            None
        }
    }

    /// The lead of a mission on the chosen machine.
    #[verifier::opaque]
    pub open spec fn mission_lead(self, id: Seq<char>) -> Option<ScopedView> {
        match self.snapshot {
            Some(snapshot) => scope(self.selected_host@, snapshot.mission_lead_of(id)),
            None => None,
        }
    }

    fn find_mission_lead(&self, id: &str) -> (lead: Option<ScopedTarget>)
        ensures
            optional_scoped(lead) == self.mission_lead(id@),
    {
        proof {
            reveal(App::mission_lead);
        }
        match &self.snapshot {
            Some(snapshot) => scope_target(&self.selected_host, snapshot.mission_target(id)),
            None => None,
        }
    }

    /// What choosing a mission does.
    pub open spec fn opened_mission(self, after: App, id: Seq<char>) -> bool {
        &&& toggled(self.expanded@, after.expanded@, id)
        &&& optional_scoped(after.pending_target) == self.mission_lead(id)
        &&& after == (App {
            expanded: after.expanded,
            pending_target: after.pending_target,
            nav_focused: self.nav_focused && after.pending_target is None,
            ..self
        })
    }

    /// What choosing an archived conversation does.
    pub open spec fn opened_archive(self, after: App, id: Seq<char>) -> bool {
        match find(self.archives@, of_agent(id)) {
            Some(archive) => {
                let request = next_number(self.next_archive_request);
                after == (App {
                    next_archive_request: request,
                    pending_archive: Some(ArchiveRequest { id: request, archive, cursor: None }),
                    active_archive_request: Some(request),
                    pending_target: None,
                    saved_transcript: None,
                    archive_loading: true,
                    nav_focused: false,
                    ..self
                })
            },
            None => after == self,
        }
    }

    /// What choosing a row does. The leader and an agent are asked for; a mission is folded and its
    /// lead is asked for; the archive is folded and loaded; an archived conversation is asked for
    /// in place of a target.
    pub open spec fn activated(self, after: App, kind: RowKindView) -> bool {
        match kind {
            RowKindView::Leader => {
                &&& optional_scoped(after.pending_target) == self.leader()
                &&& after == (App {
                    pending_target: after.pending_target,
                    nav_focused: false,
                    ..self
                })
            },
            RowKindView::Mission(id) => self.opened_mission(after, id),
            RowKindView::Agent(id) => {
                &&& optional_scoped(after.pending_target) == (match self.snapshot {
                    Some(snapshot) => scope(self.selected_host@, snapshot.agent_of(id)),
                    None => None,
                })
                &&& after == (App {
                    pending_target: after.pending_target,
                    nav_focused: false,
                    ..self
                })
            },
            RowKindView::ArchiveGroup => after == (App {
                archived_expanded: !self.archived_expanded,
                archive_load_requested: self.archive_load_requested || (!self.archived_expanded
                    && self.archives@.len() == 0),
                ..self
            }),
            RowKindView::OlderArchives => after == (App { archive_load_requested: true, ..self }),
            RowKindView::ArchivedAgent(id) => self.opened_archive(after, id),
        }
    }

    fn open_mission(&mut self, id: &str)
        ensures
            old(self).opened_mission(*final(self), id@),
    {
        let expanded = toggle_text(&self.expanded, id);
        let lead = self.find_mission_lead(id);
        let focused: bool = self.nav_focused && lead.is_none();
        self.expanded = expanded;
        self.pending_target = lead;
        self.nav_focused = focused;
    }

    fn open_agent(&mut self, id: &str)
        ensures
            old(self).activated(*final(self), RowKindView::Agent(id@)),
    {
        let target: Option<ScopedTarget> = match &self.snapshot {
            Some(snapshot) => scope_target(&self.selected_host, snapshot.agent_target(id)),
            None => None,
        };
        self.pending_target = target;
        self.nav_focused = false;
    }

    fn open_archive(&mut self, id: &str)
        ensures
            old(self).opened_archive(*final(self), id@),
    {
        let archive = match find_archive(&self.archives, id) {
            Some(at) => self.archives[at].clone(),
            None => return,
        };
        let request: u64 = number_after(self.next_archive_request);
        self.next_archive_request = request;
        self.pending_archive = Some(ArchiveRequest { id: request, archive, cursor: None });
        self.active_archive_request = Some(request);
        self.pending_target = None;
        self.saved_transcript = None;
        self.archive_loading = true;
        self.nav_focused = false;
    }

    fn open_leader(&mut self)
        ensures
            old(self).activated(*final(self), RowKindView::Leader),
    {
        self.select_leader();
        self.nav_focused = false;
    }

    fn toggle_archives(&mut self)
        ensures
            old(self).activated(*final(self), RowKindView::ArchiveGroup),
    {
        let load: bool = self.archive_load_requested || (!self.archived_expanded
            && self.archives.len() == 0);
        self.archived_expanded = !self.archived_expanded;
        self.archive_load_requested = load;
    }

    fn load_older_archives(&mut self)
        ensures
            old(self).activated(*final(self), RowKindView::OlderArchives),
    {
        self.archive_load_requested = true;
    }

    /// What choosing the row at the cursor does.
    pub open spec fn activated_row(self, after: App) -> bool {
        match self.selected_kind() {
            Some(kind) => self.activated(after, kind),
            None => after == self,
        }
    }

    /// Chooses the row at the cursor.
    pub fn activate(&mut self)
        ensures
            old(self).activated_row(*final(self)),
    {
        let kind = match self.selected_row_kind() {
            Some(kind) => kind,
            None => return,
        };
        match kind {
            RowKind::Leader => self.open_leader(),
            RowKind::Mission(id) => self.open_mission(&id),
            RowKind::Agent(id) => self.open_agent(&id),
            RowKind::ArchiveGroup => self.toggle_archives(),
            RowKind::OlderArchives => self.load_older_archives(),
            RowKind::ArchivedAgent(id) => self.open_archive(&id),
        }
    }

    /// What folding the mission at the cursor open or shut does.
    pub open spec fn folded_row(self, after: App, expand: bool) -> bool {
        &&& after == (App { expanded: after.expanded, ..self })
        &&& match self.selected_kind() {
            Some(RowKindView::Mission(id)) => folded(self.expanded@, after.expanded@, id, expand),
            _ => after.expanded == self.expanded,
        }
    }

    /// Folds the mission at the cursor open or shut.
    pub fn expand_selected(&mut self, expand: bool)
        ensures
            old(self).folded_row(*final(self), expand),
    {
        if let Some(RowKind::Mission(id)) = self.selected_row_kind() {
            let expanded = fold(&self.expanded, &id, expand);
            self.expanded = expanded;
        }
    }

    /// Takes the target that was asked for.
    pub fn take_target(&mut self) -> (target: Option<ScopedTarget>)
        ensures
            target == old(self).pending_target,
            *final(self) == (App { pending_target: None, ..*old(self) }),
    {
        self.pending_target.take()
    }

    /// The target that takes the place of the one that is shown, where a new snapshot of its host
    /// gives that place to another session.
    pub open spec fn rebound(self, host: Seq<char>, next: Snapshot) -> Option<ScopedView> {
        match (self.active_target, self.snapshot, self.snapshot_host) {
            (Some(active), Some(current), Some(snapshot_host)) => if active.key.host_id@ == host
                && snapshot_host@ == host {
                match successor(current, next, active@) {
                    Some(target) => if target.key != active.key@ {
                        Some(target)
                    } else {
                        None
                    },
                    None => None,
                }
            } else {
                None
            },
            _ => None,
        }
    }

    /// Asks for the session that took the place of the one that is shown.
    pub fn rebind_active_target(&mut self, host_id: &HostId, next: &Snapshot)
        ensures
            match old(self).rebound(host_id@, *next) {
                Some(target) => optional_scoped(final(self).pending_target) == Some(target)
                    && *final(self) == (App {
                    pending_target: final(self).pending_target,
                    ..*old(self)
                }),
                None => *final(self) == *old(self),
            },
    {
        let replacement: Option<ScopedTarget> = match (
            &self.active_target,
            &self.snapshot,
            &self.snapshot_host,
        ) {
            (Some(active), Some(current), Some(snapshot_host)) => if active.key.host_id == *host_id
                && *snapshot_host == *host_id {
                match find_successor(current, next, active) {
                    Some(target) => if target.key != active.key {
                        Some(target)
                    } else {
                        None
                    },
                    None => None,
                }
            } else {
                None
            },
            _ => None,
        };
        if replacement.is_some() {
            self.pending_target = replacement;
        }
    }

    /// What taking a new snapshot of a host in does: the session that took the place of the one that
    /// is shown is asked for, and the cursor stays on its row as long as that is there.
    pub open spec fn replaced_snapshot(self, after: App, host_id: HostId, snapshot: Snapshot) -> bool {
        &&& match self.rebound(host_id@, snapshot) {
            Some(target) => optional_scoped(after.pending_target) == Some(target),
            None => after.pending_target == self.pending_target,
        }
        &&& after == (App {
            pending_target: after.pending_target,
            snapshot: Some(snapshot),
            snapshot_host: Some(host_id),
            cursor: followed_row(
                self.spine(),
                (App { snapshot: Some(snapshot), ..self }).spine(),
                self.cursor,
            ),
            ..self
        })
    }

    /// Takes a new snapshot of a host in.
    pub fn replace_snapshot_for_host(&mut self, host_id: &HostId, snapshot: Snapshot)
        ensures
            old(self).replaced_snapshot(*final(self), *host_id, snapshot),
    {
        let selected = self.selected_row_key();
        self.rebind_active_target(host_id, &snapshot);
        self.snapshot = Some(snapshot);
        self.snapshot_host = Some(host_id.clone());
        self.follow(selected);
    }

    /// Takes a new snapshot of the chosen machine in.
    pub fn replace_snapshot(&mut self, snapshot: Snapshot)
        ensures
            old(self).replaced_snapshot(*final(self), old(self).selected_host, snapshot),
    {
        let host_id = self.selected_host.clone();
        self.replace_snapshot_for_host(&host_id, snapshot);
    }
}

/// The place of the row with a name, else the place that is nearest to the old one.
pub open spec fn placed(rows: Seq<RowView>, key: Option<Seq<char>>, cursor: usize) -> usize {
    let clamped = if cursor < last_place(rows.len()) {
        cursor
    } else {
        last_place(rows.len())
    };
    match key {
        Some(key) => if position(rows, named_row(key), 0) < rows.len() {
            position(rows, named_row(key), 0) as usize
        } else {
            clamped
        },
        None => clamped,
    }
}

fn place(rows: &Vec<Row>, key: &Option<String>, cursor: usize) -> (place: usize)
    ensures
        place == placed(row_views(rows@), optional(*key), cursor),
{
    assert(row_views(rows@).len() == rows@.len());
    if let Some(key) = key {
        if let Some(at) = find_row(rows, key) {
            return at;
        }
    }
    let last: usize = if rows.len() == 0 {
        0
    } else {
        rows.len() - 1
    };
    if cursor < last {
        cursor
    } else {
        last
    }
}

fn find_row(rows: &Vec<Row>, key: &str) -> (found: Option<usize>)
    ensures
        match found {
            Some(at) => at < rows@.len() && position(row_views(rows@), named_row(key@), 0) == at,
            None => position(row_views(rows@), named_row(key@), 0) >= rows@.len(),
        },
{
    let ghost views = row_views(rows@);
    assert(views.len() == rows@.len());
    let mut at: usize = 0;
    while at < rows.len()
        invariant
            at <= rows@.len() == views.len(),
            views == row_views(rows@),
            position(views, named_row(key@), at as int) == position(views, named_row(key@), 0),
        decreases rows@.len() - at,
    {
        assert(views[at as int] == rows@[at as int]@);
        if same_text(&row_key(&rows[at].kind), key) {
            return Some(at);
        }
        at = at + 1;
    }
    None
}

} // verus!
