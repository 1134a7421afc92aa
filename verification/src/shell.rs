//! The client at work: the machines that it is connected to, and what their Nodes tell.

use vstd::prelude::*;

use crate::app::{
    lists_host, next_number, App, ArchivedConversation, FollowupPreview, SavedTranscript,
};
use crate::archive::{joined, paged};
use crate::host_table::{
    drop_host, find_host_entry, get_host, hosts_differ, put_host, standing,
};
use crate::hosts::{HostId, HostTransport, SessionKey};
use crate::navigation::{agent_of_session, find_session_agent, find_session_leader, leads_session};
use crate::node::{NodeCommand, NodeUpdate};
use crate::presentations::{gone_offline, presented, synced};
use crate::protocol::{ConversationTail, Snapshot};
use crate::seqs::find;
use crate::sets::{hosts_in, keep_keys_of_host, keys_in, keys_on, leave_host};
use crate::strip::{has_key, lists_key};
use crate::text::{clone_optional, concat2, same_text};
use crate::workspaces::refresh_workspace_choices;

verus! {

/// A machine that the client is connected to. It is fresh once a snapshot came over this
/// connection.
pub struct Runtime {
    pub generation: u64,
    pub transport: HostTransport,
    pub fresh: bool,
    pub workspace_id: Option<String>,
}

/// The client, the machines that it knows and the sessions that have a pane.
pub struct Shell {
    pub app: App,
    /// The machines that are connected.
    pub runtimes: Vec<(HostId, Runtime)>,
    /// The last snapshot of each machine that was ever seen.
    pub snapshots: Vec<(HostId, Snapshot)>,
    /// The number of the last connection to each machine.
    pub generations: Vec<(HostId, u64)>,
    /// The machines that a connection to is being made.
    pub connecting: Vec<HostId>,
    /// The sessions with a pane.
    pub drivers: Vec<SessionKey>,
    /// The sessions whose pane belongs to a connection that ended.
    pub stale: Vec<SessionKey>,
    /// The sessions whose pane could not be started again.
    pub failed: Vec<SessionKey>,
    /// The session whose pane is shown.
    pub active: SessionKey,
    /// What is to be typed into the pane of a session once that is ready.
    pub draft: Option<(SessionKey, String)>,
}

/// The machines with a fresh snapshot.
pub open spec fn fresh_hosts(runtimes: Seq<(HostId, Runtime)>) -> Seq<HostId>
    decreases runtimes.len(),
{
    if runtimes.len() == 0 {
        seq![]
    } else if runtimes.last().1.fresh {
        fresh_hosts(runtimes.drop_last()).push(runtimes.last().0)
    } else {
        fresh_hosts(runtimes.drop_last())
    }
}

fn find_fresh_hosts(runtimes: &Vec<(HostId, Runtime)>) -> (hosts: Vec<HostId>)
    ensures
        hosts@ == fresh_hosts(runtimes@),
{
    let mut hosts: Vec<HostId> = Vec::new();
    let mut at: usize = 0;
    while at < runtimes.len()
        invariant
            at <= runtimes@.len(),
            hosts@ == fresh_hosts(runtimes@.take(at as int)),
        decreases runtimes@.len() - at,
    {
        let ghost now = runtimes@.take(at + 1);
        assert(now.drop_last() =~= runtimes@.take(at as int));
        assert(now.last() == runtimes@[at as int]);
        if runtimes[at].1.fresh {
            hosts.push(runtimes[at].0.clone());
        }
        at = at + 1;
    }
    assert(runtimes@.take(at as int) =~= runtimes@);
    hosts
}

/// The workspace with an id, where the id is not empty.
pub open spec fn some_workspace(id: String) -> Option<String> {
    if id@.len() == 0 {
        None
    } else {
        Some(id)
    }
}

fn find_workspace(id: &String) -> (workspace: Option<String>)
    ensures
        workspace == some_workspace(*id),
{
    proof {
        reveal_strlit("");
        if id@.len() == 0 {
            assert(id@ =~= ""@);
        }
    }
    if same_text(id, "") {
        None
    } else {
        Some(id.clone())
    }
}

impl App {
    /// Whether a machine was asked for and is not shown yet.
    pub open spec fn requests(self, host: Seq<char>) -> bool {
        match self.requested_host {
            Some(requested) => requested@ == host,
            None => false,
        }
    }

    fn is_requested(&self, host_id: &HostId) -> (yes: bool)
        ensures
            yes == self.requests(host_id@),
    {
        match &self.requested_host {
            Some(requested) => *requested == *host_id,
            None => false,
        }
    }

    /// What the tabs of a host show once a snapshot of it came.
    pub open spec fn synced_tabs(self, after: App, host: Seq<char>, snapshot: Snapshot) -> bool {
        &&& presented(after.tab_presentations@) == synced(
            presented(self.tab_presentations@),
            self.tabs@,
            host,
            snapshot,
            !lists_host(self.live_hosts@, host),
        )
        &&& after == (App { tab_presentations: after.tab_presentations, ..self })
    }

    /// What the tabs of a host show once it went away; `gone` says whether it did.
    pub open spec fn went_offline(self, after: App, host: Seq<char>, gone: bool) -> bool {
        if gone {
            &&& presented(after.tab_presentations@) == gone_offline(
                presented(self.tab_presentations@),
                self.tabs@,
                host,
            )
            &&& after == (App { tab_presentations: after.tab_presentations, ..self })
        } else {
            after == self
        }
    }

    /// A machine that was asked for is chosen once it is there.
    pub open spec fn chose_requested(self, host_id: HostId) -> App {
        if self.requests(host_id@) {
            App { requested_host: None, selected_host: host_id, ..self }
        } else {
            self
        }
    }

    /// The workspace of a snapshot is shown. Where there is none, the workspaces are offered.
    pub open spec fn shows_workspace(self, workspace_id: String) -> App {
        if workspace_id@.len() > 0 {
            App { workspace_id: Some(workspace_id), ..self }
        } else {
            App {
                workspace_id: None,
                active_target: None,
                picker: true,
                picker_path_mode: false,
                nav_focused: true,
                ..self
            }
        }
    }

    fn show_workspace(&mut self, workspace_id: String)
        ensures
            *final(self) == old(self).shows_workspace(workspace_id),
    {
        if !same_text(&workspace_id, "") {
            self.workspace_id = Some(workspace_id);
            proof {
                reveal_strlit("");
                if workspace_id@.len() == 0 {
                    assert(workspace_id@ =~= ""@);
                }
            }
            return ;
        }
        proof {
            reveal_strlit("");
        }
        self.workspace_id = None;
        self.active_target = None;
        self.picker = true;
        self.picker_path_mode = false;
        self.nav_focused = true;
    }

    /// A request to open a project was met.
    pub open spec fn opened_project(self, request: Option<u64>) -> App {
        if request is Some && self.pending_open == request {
            App { pending_open: None, error: None, picker: false, nav_focused: false, ..self }
        } else {
            self
        }
    }

    /// Whether the session that is shown stands in a list.
    pub open spec fn shown_in(self, keys: Seq<SessionKey>) -> bool {
        match self.active_target {
            Some(target) => lists_key(keys, target.key@),
            None => false,
        }
    }

    fn is_shown_in(&self, keys: &Vec<SessionKey>) -> (yes: bool)
        ensures
            yes == self.shown_in(keys@),
    {
        match &self.active_target {
            Some(target) => has_key(keys, &target.key),
            None => false,
        }
    }

    /// Whether a snapshot of a host has a leader or an agent with the session that is shown.
    pub open spec fn shown_by(self, host: Seq<char>, snapshot: Snapshot) -> bool {
        match self.active_target {
            Some(target) => {
                let workspace = target.target.workspace_id@;
                let session = target.target.session_id@;
                &&& target.key.host_id@ == host
                &&& (find(snapshot.leaders@, leads_session(workspace, session)) is Some || find(
                    snapshot.agents@,
                    agent_of_session(snapshot.missions@, workspace, session),
                ) is Some)
            },
            None => false,
        }
    }

    fn is_shown_by(&self, host_id: &HostId, snapshot: &Snapshot) -> (yes: bool)
        ensures
            yes == self.shown_by(host_id@, *snapshot),
    {
        match &self.active_target {
            Some(target) => {
                let workspace = &target.target.workspace_id;
                let session = &target.target.session_id;
                target.key.host_id == *host_id && (find_session_leader(
                    snapshot,
                    workspace,
                    session,
                ).is_some() || find_session_agent(snapshot, workspace, session).is_some())
            },
            None => false,
        }
    }

    /// Whether a snapshot of a host brings another workspace than the one that is shown.
    pub open spec fn changes_workspace(self, host: Seq<char>, workspace: Seq<char>) -> bool {
        &&& workspace.len() > 0
        &&& self.workspace() != Some(workspace) || match self.active_target {
            Some(target) => target.key.host_id@ != host,
            None => false,
        }
    }

    fn is_changing_workspace(&self, host_id: &HostId, workspace_id: &str) -> (yes: bool)
        ensures
            yes == self.changes_workspace(host_id@, workspace_id@),
    {
        proof {
            reveal_strlit("");
            if workspace_id@.len() == 0 {
                assert(workspace_id@ =~= ""@);
            }
        }
        let elsewhere: bool = match &self.active_target {
            Some(target) => target.key.host_id != *host_id,
            None => false,
        };
        !same_text(workspace_id, "") && (elsewhere || !self.in_workspace(workspace_id))
    }

    /// Which session is asked for once a snapshot was taken in: the leader, the session that is
    /// shown once more, or none.
    pub open spec fn asked_anew(self, after: App, leader: bool, again: bool) -> bool {
        if leader {
            self.asked_leader(after)
        } else if again {
            after == (App {
                pending_target: self.active_target,
                nav_focused: self.nav_focused && self.active_target is None,
                ..self
            })
        } else {
            after == self
        }
    }

    fn ask_anew(&mut self, leader: bool, again: bool)
        ensures
            old(self).asked_anew(*final(self), leader, again),
    {
        if leader {
            self.select_leader();
            return ;
        }
        if again {
            self.refresh_active_target();
            return ;
        }
    }

    /// What a snapshot of the machine that is chosen does. The leader is asked for where the
    /// workspace is another one, or where the session that is shown lost its connection and is no
    /// longer there. One that lost its connection and is still there is asked for once more, unless
    /// its pane could not be started again.
    pub open spec fn took_snapshot(
        self,
        after: App,
        host_id: HostId,
        workspace_id: String,
        snapshot: Snapshot,
        request: Option<u64>,
        stale: Seq<SessionKey>,
        failed: Seq<SessionKey>,
    ) -> bool {
        let leader = self.changes_workspace(host_id@, workspace_id@) || (self.shown_in(stale)
            && !self.shown_by(host_id@, snapshot));
        let again = self.shown_in(stale) && (workspace_id@.len() == 0 || !self.shown_in(failed));
        exists|mid: App|
            #[trigger] self.shows_workspace(workspace_id).replaced_snapshot(mid, host_id, snapshot)
                && mid.opened_project(request).asked_anew(after, leader, again)
    }

    fn take_snapshot(
        &mut self,
        host_id: &HostId,
        workspace_id: String,
        snapshot: Snapshot,
        request: Option<u64>,
        stale: &Vec<SessionKey>,
        failed: &Vec<SessionKey>,
    )
        ensures
            old(self).took_snapshot(
                *final(self),
                *host_id,
                workspace_id,
                snapshot,
                request,
                stale@,
                failed@,
            ),
    {
        proof {
            reveal_strlit("");
            if workspace_id@.len() == 0 {
                assert(workspace_id@ =~= ""@);
            }
        }
        let lost: bool = self.is_shown_in(stale);
        let leader: bool = self.is_changing_workspace(host_id, &workspace_id) || (lost
            && !self.is_shown_by(host_id, &snapshot));
        let again: bool = lost && (same_text(&workspace_id, "") || !self.is_shown_in(failed));
        self.show_workspace(workspace_id);
        self.replace_snapshot_for_host(host_id, snapshot);
        let ghost mid = *self;
        if let Some(request) = request {
            let _ = self.finish_open(request, None);
        }
        assert(*self == mid.opened_project(request));
        self.ask_anew(leader, again);
    }

    /// What a snapshot of a machine does to the screen: nothing, unless that machine is chosen.
    pub open spec fn took_if_chosen(
        self,
        after: App,
        host_id: HostId,
        workspace_id: String,
        snapshot: Snapshot,
        request: Option<u64>,
        stale: Seq<SessionKey>,
        failed: Seq<SessionKey>,
    ) -> bool {
        if self.selected_host@ == host_id@ {
            self.took_snapshot(after, host_id, workspace_id, snapshot, request, stale, failed)
        } else {
            after == self
        }
    }

    fn take_if_chosen(
        &mut self,
        host_id: &HostId,
        workspace_id: String,
        snapshot: Snapshot,
        request: Option<u64>,
        stale: &Vec<SessionKey>,
        failed: &Vec<SessionKey>,
    )
        requires
            old(self).wf(),
        ensures
            old(self).took_if_chosen(
                *final(self),
                *host_id,
                workspace_id,
                snapshot,
                request,
                stale@,
                failed@,
            ),
            final(self).wf(),
    {
        if self.selected_host == *host_id {
            self.take_snapshot(host_id, workspace_id, snapshot, request, stale, failed);
            return ;
        }
    }

    fn choose_requested(&mut self, host_id: &HostId)
        ensures
            *final(self) == old(self).chose_requested(*host_id),
    {
        if self.is_requested(host_id) {
            self.select_host(host_id.clone());
            return ;
        }
    }

    /// Whether a mission of a machine is followed up.
    pub open spec fn previews_on(self, host: Seq<char>) -> bool {
        match self.fixed_preview {
            Some(preview) => preview.host_id@ == host,
            None => false,
        }
    }

    fn is_previewing_on(&self, host_id: &HostId) -> (yes: bool)
        ensures
            yes == self.previews_on(host_id@),
    {
        match &self.fixed_preview {
            Some(preview) => preview.host_id == *host_id,
            None => false,
        }
    }

    /// Whether an error on a machine is told: the machine was asked for or is shown.
    pub open spec fn tells_of(self, host: Seq<char>) -> bool {
        self.requests(host) || self.selected_host@ == host
    }

    fn is_telling_of(&self, host_id: &HostId) -> (yes: bool)
        ensures
            yes == self.tells_of(host_id@),
    {
        self.is_requested(host_id) || self.selected_host == *host_id
    }

    /// The machine that is asked for once a machine told an error.
    pub open spec fn asked_unless(self, host: Seq<char>) -> Option<HostId> {
        if self.requests(host) {
            None
        } else {
            self.requested_host
        }
    }

    fn find_asked_unless(&self, host_id: &HostId) -> (asked: Option<HostId>)
        ensures
            asked == self.asked_unless(host_id@),
    {
        match &self.requested_host {
            Some(requested) => if *requested == *host_id {
                None
            } else {
                Some(requested.clone())
            },
            None => None,
        }
    }

    /// The project that is still being opened once a machine told an error.
    pub open spec fn opening_unless(self, host: Seq<char>, request: Option<u64>) -> Option<u64> {
        if self.tells_of(host) && request == self.pending_open {
            None
        } else {
            self.pending_open
        }
    }

    fn find_opening_unless(&self, host_id: &HostId, request: Option<u64>) -> (pending: Option<u64>)
        ensures
            pending == self.opening_unless(host_id@, request),
    {
        match (request, self.pending_open) {
            (Some(request), Some(pending)) => if request == pending && self.is_telling_of(host_id) {
                None
            } else {
                Some(pending)
            },
            _ => self.pending_open,
        }
    }

    /// What is told once a machine told an error. That a project was not opened is told where the
    /// user waits for it.
    pub open spec fn telling(
        self,
        host: Seq<char>,
        message: String,
        fatal: bool,
        request: Option<u64>,
    ) -> Option<String> {
        if self.tells_of(host) && (fatal || request is None || request == self.pending_open) {
            Some(message)
        } else {
            self.error
        }
    }

    fn find_telling(
        &self,
        host_id: &HostId,
        message: String,
        fatal: bool,
        request: Option<u64>,
    ) -> (error: Option<String>)
        ensures
            error == self.telling(host_id@, message, fatal, request),
    {
        let due: bool = match (request, self.pending_open) {
            (Some(request), Some(pending)) => fatal || request == pending,
            (Some(_), None) => fatal,
            (None, _) => true,
        };
        if due && self.is_telling_of(host_id) {
            Some(message)
        } else {
            clone_optional(&self.error)
        }
    }

    /// What a machine that tells an error does.
    pub open spec fn failed_on(
        self,
        host: Seq<char>,
        message: String,
        fatal: bool,
        request: Option<u64>,
    ) -> App {
        App {
            requested_host: self.asked_unless(host),
            pending_open: self.opening_unless(host, request),
            error: self.telling(host, message, fatal, request),
            ..self
        }
    }

    fn fail_on(&mut self, host_id: &HostId, message: String, fatal: bool, request: Option<u64>)
        ensures
            *final(self) == old(self).failed_on(host_id@, message, fatal, request),
    {
        let asked = self.find_asked_unless(host_id);
        let pending = self.find_opening_unless(host_id, request);
        let error = self.find_telling(host_id, message, fatal, request);
        self.requested_host = asked;
        self.pending_open = pending;
        self.error = error;
    }
}

impl Shell {
    /// What is told of a machine is kept once, a machine is fresh only where its snapshot is known,
    /// and the client itself is in order.
    pub open spec fn wf(self) -> bool {
        &&& hosts_differ(self.runtimes@)
        &&& hosts_differ(self.snapshots@)
        &&& forall|host: Seq<char>| #[trigger]
            standing(self.runtimes@).contains_key(host) && standing(self.runtimes@)[host].fresh
                ==> standing(self.snapshots@).contains_key(host)
        &&& self.app.wf()
    }

    /// Whether a machine is connected.
    pub open spec fn connected(self, host: Seq<char>) -> bool {
        standing(self.runtimes@).contains_key(host)
    }

    /// Whether a machine is connected.
    pub fn is_connected(&self, host_id: &HostId) -> (yes: bool)
        ensures
            yes == self.connected(host_id@),
    {
        find_host_entry(&self.runtimes, host_id).is_some()
    }

    /// Whether a connection to a machine is the one in use.
    pub open spec fn current(self, host: Seq<char>, generation: u64) -> bool {
        self.connected(host) && standing(self.runtimes@)[host].generation == generation
    }

    /// Whether a connection to a machine is the one in use.
    pub fn is_current(&self, host_id: &HostId, generation: u64) -> (yes: bool)
        ensures
            yes == self.current(host_id@, generation),
    {
        match get_host(&self.runtimes, host_id) {
            Some(runtime) => runtime.generation == generation,
            None => false,
        }
    }

    /// Whether a connection to a machine is the last that was asked for.
    pub open spec fn awaited(self, host: Seq<char>, generation: u64) -> bool {
        standing(self.generations@).contains_key(host) && standing(self.generations@)[host]
            == generation
    }

    fn is_awaited(&self, host_id: &HostId, generation: u64) -> (yes: bool)
        ensures
            yes == self.awaited(host_id@, generation),
    {
        match get_host(&self.generations, host_id) {
            Some(last) => *last == generation,
            None => false,
        }
    }

    /// Offers the workspaces of all machines that were seen.
    pub fn refresh(&mut self)
        requires
            old(self).wf(),
        ensures
            old(self).app.refreshed_choices(
                final(self).app,
                old(self).snapshots@,
                fresh_hosts(old(self).runtimes@),
            ),
            *final(self) == (Shell { app: final(self).app, ..*old(self) }),
            final(self).wf(),
    {
        let live = find_fresh_hosts(&self.runtimes);
        refresh_workspace_choices(&mut self.app, &self.snapshots, live);
    }

    /// What the first command on a new connection is: the project of the machine is opened, or its
    /// snapshot is asked for where it has none.
    pub open spec fn first_command(
        before: App,
        after: App,
        host_id: HostId,
        workspace_root: String,
        command: NodeCommand,
    ) -> bool {
        if workspace_root@.len() == 0 {
            command == (NodeCommand::Snapshot { host_id }) && after == before
        } else {
            let request_id = next_number(before.next_open_request);
            &&& command == (NodeCommand::Open { host_id, request_id, path: workspace_root })
            &&& after == (if before.requests(host_id@) {
                App {
                    next_open_request: request_id,
                    pending_open: Some(request_id),
                    error: None,
                    ..before
                }
            } else {
                App { next_open_request: request_id, ..before }
            })
        }
    }

    fn start_command(app: &mut App, host_id: &HostId, workspace_root: String) -> (command:
        NodeCommand)
        ensures
            Shell::first_command(*old(app), *final(app), *host_id, workspace_root, command),
    {
        proof {
            reveal_strlit("");
            if workspace_root@.len() == 0 {
                assert(workspace_root@ =~= ""@);
            }
        }
        if same_text(&workspace_root, "") {
            return NodeCommand::Snapshot { host_id: host_id.clone() };
        }
        let requested: bool = app.is_requested(host_id);
        let request_id: u64 = app.next_open_request();
        if requested {
            app.begin_open(request_id);
            return NodeCommand::Open {
                host_id: host_id.clone(),
                request_id,
                path: workspace_root,
            };
        }
        NodeCommand::Open { host_id: host_id.clone(), request_id, path: workspace_root }
    }

    /// What a connection to a machine does once it stands. One that is not the last that was asked
    /// for is passed over.
    pub open spec fn made_connection(
        self,
        after: Shell,
        host_id: HostId,
        generation: u64,
        transport: HostTransport,
        workspace_root: String,
        command: Option<NodeCommand>,
    ) -> bool {
        if !self.awaited(host_id@, generation) {
            command is None && after == self
        } else {
            &&& hosts_in(after.connecting@) == hosts_in(self.connecting@).remove(host_id@)
            &&& standing(after.runtimes@) == standing(self.runtimes@).insert(
                host_id@,
                Runtime { generation, transport, fresh: false, workspace_id: None },
            )
            &&& after == (Shell {
                app: after.app,
                connecting: after.connecting,
                runtimes: after.runtimes,
                ..self
            })
            &&& command is Some
            &&& exists|mid: App| #[trigger]
                self.app.refreshed_choices(mid, self.snapshots@, fresh_hosts(after.runtimes@))
                    && Shell::first_command(mid, after.app, host_id, workspace_root, command->0)
        }
    }

    /// Takes a connection to a machine in, and says what is asked of the Node first.
    pub fn make_connection(
        &mut self,
        host_id: &HostId,
        generation: u64,
        transport: HostTransport,
        workspace_root: String,
    ) -> (command: Option<NodeCommand>)
        requires
            old(self).wf(),
        ensures
            old(self).made_connection(
                *final(self),
                *host_id,
                generation,
                transport,
                workspace_root,
                command,
            ),
            final(self).wf(),
    {
        if !self.is_awaited(host_id, generation) {
            return None;
        }
        let runtime = Runtime { generation, transport, fresh: false, workspace_id: None };
        leave_host(&mut self.connecting, host_id);
        put_host(&mut self.runtimes, host_id.clone(), runtime);
        self.refresh();
        let ghost mid = self.app;
        Some(Shell::start_command(&mut self.app, host_id, workspace_root))
    }

    /// What a snapshot that came over the connection in use does. The tabs of its machine show it;
    /// the rest of the screen does where that machine is chosen.
    pub open spec fn saw_snapshot(
        self,
        after: Shell,
        host_id: HostId,
        workspace_id: String,
        snapshot: Snapshot,
        request: Option<u64>,
    ) -> bool {
        &&& standing(after.runtimes@) == standing(self.runtimes@).insert(
            host_id@,
            Runtime {
                fresh: true,
                workspace_id: some_workspace(workspace_id),
                ..standing(self.runtimes@)[host_id@]
            },
        )
        &&& standing(after.snapshots@).contains_key(host_id@)
        &&& snapshot.same(standing(after.snapshots@)[host_id@])
        &&& standing(after.snapshots@).remove(host_id@) == standing(self.snapshots@).remove(
            host_id@,
        )
        &&& after == (Shell {
            app: after.app,
            runtimes: after.runtimes,
            snapshots: after.snapshots,
            ..self
        })
        &&& exists|offered: App, shown: App| #[trigger]
            self.app.refreshed_choices(offered, after.snapshots@, fresh_hosts(after.runtimes@))
                && #[trigger] offered.synced_tabs(shown, host_id@, snapshot)
                && shown.chose_requested(host_id).took_if_chosen(
                after.app,
                host_id,
                workspace_id,
                snapshot,
                request,
                self.stale@,
                self.failed@,
            )
    }

    fn see_snapshot(
        &mut self,
        host_id: &HostId,
        workspace_id: String,
        snapshot: Snapshot,
        request: Option<u64>,
    )
        requires
            old(self).wf(),
            old(self).connected(host_id@),
        ensures
            old(self).saw_snapshot(*final(self), *host_id, workspace_id, snapshot, request),
            final(self).wf(),
    {
        let at: usize = match find_host_entry(&self.runtimes, host_id) {
            Some(at) => at,
            None => return ,
        };
        let runtime = Runtime {
            generation: self.runtimes[at].1.generation,
            transport: self.runtimes[at].1.transport.clone(),
            fresh: true,
            workspace_id: find_workspace(&workspace_id),
        };
        put_host(&mut self.runtimes, host_id.clone(), runtime);
        let ghost known = standing(self.snapshots@);
        let copy = snapshot.clone();
        put_host(&mut self.snapshots, host_id.clone(), copy);
        assert(standing(self.snapshots@).remove(host_id@) =~= known.remove(host_id@));
        self.refresh();
        let ghost offered = self.app;
        self.app.sync_tab_presentations(host_id, &snapshot);
        let ghost shown = self.app;
        assert(offered.synced_tabs(shown, host_id@, snapshot));
        self.app.choose_requested(host_id);
        self.app.take_if_chosen(
            host_id,
            workspace_id,
            snapshot,
            request,
            &self.stale,
            &self.failed,
        );
    }

    /// What an error on a machine does. A fatal one ends the connection: the panes of that machine
    /// are stale from then on. Other machines and their panes stay as they are. An error of a
    /// connection that is no longer in use is passed over.
    pub open spec fn met_error(
        self,
        after: Shell,
        host_id: HostId,
        generation: u64,
        message: String,
        fatal: bool,
        request: Option<u64>,
    ) -> bool {
        if !self.awaited(host_id@, generation) || (self.connected(host_id@) && !self.current(
            host_id@,
            generation,
        )) {
            after == self
        } else {
            &&& hosts_in(after.connecting@) == hosts_in(self.connecting@).remove(host_id@)
            &&& standing(after.runtimes@) == (if fatal {
                standing(self.runtimes@).remove(host_id@)
            } else {
                standing(self.runtimes@)
            })
            &&& keys_in(after.stale@) == (if fatal {
                keys_in(self.stale@).union(keys_in(self.drivers@).intersect(keys_on(host_id@)))
            } else {
                keys_in(self.stale@)
            })
            &&& after == (Shell {
                app: after.app,
                connecting: after.connecting,
                runtimes: after.runtimes,
                stale: after.stale,
                ..self
            })
            &&& exists|marked: App, offered: App| #[trigger]
                self.app.went_offline(marked, host_id@, fatal)
                    && #[trigger] marked.refreshed_choices(
                    offered,
                    self.snapshots@,
                    fresh_hosts(after.runtimes@),
                ) && after.app == offered.failed_on(host_id@, message, fatal, request)
        }
    }

    fn end_connection(&mut self, host_id: &HostId, fatal: bool)
        requires
            old(self).wf(),
        ensures
            old(self).app.went_offline(final(self).app, host_id@, fatal),
            standing(final(self).runtimes@) == (if fatal {
                standing(old(self).runtimes@).remove(host_id@)
            } else {
                standing(old(self).runtimes@)
            }),
            keys_in(final(self).stale@) == (if fatal {
                keys_in(old(self).stale@).union(
                    keys_in(old(self).drivers@).intersect(keys_on(host_id@)),
                )
            } else {
                keys_in(old(self).stale@)
            }),
            *final(self) == (Shell {
                app: final(self).app,
                runtimes: final(self).runtimes,
                stale: final(self).stale,
                ..*old(self)
            }),
            final(self).wf(),
    {
        if fatal {
            drop_host(&mut self.runtimes, host_id);
            keep_keys_of_host(&mut self.stale, &self.drivers, host_id);
            self.app.mark_tabs_offline(host_id);
            return ;
        }
    }

    fn meet_error(
        &mut self,
        host_id: &HostId,
        generation: u64,
        message: String,
        fatal: bool,
        request: Option<u64>,
    )
        requires
            old(self).wf(),
        ensures
            old(self).met_error(*final(self), *host_id, generation, message, fatal, request),
            final(self).wf(),
    {
        if !self.is_awaited(host_id, generation) {
            return ;
        }
        if self.is_connected(host_id) && !self.is_current(host_id, generation) {
            return ;
        }
        leave_host(&mut self.connecting, host_id);
        self.end_connection(host_id, fatal);
        let ghost marked = self.app;
        self.refresh();
        self.app.fail_on(host_id, message, fatal, request);
    }

    /// Whether what a machine tells is of the connection in use, and that machine is shown.
    pub open spec fn heeds(self, host: Seq<char>, generation: u64) -> bool {
        self.current(host, generation) && self.app.selected_host@ == host
    }

    fn is_heeding(&self, host_id: &HostId, generation: u64) -> (yes: bool)
        ensures
            yes == self.heeds(host_id@, generation),
    {
        self.is_current(host_id, generation) && self.app.selected_host == *host_id
    }

    /// What an update of a Node does to the screen where it is heeded.
    pub open spec fn told_by(before: App, after: App, update: NodeUpdate) -> bool {
        match update {
            NodeUpdate::Archives { workspace_id, archives, next_cursor, .. } => {
                if before.workspace() == Some(workspace_id@) {
                    &&& after.archives@ == joined(before.archives@, archives@)
                    &&& after == (App {
                        archives: after.archives,
                        archive_next_cursor: next_cursor,
                        ..before
                    })
                } else {
                    after == before
                }
            },
            NodeUpdate::ArchiveTail { request_id, archive, tail, older, .. } => {
                if before.awaits_page(request_id, archive, older) {
                    &&& after.saved_transcript is Some
                    &&& paged(
                        before.saved_transcript,
                        SavedTranscript {
                            archive,
                            blocks: tail.blocks,
                            prev_cursor: tail.prev_cursor,
                        },
                        older,
                        after.saved_transcript->0,
                    )
                    &&& after == (App {
                        saved_transcript: after.saved_transcript,
                        archive_loading: false,
                        saved_scroll: 0,
                        ..before
                    })
                } else {
                    after == before
                }
            },
            NodeUpdate::ArchiveFailed { request_id, message, .. } => after == (
            if before.active_archive_request == Some(request_id) {
                App { archive_loading: false, error: Some(message), ..before }
            } else {
                before
            }),
            NodeUpdate::ArchiveExported { path, .. } => before.told(
                after,
                "Exported archived session to "@ + path@,
            ),
            NodeUpdate::FollowupObjective { host_id, archive, objective, .. } => after == (
            if before.follows_up(host_id@, archive) {
                App {
                    fixed_preview: Some(
                        FollowupPreview {
                            objective: Some(objective),
                            ..before.fixed_preview->0
                        },
                    ),
                    ..before
                }
            } else {
                before
            }),
            NodeUpdate::FollowupFailed { host_id, message, .. } => after == (
            if before.previews_on(host_id@) {
                App { error: Some(message), ..before }
            } else {
                before
            }),
            _ => after == before,
        }
    }

    /// What an update of a Node does. What comes over a connection that is no longer in use does
    /// nothing at all; what is about the archive does nothing unless its machine is shown.
    #[verifier::opaque]
    pub open spec fn updated(self, after: Shell, update: NodeUpdate) -> bool {
        match update {
            NodeUpdate::Snapshot { host_id, generation, workspace_id, snapshot, open_request } => {
                if self.current(host_id@, generation) {
                    self.saw_snapshot(after, host_id, workspace_id, snapshot, open_request)
                } else {
                    after == self
                }
            },
            NodeUpdate::Error { host_id, generation, message, fatal, open_request } => {
                self.met_error(after, host_id, generation, message, fatal, open_request)
            },
            NodeUpdate::Archives { host_id, generation, .. }
            | NodeUpdate::ArchiveTail { host_id, generation, .. }
            | NodeUpdate::ArchiveFailed { host_id, generation, .. }
            | NodeUpdate::ArchiveExported { host_id, generation, .. } => {
                if self.heeds(host_id@, generation) {
                    Shell::told_by(self.app, after.app, update) && after == (Shell {
                        app: after.app,
                        ..self
                    })
                } else {
                    after == self
                }
            },
            NodeUpdate::FollowupObjective { host_id, generation, .. }
            | NodeUpdate::FollowupFailed { host_id, generation, .. } => {
                if self.current(host_id@, generation) {
                    Shell::told_by(self.app, after.app, update) && after == (Shell {
                        app: after.app,
                        ..self
                    })
                } else {
                    after == self
                }
            },
        }
    }

    fn take_snapshot_in(
        &mut self,
        host_id: HostId,
        generation: u64,
        workspace_id: String,
        snapshot: Snapshot,
        open_request: Option<u64>,
    )
        requires
            old(self).wf(),
        ensures
            old(self).updated(*final(self), (NodeUpdate::Snapshot { host_id, generation, workspace_id, snapshot, open_request })),
            final(self).wf(),
    {
        proof {
            reveal(Shell::updated);
        }
        if self.is_current(&host_id, generation) {
            self.see_snapshot(&host_id, workspace_id, snapshot, open_request);
            return ;
        }
    }

    fn take_error_in(
        &mut self,
        host_id: HostId,
        generation: u64,
        message: String,
        fatal: bool,
        open_request: Option<u64>,
    )
        requires
            old(self).wf(),
        ensures
            old(self).updated(*final(self), (NodeUpdate::Error { host_id, generation, message, fatal, open_request })),
            final(self).wf(),
    {
        proof {
            reveal(Shell::updated);
        }
        self.meet_error(&host_id, generation, message, fatal, open_request);
    }

    fn take_archives_in(
        &mut self,
        host_id: HostId,
        generation: u64,
        workspace_id: String,
        archives: Vec<ArchivedConversation>,
        next_cursor: Option<String>,
    )
        requires
            old(self).wf(),
        ensures
            old(self).updated(*final(self), (NodeUpdate::Archives { host_id, generation, workspace_id, archives, next_cursor })),
            final(self).wf(),
    {
        proof {
            reveal(Shell::updated);
        }
        if self.is_heeding(&host_id, generation) {
            self.app.set_archives(&workspace_id, archives, next_cursor);
            return ;
        }
    }

    fn take_tail_in(
        &mut self,
        host_id: HostId,
        generation: u64,
        request_id: u64,
        archive: ArchivedConversation,
        tail: ConversationTail,
        older: bool,
    )
        requires
            old(self).wf(),
        ensures
            old(self).updated(*final(self), (NodeUpdate::ArchiveTail { host_id, generation, request_id, archive, tail, older })),
            final(self).wf(),
    {
        proof {
            reveal(Shell::updated);
        }
        if self.is_heeding(&host_id, generation) {
            self.app.set_saved_transcript(
                request_id,
                archive,
                tail.blocks,
                tail.prev_cursor,
                older,
            );
            return ;
        }
    }

    fn take_archive_failure_in(
        &mut self,
        host_id: HostId,
        generation: u64,
        request_id: u64,
        message: String,
    )
        requires
            old(self).wf(),
        ensures
            old(self).updated(*final(self), (NodeUpdate::ArchiveFailed { host_id, generation, request_id, message })),
            final(self).wf(),
    {
        proof {
            reveal(Shell::updated);
        }
        if self.is_heeding(&host_id, generation) {
            self.app.archive_failed(request_id, message);
            return ;
        }
    }

    fn take_export_in(
        &mut self,
        host_id: HostId,
        generation: u64,
        path: String,
    )
        requires
            old(self).wf(),
        ensures
            old(self).updated(*final(self), (NodeUpdate::ArchiveExported { host_id, generation, path })),
            final(self).wf(),
    {
        proof {
            reveal(Shell::updated);
        }
        if self.is_heeding(&host_id, generation) {
            let message = concat2("Exported archived session to ", &path);
            self.app.tell(&message);
            return ;
        }
    }

    fn take_objective_in(
        &mut self,
        host_id: HostId,
        generation: u64,
        archive: ArchivedConversation,
        objective: String,
    )
        requires
            old(self).wf(),
        ensures
            old(self).updated(*final(self), (NodeUpdate::FollowupObjective { host_id, generation, archive, objective })),
            final(self).wf(),
    {
        proof {
            reveal(Shell::updated);
        }
        if self.is_current(&host_id, generation) {
            self.app.set_followup_objective(&host_id, &archive, objective);
            return ;
        }
    }

    fn take_followup_failure_in(
        &mut self,
        host_id: HostId,
        generation: u64,
        message: String,
    )
        requires
            old(self).wf(),
        ensures
            old(self).updated(*final(self), (NodeUpdate::FollowupFailed { host_id, generation, message })),
            final(self).wf(),
    {
        proof {
            reveal(Shell::updated);
        }
        if self.is_current(&host_id, generation) && self.app.is_previewing_on(&host_id) {
            self.app.followup_failed(message);
            return ;
        }
    }

    /// Takes an update of a Node in.
    pub fn update(&mut self, update: NodeUpdate)
        requires
            old(self).wf(),
        ensures
            old(self).updated(*final(self), update),
            final(self).wf(),
    {
        match update {
            NodeUpdate::Snapshot { host_id, generation, workspace_id, snapshot, open_request } => {
                self.take_snapshot_in(host_id, generation, workspace_id, snapshot, open_request);
                return ;
            },
            NodeUpdate::Error { host_id, generation, message, fatal, open_request } => {
                self.take_error_in(host_id, generation, message, fatal, open_request);
                return ;
            },
            NodeUpdate::Archives { host_id, generation, workspace_id, archives, next_cursor } => {
                self.take_archives_in(host_id, generation, workspace_id, archives, next_cursor);
                return ;
            },
            NodeUpdate::ArchiveTail { host_id, generation, request_id, archive, tail, older } => {
                self.take_tail_in(host_id, generation, request_id, archive, tail, older);
                return ;
            },
            NodeUpdate::ArchiveFailed { host_id, generation, request_id, message } => {
                self.take_archive_failure_in(host_id, generation, request_id, message);
                return ;
            },
            NodeUpdate::ArchiveExported { host_id, generation, path } => {
                self.take_export_in(host_id, generation, path);
                return ;
            },
            NodeUpdate::FollowupObjective { host_id, generation, archive, objective } => {
                self.take_objective_in(host_id, generation, archive, objective);
                return ;
            },
            NodeUpdate::FollowupFailed { host_id, generation, message } => {
                self.take_followup_failure_in(host_id, generation, message);
                return ;
            },
        }
    }
}

} // verus!
