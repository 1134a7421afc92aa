//! What is asked of a Node, and what its answers and its notifications mean.

use vstd::prelude::*;
use vstd::string::*;

use crate::app::ArchivedConversation;
use crate::hosts::HostId;
use crate::json::{json, member, member_of, text_member, text_member_of, Json};
use crate::protocol::{Agent, ConversationTail, Mission, MissionLead, Snapshot};
use crate::requests::Notification;
use crate::text::{concat2, optional, same_text};

verus! {

/// What a burst of notifications asks for.
#[derive(Debug, PartialEq, Eq)]
pub enum NotificationAction {
    Ignore,
    Refresh,
    Fatal(String),
}

/// What a burst of notifications asks for.
#[verifier::ext_equal]
pub enum NotificationView {
    Ignore,
    Refresh,
    Fatal(Seq<char>),
}

impl View for NotificationAction {
    type V = NotificationView;

    open spec fn view(&self) -> NotificationView {
        match *self {
            NotificationAction::Ignore => NotificationView::Ignore,
            NotificationAction::Refresh => NotificationView::Refresh,
            NotificationAction::Fatal(message) => NotificationView::Fatal(message@),
        }
    }
}

/// Whether a notification says that something changed.
pub open spec fn tells_change(notification: Notification) -> bool {
    notification.method@ == "state"@ || notification.method@ == "event"@
}

/// Whether one of the notifications says that something changed.
pub open spec fn any_change(burst: Seq<Notification>) -> bool {
    exists|i: int| 0 <= i < burst.len() && tells_change(#[trigger] burst[i])
}

/// What a notification says of the life of the Node.
pub open spec fn node_phase(notification: Notification) -> Option<Seq<char>> {
    if notification.method@ == "node"@ {
        Some(
            match text_member_of(json(notification.params), "phase"@) {
                Some(phase) => phase,
                None => "changed state"@,
            },
        )
    } else {
        None
    }
}

/// The last that the notifications say of the life of the Node.
pub open spec fn last_phase(burst: Seq<Notification>) -> Option<Seq<char>>
    decreases burst.len(),
{
    if burst.len() == 0 {
        None
    } else if node_phase(burst.last()) is Some {
        node_phase(burst.last())
    } else {
        last_phase(burst.drop_last())
    }
}

/// What a burst of notifications asks for: news of the life of the Node go before everything else,
/// and any number of changes are one reason to look.
pub open spec fn asked_by(burst: Seq<Notification>) -> NotificationView {
    match last_phase(burst) {
        Some(phase) => NotificationView::Fatal("Neta Node "@ + phase),
        None => if any_change(burst) {
            NotificationView::Refresh
        } else {
            NotificationView::Ignore
        },
    }
}

/// However many notifications of changes a burst holds, and wherever the others stand in it, it asks
/// for one look; and where the Node tells of its own end, for none.
pub proof fn a_burst_is_one_action(burst: Seq<Notification>)
    ensures
        asked_by(burst) is Fatal <==> exists|i: int|
            0 <= i < burst.len() && node_phase(#[trigger] burst[i]) is Some,
        asked_by(burst) is Refresh <==> any_change(burst) && asked_by(burst) !is Fatal,
    decreases burst.len(),
{
    if burst.len() > 0 {
        let rest = burst.drop_last();
        a_burst_is_one_action(rest);
        if node_phase(burst.last()) is Some {
            assert(node_phase(burst[burst.len() - 1]) is Some);
        } else if last_phase(rest) is Some {
            assert(asked_by(rest) is Fatal);
            let i = choose|i: int| 0 <= i < rest.len() && node_phase(#[trigger] rest[i]) is Some;
            assert(node_phase(burst[i]) is Some);
        } else {
            assert(asked_by(rest) !is Fatal);
            assert forall|i: int| 0 <= i < burst.len() implies node_phase(#[trigger] burst[i]) is None by {
                if i < rest.len() {
                    assert(rest[i] == burst[i]);
                }
            }
        }
    }
}

fn find_phase(notification: &Notification) -> (phase: Option<String>)
    ensures
        optional(phase) == node_phase(*notification),
{
    if !same_text(&notification.method, "node") {
        return None;
    }
    match text_member(&notification.params, "phase") {
        Some(phase) => Some(phase.to_owned()),
        None => Some("changed state".to_owned()),
    }
}

/// What a notification and those that wait behind it ask for.
pub fn notification_action(burst: &Vec<Notification>) -> (action: NotificationAction)
    ensures
        action@ == asked_by(burst@),
{
    let mut refresh: bool = false;
    let mut fatal: Option<String> = None;
    let mut at: usize = 0;
    while at < burst.len()
        invariant
            at <= burst@.len(),
            refresh == any_change(burst@.take(at as int)),
            optional(fatal) == last_phase(burst@.take(at as int)),
        decreases burst@.len() - at,
    {
        let ghost before = burst@.take(at as int);
        let ghost now = burst@.take(at + 1);
        assert(now.drop_last() =~= before);
        assert(now.last() == burst@[at as int]);
        let change: bool = same_text(&burst[at].method, "state") || same_text(
            &burst[at].method,
            "event",
        );
        proof {
            if refresh {
                let i = choose|i: int| 0 <= i < before.len() && tells_change(#[trigger] before[i]);
                assert(tells_change(now[i]));
            } else if change {
                assert(tells_change(now[at as int]));
            } else {
                assert forall|i: int| 0 <= i < now.len() implies !tells_change(
                    #[trigger] now[i],
                ) by {
                    if i < at {
                        assert(before[i] == now[i]);
                    }
                }
            }
        }
        refresh = refresh || change;
        if let Some(phase) = find_phase(&burst[at]) {
            fatal = Some(phase);
        }
        at = at + 1;
    }
    assert(burst@.take(at as int) =~= burst@);
    match fatal {
        Some(phase) => NotificationAction::Fatal(concat2("Neta Node ", &phase)),
        None => if refresh {
            NotificationAction::Refresh
        } else {
            NotificationAction::Ignore
        },
    }
}

/// What is asked of a Node.
#[derive(Debug)]
pub enum NodeCommand {
    Snapshot { host_id: HostId },
    Open { host_id: HostId, request_id: u64, path: String },
    LoadArchives {
        host_id: HostId,
        workspace_id: String,
        cursor: Option<String>,
        leader: Option<(String, String)>,
    },
    LoadArchiveTail {
        host_id: HostId,
        request_id: u64,
        archive: ArchivedConversation,
        cursor: Option<String>,
    },
    ExportArchive { host_id: HostId, archive: ArchivedConversation, path: String },
    FollowupObjective { host_id: HostId, archive: ArchivedConversation },
}

impl NodeCommand {
    /// The machine that a command is for.
    pub open spec fn host(self) -> HostId {
        match self {
            NodeCommand::Snapshot { host_id } => host_id,
            NodeCommand::Open { host_id, .. } => host_id,
            NodeCommand::LoadArchives { host_id, .. } => host_id,
            NodeCommand::LoadArchiveTail { host_id, .. } => host_id,
            NodeCommand::ExportArchive { host_id, .. } => host_id,
            NodeCommand::FollowupObjective { host_id, .. } => host_id,
        }
    }

    /// The machine that a command is for.
    pub fn host_id(&self) -> (host: &HostId)
        ensures
            *host == self.host(),
    {
        match self {
            NodeCommand::Snapshot { host_id } => host_id,
            NodeCommand::Open { host_id, .. } => host_id,
            NodeCommand::LoadArchives { host_id, .. } => host_id,
            NodeCommand::LoadArchiveTail { host_id, .. } => host_id,
            NodeCommand::ExportArchive { host_id, .. } => host_id,
            NodeCommand::FollowupObjective { host_id, .. } => host_id,
        }
    }
}

/// What comes of what was asked of a Node.
#[derive(Debug)]
pub enum NodeUpdate {
    Snapshot {
        host_id: HostId,
        generation: u64,
        workspace_id: String,
        snapshot: Snapshot,
        open_request: Option<u64>,
    },
    Error {
        host_id: HostId,
        generation: u64,
        message: String,
        fatal: bool,
        open_request: Option<u64>,
    },
    Archives {
        host_id: HostId,
        generation: u64,
        workspace_id: String,
        archives: Vec<ArchivedConversation>,
        next_cursor: Option<String>,
    },
    ArchiveTail {
        host_id: HostId,
        generation: u64,
        request_id: u64,
        archive: ArchivedConversation,
        tail: ConversationTail,
        older: bool,
    },
    ArchiveFailed { host_id: HostId, generation: u64, request_id: u64, message: String },
    ArchiveExported { host_id: HostId, generation: u64, path: String },
    FollowupObjective {
        host_id: HostId,
        generation: u64,
        archive: ArchivedConversation,
        objective: String,
    },
    FollowupFailed { host_id: HostId, generation: u64, message: String },
}

/// The workspace that is shown of a machine of which none was asked for: the first.
pub open spec fn first_workspace(snapshot: Snapshot) -> Option<Seq<char>> {
    if snapshot.workspaces@.len() > 0 && snapshot.workspaces@[0].id@.len() > 0 {
        Some(snapshot.workspaces@[0].id@)
    } else {
        None
    }
}

/// What an optional workspace is written as.
pub open spec fn workspace_or_none(workspace: Option<Seq<char>>) -> Seq<char> {
    match workspace {
        Some(id) => id,
        None => seq![],
    }
}

/// The objective of a mission in the answer of a Node.
pub open spec fn objective_in(response: Json) -> Option<Seq<char>> {
    match member_of(response, "mission"@) {
        Some(mission) => text_member_of(mission, "objective"@),
        None => None,
    }
}

fn find_objective(response: &serde_json::Value) -> (objective: Option<String>)
    ensures
        optional(objective) == objective_in(json(*response)),
{
    match member(response, "mission") {
        Some(mission) => match text_member(mission, "objective") {
            Some(objective) => Some(objective.to_owned()),
            None => None,
        },
        None => None,
    }
}

/// What a Node answers once it opened a workspace.
#[derive(Debug)]
pub struct WorkspaceOpenResult {
    pub workspace: OpenedWorkspace,
}

/// A workspace that a Node opened.
#[derive(Debug)]
pub struct OpenedWorkspace {
    pub id: String,
}

/// What a Node answered to a command, or why it did not.
pub enum NodeAnswer {
    Snapshot(Result<Snapshot, String>),
    /// The workspace that was opened, and the snapshot that followed.
    Opened(Result<(String, Snapshot), String>),
    /// A page of the archive, and where the next one starts.
    Archives(Result<(Vec<ArchivedConversation>, Option<String>), String>),
    Tail(Result<ConversationTail, String>),
    Exported(Result<(), String>),
    Objective(Result<serde_json::Value, String>),
}

/// What can happen in the work with a Node.
pub enum NodeEvent {
    /// A command was carried out.
    Answered { command: NodeCommand, answer: NodeAnswer },
    /// A workspace was opened, and its snapshot is still to come.
    Opened(WorkspaceOpenResult),
    /// A mission of the archive could not be read; the others are still to come.
    MissionFailed(String),
    /// The snapshot came that notifications asked for.
    Refreshed { workspace_id: String, result: Result<Snapshot, String> },
    /// The Node ends, or the connection to it did.
    Ended(Option<String>),
}

/// What is known of the work with one Node: which machine and which connection to it, the workspace
/// that was opened there last, and whether the work has ended.
pub struct NodeActor {
    pub host_id: HostId,
    pub generation: u64,
    pub workspace_id: Option<String>,
    pub ended: bool,
}

impl NodeActor {
    /// Starts to work with a Node.
    pub fn new(host_id: HostId, generation: u64) -> (actor: NodeActor)
        ensures
            actor == (NodeActor { host_id, generation, workspace_id: None, ended: false }),
    {
        NodeActor { host_id, generation, workspace_id: None, ended: false }
    }

    /// Whether a command is for this Node, and the work with it goes on. Any other is passed over.
    pub fn accepts(&self, command: &NodeCommand) -> (yes: bool)
        ensures
            yes == (!self.ended && command.host()@ == self.host_id@),
    {
        !self.ended && *command.host_id() == self.host_id
    }

    /// An error that the work goes on after.
    pub open spec fn failure(
        self,
        update: NodeUpdate,
        message: Seq<char>,
        open_request: Option<u64>,
    ) -> bool {
        update matches NodeUpdate::Error {
            host_id,
            generation,
            message: told,
            fatal,
            open_request: request,
        } && host_id == self.host_id && generation == self.generation && told@ == message && !fatal
            && request == open_request
    }

    /// A snapshot of the Node, and the workspace to show of it.
    pub open spec fn seen(
        self,
        update: NodeUpdate,
        workspace: Seq<char>,
        snapshot: Snapshot,
        open_request: Option<u64>,
    ) -> bool {
        update matches NodeUpdate::Snapshot {
            host_id,
            generation,
            workspace_id,
            snapshot: shown,
            open_request: request,
        } && host_id == self.host_id && generation == self.generation && workspace_id@ == workspace
            && shown == snapshot && request == open_request
    }

    fn fail(&self, message: String, open_request: Option<u64>) -> (update: NodeUpdate)
        ensures
            self.failure(update, message@, open_request),
    {
        NodeUpdate::Error {
            host_id: self.host_id.clone(),
            generation: self.generation,
            message,
            fatal: false,
            open_request,
        }
    }

    /// A snapshot came that no workspace was named for: its first workspace is shown.
    pub fn snapshot_loaded(&mut self, result: Result<Snapshot, String>) -> (update: NodeUpdate)
        ensures
            match result {
                Ok(snapshot) => {
                    &&& optional(final(self).workspace_id) == first_workspace(snapshot)
                    &&& *final(self) == (NodeActor {
                        workspace_id: final(self).workspace_id,
                        ..*old(self)
                    })
                    &&& old(self).seen(
                        update,
                        workspace_or_none(first_workspace(snapshot)),
                        snapshot,
                        None,
                    )
                },
                Err(message) => *final(self) == *old(self) && old(self).failure(
                    update,
                    message@,
                    None,
                ),
            },
    {
        let snapshot = match result {
            Ok(snapshot) => snapshot,
            Err(message) => return self.fail(message, None),
        };
        let mut workspace_id = String::new();
        assert(workspace_id@ =~= seq![]);
        let mut known: Option<String> = None;
        if snapshot.workspaces.len() > 0 {
            workspace_id = snapshot.workspaces[0].id.clone();
            if workspace_id.as_str().unicode_len() > 0 {
                known = Some(workspace_id.clone());
            } else {
                assert(workspace_id@ =~= seq![]);
            }
        }
        self.workspace_id = known;
        NodeUpdate::Snapshot {
            host_id: self.host_id.clone(),
            generation: self.generation,
            workspace_id,
            snapshot,
            open_request: None,
        }
    }

    /// A workspace was opened: from now on it is the one that is looked at.
    pub fn opened(&mut self, result: &WorkspaceOpenResult)
        ensures
            optional(final(self).workspace_id) == Some(result.workspace.id@),
            *final(self) == (NodeActor { workspace_id: final(self).workspace_id, ..*old(self) }),
    {
        self.workspace_id = Some(result.workspace.id.clone());
    }

    /// The snapshot came that follows the opening of a workspace, or the opening failed.
    pub fn open_finished(
        &self,
        request_id: u64,
        result: Result<(String, Snapshot), String>,
    ) -> (update: NodeUpdate)
        ensures
            match result {
                Ok((workspace_id, snapshot)) => self.seen(
                    update,
                    workspace_id@,
                    snapshot,
                    Some(request_id),
                ),
                Err(message) => self.failure(update, message@, Some(request_id)),
            },
    {
        match result {
            Ok((workspace_id, snapshot)) => NodeUpdate::Snapshot {
                host_id: self.host_id.clone(),
                generation: self.generation,
                workspace_id,
                snapshot,
                open_request: Some(request_id),
            },
            Err(message) => self.fail(message, Some(request_id)),
        }
    }

    /// The snapshot came that notifications asked for. Without a workspace there is nothing to look
    /// at, and none is asked for.
    pub fn refreshed(&self, workspace_id: &str, result: Result<Snapshot, String>) -> (update:
        NodeUpdate)
        ensures
            match result {
                Ok(snapshot) => self.seen(update, workspace_id@, snapshot, None),
                Err(message) => self.failure(update, message@, None),
            },
    {
        match result {
            Ok(snapshot) => NodeUpdate::Snapshot {
                host_id: self.host_id.clone(),
                generation: self.generation,
                workspace_id: workspace_id.to_owned(),
                snapshot,
                open_request: None,
            },
            Err(message) => self.fail(message, None),
        }
    }

    /// A mission of the archive could not be read, or the archive could not.
    pub fn archives_failed(&self, message: String) -> (update: NodeUpdate)
        ensures
            self.failure(update, message@, None),
    {
        self.fail(message, None)
    }

    /// A page of the archive was read.
    pub fn archives_loaded(
        &self,
        workspace_id: String,
        archives: Vec<ArchivedConversation>,
        next_cursor: Option<String>,
    ) -> (update: NodeUpdate)
        ensures
            update == (NodeUpdate::Archives {
                host_id: self.host_id,
                generation: self.generation,
                workspace_id,
                archives,
                next_cursor,
            }),
    {
        NodeUpdate::Archives {
            host_id: self.host_id.clone(),
            generation: self.generation,
            workspace_id,
            archives,
            next_cursor,
        }
    }

    /// A page of a saved conversation was read, or could not be.
    pub fn tail_loaded(
        &self,
        request_id: u64,
        archive: ArchivedConversation,
        cursor: &Option<String>,
        result: Result<ConversationTail, String>,
    ) -> (update: NodeUpdate)
        ensures
            update == (match result {
                Ok(tail) => NodeUpdate::ArchiveTail {
                    host_id: self.host_id,
                    generation: self.generation,
                    request_id,
                    archive,
                    tail,
                    older: *cursor is Some,
                },
                Err(message) => NodeUpdate::ArchiveFailed {
                    host_id: self.host_id,
                    generation: self.generation,
                    request_id,
                    message,
                },
            }),
    {
        match result {
            Ok(tail) => NodeUpdate::ArchiveTail {
                host_id: self.host_id.clone(),
                generation: self.generation,
                request_id,
                archive,
                tail,
                older: cursor.is_some(),
            },
            Err(message) => NodeUpdate::ArchiveFailed {
                host_id: self.host_id.clone(),
                generation: self.generation,
                request_id,
                message,
            },
        }
    }

    /// A saved conversation was exported, or could not be.
    pub fn archive_exported(&self, path: String, result: Result<(), String>) -> (update: NodeUpdate)
        ensures
            match result {
                Ok(_) => update == (NodeUpdate::ArchiveExported {
                    host_id: self.host_id,
                    generation: self.generation,
                    path,
                }),
                Err(error) => self.failure(update, "archive export failed: "@ + error@, None),
            },
    {
        match result {
            Ok(_) => NodeUpdate::ArchiveExported {
                host_id: self.host_id.clone(),
                generation: self.generation,
                path,
            },
            Err(error) => self.fail(concat2("archive export failed: ", &error), None),
        }
    }

    /// The objective of a mission, or why there is none.
    pub open spec fn told_objective(
        self,
        update: NodeUpdate,
        archive: ArchivedConversation,
        result: Result<serde_json::Value, String>,
    ) -> bool {
        let found = match result {
            Ok(response) => objective_in(json(response)),
            Err(_) => None,
        };
        match found {
            Some(words) => update matches NodeUpdate::FollowupObjective {
                host_id,
                generation,
                archive: source,
                objective,
            } && host_id == self.host_id && generation == self.generation && source == archive
                && objective@ == words,
            None => update matches NodeUpdate::FollowupFailed { host_id, generation, message }
                && host_id == self.host_id && generation == self.generation && message@ == (
            match result {
                Ok(_) => "source mission has no original objective"@,
                Err(error) => "could not load source mission objective: "@ + error@,
            }),
        }
    }

    /// The objective of a mission was read, or could not be.
    pub fn objective_loaded(
        &self,
        archive: ArchivedConversation,
        result: Result<serde_json::Value, String>,
    ) -> (update: NodeUpdate)
        ensures
            self.told_objective(update, archive, result),
    {
        let host_id = self.host_id.clone();
        let generation: u64 = self.generation;
        match result {
            Ok(response) => match find_objective(&response) {
                Some(objective) => NodeUpdate::FollowupObjective {
                    host_id,
                    generation,
                    archive,
                    objective,
                },
                None => NodeUpdate::FollowupFailed {
                    host_id,
                    generation,
                    message: "source mission has no original objective".to_owned(),
                },
            },
            Err(error) => NodeUpdate::FollowupFailed {
                host_id,
                generation,
                message: concat2("could not load source mission objective: ", &error),
            },
        }
    }

    /// The news that the work has ended.
    pub open spec fn told_end(self, update: NodeUpdate, reason: Option<String>) -> bool {
        update matches NodeUpdate::Error { host_id, generation, message, fatal, open_request }
            && host_id == self.host_id && generation == self.generation && fatal && open_request
            is None && message@ == (match reason {
            Some(reason) => reason@,
            None => "Neta Node connection closed"@,
        })
    }

    /// The Node ends, or the connection to it did. The work with it ends with that.
    pub fn ended(&self, reason: Option<String>) -> (update: NodeUpdate)
        ensures
            self.told_end(update, reason),
    {
        let message = match reason {
            Some(reason) => reason,
            None => "Neta Node connection closed".to_owned(),
        };
        NodeUpdate::Error {
            host_id: self.host_id.clone(),
            generation: self.generation,
            message,
            fatal: true,
            open_request: None,
        }
    }

    /// What the answer to a command makes of the work, and the update that tells it. An answer that
    /// does not belong to its command tells nothing.
    pub open spec fn answered(
        self,
        after: NodeActor,
        command: NodeCommand,
        answer: NodeAnswer,
        update: Option<NodeUpdate>,
    ) -> bool {
        match (command, answer) {
            (NodeCommand::Snapshot { .. }, NodeAnswer::Snapshot(result)) => {
                &&& update is Some
                &&& match result {
                    Ok(snapshot) => {
                        &&& optional(after.workspace_id) == first_workspace(snapshot)
                        &&& after == (NodeActor { workspace_id: after.workspace_id, ..self })
                        &&& self.seen(
                            update->0,
                            workspace_or_none(first_workspace(snapshot)),
                            snapshot,
                            None,
                        )
                    },
                    Err(message) => after == self && self.failure(update->0, message@, None),
                }
            },
            (NodeCommand::Open { request_id, .. }, NodeAnswer::Opened(result)) => {
                &&& update is Some
                &&& after == self
                &&& match result {
                    Ok((workspace_id, snapshot)) => self.seen(
                        update->0,
                        workspace_id@,
                        snapshot,
                        Some(request_id),
                    ),
                    Err(message) => self.failure(update->0, message@, Some(request_id)),
                }
            },
            (NodeCommand::LoadArchives { workspace_id, .. }, NodeAnswer::Archives(result)) => {
                &&& update is Some
                &&& after == self
                &&& match result {
                    Ok((archives, next_cursor)) => update->0 == (NodeUpdate::Archives {
                        host_id: self.host_id,
                        generation: self.generation,
                        workspace_id,
                        archives,
                        next_cursor,
                    }),
                    Err(message) => self.failure(update->0, message@, None),
                }
            },
            (
                NodeCommand::LoadArchiveTail { request_id, archive, cursor, .. },
                NodeAnswer::Tail(result),
            ) => {
                &&& after == self
                &&& update == Some(
                    match result {
                        Ok(tail) => NodeUpdate::ArchiveTail {
                            host_id: self.host_id,
                            generation: self.generation,
                            request_id,
                            archive,
                            tail,
                            older: cursor is Some,
                        },
                        Err(message) => NodeUpdate::ArchiveFailed {
                            host_id: self.host_id,
                            generation: self.generation,
                            request_id,
                            message,
                        },
                    },
                )
            },
            (NodeCommand::ExportArchive { path, .. }, NodeAnswer::Exported(result)) => {
                &&& update is Some
                &&& after == self
                &&& match result {
                    Ok(_) => update->0 == (NodeUpdate::ArchiveExported {
                        host_id: self.host_id,
                        generation: self.generation,
                        path,
                    }),
                    Err(error) => self.failure(
                        update->0,
                        "archive export failed: "@ + error@,
                        None,
                    ),
                }
            },
            (NodeCommand::FollowupObjective { archive, .. }, NodeAnswer::Objective(result)) => {
                &&& update is Some
                &&& after == self
                &&& self.told_objective(update->0, archive, result)
            },
            _ => update is None && after == self,
        }
    }

    /// What an event makes of the work, and the update that tells it. The answer to a command for
    /// another machine tells nothing, and nothing is told once the work has ended.
    pub open spec fn reported(
        self,
        after: NodeActor,
        event: NodeEvent,
        update: Option<NodeUpdate>,
    ) -> bool {
        if self.ended {
            update is None && after == self
        } else {
            match event {
                NodeEvent::Answered { command, answer } => if command.host()@ == self.host_id@ {
                    self.answered(after, command, answer, update)
                } else {
                    update is None && after == self
                },
                NodeEvent::Opened(result) => {
                    &&& update is None
                    &&& optional(after.workspace_id) == Some(result.workspace.id@)
                    &&& after == (NodeActor { workspace_id: after.workspace_id, ..self })
                },
                NodeEvent::MissionFailed(message) => {
                    &&& update is Some
                    &&& after == self
                    &&& self.failure(update->0, message@, None)
                },
                NodeEvent::Refreshed { workspace_id, result } => {
                    &&& update is Some
                    &&& after == self
                    &&& match result {
                        Ok(snapshot) => self.seen(update->0, workspace_id@, snapshot, None),
                        Err(message) => self.failure(update->0, message@, None),
                    }
                },
                NodeEvent::Ended(reason) => {
                    &&& update is Some
                    &&& after == (NodeActor { ended: true, ..self })
                    &&& self.told_end(update->0, reason)
                },
            }
        }
    }

    fn answer(&mut self, command: NodeCommand, answer: NodeAnswer) -> (update: Option<NodeUpdate>)
        ensures
            old(self).answered(*final(self), command, answer, update),
    {
        match (command, answer) {
            (NodeCommand::Snapshot { .. }, NodeAnswer::Snapshot(result)) => Some(
                self.snapshot_loaded(result),
            ),
            (NodeCommand::Open { request_id, .. }, NodeAnswer::Opened(result)) => Some(
                self.open_finished(request_id, result),
            ),
            (NodeCommand::LoadArchives { workspace_id, .. }, NodeAnswer::Archives(result)) => Some(
                match result {
                    Ok((archives, next_cursor)) => self.archives_loaded(
                        workspace_id,
                        archives,
                        next_cursor,
                    ),
                    Err(message) => self.archives_failed(message),
                },
            ),
            (
                NodeCommand::LoadArchiveTail { request_id, archive, cursor, .. },
                NodeAnswer::Tail(result),
            ) => Some(self.tail_loaded(request_id, archive, &cursor, result)),
            (NodeCommand::ExportArchive { path, .. }, NodeAnswer::Exported(result)) => Some(
                self.archive_exported(path, result),
            ),
            (NodeCommand::FollowupObjective { archive, .. }, NodeAnswer::Objective(result)) => Some(
                self.objective_loaded(archive, result),
            ),
            _ => None,
        }
    }

    /// Takes what happened in, and gives the update that tells it.
    pub fn report(&mut self, event: NodeEvent) -> (update: Option<NodeUpdate>)
        ensures
            old(self).reported(*final(self), event, update),
    {
        if self.ended {
            return None;
        }
        match event {
            NodeEvent::Answered { command, answer } => {
                if self.accepts(&command) {
                    self.answer(command, answer)
                } else {
                    None
                }
            },
            NodeEvent::Opened(result) => {
                self.opened(&result);
                None
            },
            NodeEvent::MissionFailed(message) => Some(self.archives_failed(message)),
            NodeEvent::Refreshed { workspace_id, result } => Some(
                self.refreshed(&workspace_id, result),
            ),
            NodeEvent::Ended(reason) => {
                let update = self.ended(reason);
                self.ended = true;
                Some(update)
            },
        }
    }
}

impl NodeUpdate {
    /// The machine that an update is from, and the connection that it came over.
    pub open spec fn origin(self) -> (HostId, u64) {
        match self {
            NodeUpdate::Snapshot { host_id, generation, .. } => (host_id, generation),
            NodeUpdate::Error { host_id, generation, .. } => (host_id, generation),
            NodeUpdate::Archives { host_id, generation, .. } => (host_id, generation),
            NodeUpdate::ArchiveTail { host_id, generation, .. } => (host_id, generation),
            NodeUpdate::ArchiveFailed { host_id, generation, .. } => (host_id, generation),
            NodeUpdate::ArchiveExported { host_id, generation, .. } => (host_id, generation),
            NodeUpdate::FollowupObjective { host_id, generation, .. } => (host_id, generation),
            NodeUpdate::FollowupFailed { host_id, generation, .. } => (host_id, generation),
        }
    }

    /// Whether an update tells of the end.
    pub open spec fn is_fatal(self) -> bool {
        self matches NodeUpdate::Error { fatal, .. } && fatal
    }

    /// The request to open a workspace that an update belongs to.
    pub open spec fn request(self) -> Option<u64> {
        match self {
            NodeUpdate::Snapshot { open_request, .. } => open_request,
            NodeUpdate::Error { open_request, .. } => open_request,
            _ => None,
        }
    }
}

/// The work with a Node before and after each of some events, and what was told of each.
pub open spec fn is_work(
    actors: Seq<NodeActor>,
    events: Seq<NodeEvent>,
    updates: Seq<Option<NodeUpdate>>,
) -> bool {
    &&& actors.len() == events.len() + 1
    &&& updates.len() == events.len()
    &&& !actors[0].ended
    &&& forall|k: int|
        0 <= k < events.len() ==> (#[trigger] actors[k]).reported(
            actors[k + 1],
            events[k],
            updates[k],
        )
}

proof fn lemma_work(
    actors: Seq<NodeActor>,
    events: Seq<NodeEvent>,
    updates: Seq<Option<NodeUpdate>>,
    k: int,
)
    requires
        is_work(actors, events, updates),
        0 <= k <= events.len(),
    ensures
        actors[k].host_id == actors[0].host_id,
        actors[k].generation == actors[0].generation,
        actors[k].ended <==> exists|i: int|
            0 <= i < k && (#[trigger] updates[i]) is Some && updates[i]->0.is_fatal(),
    decreases k,
{
    if k > 0 {
        lemma_work(actors, events, updates, k - 1);
        assert(actors[k - 1].reported(actors[k], events[k - 1], updates[k - 1]));
        if actors[k].ended {
            if actors[k - 1].ended {
                let i = choose|i: int|
                    0 <= i < k - 1 && (#[trigger] updates[i]) is Some && updates[i]->0.is_fatal();
                assert(0 <= i < k && updates[i] is Some && updates[i]->0.is_fatal());
            } else {
                assert(updates[k - 1] is Some && updates[k - 1]->0.is_fatal());
            }
        }
    }
}

/// Whatever happens in the work with a Node, and in whatever order: everything that is told carries the
/// machine and the connection that the work started with. A command for another machine leads to
/// nothing. What comes of the opening of a workspace carries the number of that request, and nothing
/// else does. And nothing is told after the end was.
pub proof fn the_work_stays_with_its_machine(
    actors: Seq<NodeActor>,
    events: Seq<NodeEvent>,
    updates: Seq<Option<NodeUpdate>>,
    k: int,
)
    requires
        is_work(actors, events, updates),
        0 <= k < events.len(),
    ensures
        updates[k] matches Some(update) ==> update.origin() == (
            actors[0].host_id,
            actors[0].generation,
        ),
        events[k] matches NodeEvent::Answered { command, .. } ==> command.host()@
            != actors[0].host_id@ ==> updates[k] is None && actors[k + 1] == actors[k],
        events[k] matches NodeEvent::Answered {
            command: NodeCommand::Open { host_id, request_id, .. },
            answer: NodeAnswer::Opened(_),
        } ==> !actors[k].ended && host_id@ == actors[0].host_id@ ==> (updates[k] matches Some(update)
            && update.request() == Some(request_id)),
        updates[k] matches Some(update) ==> (update.request() matches Some(number) ==> (
        events[k] matches NodeEvent::Answered {
            command: NodeCommand::Open { request_id, .. },
            ..
        } && request_id == number)),
        (exists|i: int| 0 <= i < k && (#[trigger] updates[i]) is Some && updates[i]->0.is_fatal())
            ==> updates[k] is None,
{
    lemma_work(actors, events, updates, k);
    assert(actors[k].reported(actors[k + 1], events[k], updates[k]));
}

/// An archived conversation, over what it holds.
#[verifier::ext_equal]
pub struct ConversationView {
    pub workspace: Seq<char>,
    pub agent: Seq<char>,
    pub session: Seq<char>,
    pub mission: Seq<char>,
    pub mission_name: Seq<char>,
    pub agent_name: Seq<char>,
    pub task: Seq<char>,
}

impl View for ArchivedConversation {
    type V = ConversationView;

    open spec fn view(&self) -> ConversationView {
        ConversationView {
            workspace: self.workspace_id@,
            agent: self.agent_id@,
            session: self.session_id@,
            mission: self.mission_id@,
            mission_name: self.mission_name@,
            agent_name: self.agent_name@,
            task: self.task@,
        }
    }
}

/// What the conversations of a list hold.
pub open spec fn conversations(archives: Seq<ArchivedConversation>) -> Seq<ConversationView> {
    archives.map_values(|archive: ArchivedConversation| archive@)
}

/// A list with one more conversation, unless its agent has one there.
pub open spec fn with_conversation(list: Seq<ConversationView>, one: ConversationView) -> Seq<
    ConversationView,
> {
    if exists|i: int| 0 <= i < list.len() && (#[trigger] list[i]).agent == one.agent {
        list
    } else {
        list.push(one)
    }
}

/// The conversation of an agent of a mission.
pub open spec fn agent_conversation(workspace: Seq<char>, mission: Mission, agent: Agent) -> ConversationView {
    ConversationView {
        workspace,
        agent: agent.id@,
        session: agent.session_id@,
        mission: mission.id@,
        mission_name: mission.name@,
        agent_name: agent.name@,
        task: agent.task@,
    }
}

/// Whether the conversation of an agent has ended: with its mission, or before.
pub open spec fn has_ended(mission: Mission, agent: Agent) -> bool {
    mission.state@ == "closed"@ || agent.state@ == "archived"@
}

/// The list with the conversations of the first agents of a mission that have ended.
pub open spec fn with_agents(
    list: Seq<ConversationView>,
    workspace: Seq<char>,
    mission: Mission,
    agents: Seq<Agent>,
) -> Seq<ConversationView>
    decreases agents.len(),
{
    if agents.len() == 0 {
        list
    } else {
        let before = with_agents(list, workspace, mission, agents.drop_last());
        if has_ended(mission, agents.last()) {
            with_conversation(before, agent_conversation(workspace, mission, agents.last()))
        } else {
            before
        }
    }
}

/// The conversation of the leader on a mission, which is one with all its others.
pub open spec fn leader_conversation(
    workspace: Seq<char>,
    mission: Mission,
    name: Seq<char>,
    session: Seq<char>,
) -> ConversationView {
    ConversationView {
        workspace,
        agent: mission.id@ + ":leader"@,
        session,
        mission: mission.id@,
        mission_name: mission.name@,
        agent_name: name,
        task: "Workspace leader · shared conversation"@,
    }
}

/// The list with the conversations of a mission that have ended. Where the leader led a mission that
/// is closed, its conversation is one of them.
pub open spec fn with_mission(
    list: Seq<ConversationView>,
    workspace: Seq<char>,
    mission: Mission,
    agents: Seq<Agent>,
    leader: Option<(String, String)>,
) -> Seq<ConversationView> {
    let agents_listed = with_agents(list, workspace, mission, agents);
    match leader {
        Some((name, session)) => if mission.state@ == "closed"@ && mission.lead is Leader {
            with_conversation(
                agents_listed,
                leader_conversation(workspace, mission, name@, session@),
            )
        } else {
            agents_listed
        },
        None => agents_listed,
    }
}

fn push_conversation(archives: &mut Vec<ArchivedConversation>, one: ArchivedConversation)
    ensures
        conversations(final(archives)@) == with_conversation(conversations(old(archives)@), one@),
{
    let ghost list = conversations(archives@);
    let mut at: usize = 0;
    while at < archives.len()
        invariant
            at <= archives@.len(),
            archives@ == old(archives)@,
            list == conversations(archives@),
            forall|i: int| 0 <= i < at ==> (#[trigger] list[i]).agent != one@.agent,
        decreases archives@.len() - at,
    {
        if same_text(&archives[at].agent_id, &one.agent_id) {
            assert(list[at as int].agent == one@.agent);
            return ;
        }
        assert(list[at as int].agent != one@.agent);
        at = at + 1;
    }
    archives.push(one);
    assert(conversations(archives@) =~= list.push(one@));
}

/// Puts the conversations of a mission that have ended behind a list of others.
pub fn collect_archives(
    archives: &mut Vec<ArchivedConversation>,
    workspace_id: &str,
    mission: &Mission,
    agents: &Vec<Agent>,
    leader: &Option<(String, String)>,
)
    ensures
        conversations(final(archives)@) == with_mission(
            conversations(old(archives)@),
            workspace_id@,
            *mission,
            agents@,
            *leader,
        ),
{
    let ghost list = conversations(archives@);
    let closed: bool = same_text(&mission.state, "closed");
    let mut at: usize = 0;
    while at < agents.len()
        invariant
            at <= agents@.len(),
            closed == (mission.state@ == "closed"@),
            conversations(archives@) == with_agents(
                list,
                workspace_id@,
                *mission,
                agents@.take(at as int),
            ),
        decreases agents@.len() - at,
    {
        let ghost now = agents@.take(at + 1);
        assert(now.drop_last() =~= agents@.take(at as int));
        assert(now.last() == agents@[at as int]);
        let agent = &agents[at];
        if closed || same_text(&agent.state, "archived") {
            push_conversation(
                archives,
                ArchivedConversation {
                    workspace_id: workspace_id.to_owned(),
                    agent_id: agent.id.clone(),
                    session_id: agent.session_id.clone(),
                    mission_id: mission.id.clone(),
                    mission_name: mission.name.clone(),
                    agent_name: agent.name.clone(),
                    task: agent.task.clone(),
                },
            );
        }
        at = at + 1;
    }
    assert(agents@.take(at as int) =~= agents@);
    let led: bool = match &mission.lead {
        MissionLead::Leader => true,
        MissionLead::Agent { .. } => false,
    };
    if closed && led {
        if let Some((name, session)) = leader {
            push_conversation(
                archives,
                ArchivedConversation {
                    workspace_id: workspace_id.to_owned(),
                    agent_id: concat2(&mission.id, ":leader"),
                    session_id: session.clone(),
                    mission_id: mission.id.clone(),
                    mission_name: mission.name.clone(),
                    agent_name: name.clone(),
                    task: "Workspace leader · shared conversation".to_owned(),
                },
            );
        }
    }
}

} // verus!
