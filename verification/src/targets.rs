//! The sessions that are opened in panes, and what is asked of the machines for them.

use vstd::prelude::*;

use crate::app::{App, ArchivedConversation};
use crate::hosts::HostId;
use crate::node::NodeCommand;
use crate::protocol::{find_leader, leads, Snapshot};
use crate::seqs::find;
use crate::shell::Shell;
use crate::text::{clone_optional, concat2, optional};

verus! {

/// What could not be asked of a machine.
pub enum Errand {
    /// To turn to a machine.
    Machine,
    /// To turn to a workspace.
    Workspace,
    /// To load a page of a saved conversation.
    Page(u64),
    /// To export a saved conversation.
    Export,
    /// To load the objective of a mission.
    Objective,
}

/// The leader of a workspace, by name and session.
pub open spec fn leader_in(snapshot: Option<Snapshot>, workspace: Seq<char>) -> Option<
    (String, String),
> {
    match snapshot {
        Some(snapshot) => match find(snapshot.leaders@, leads(workspace)) {
            Some(leader) => Some((leader.name, leader.session_id)),
            None => None,
        },
        None => None,
    }
}

fn find_leader_in(snapshot: &Option<Snapshot>, workspace: &str) -> (leader: Option<
    (String, String),
>)
    ensures
        leader == leader_in(*snapshot, workspace@),
{
    match snapshot {
        Some(snapshot) => match find_leader(&snapshot.leaders, workspace) {
            Some(at) => {
                let leader = &snapshot.leaders[at];
                Some((leader.name.clone(), leader.session_id.clone()))
            },
            None => None,
        },
        None => None,
    }
}

impl App {
    /// What a command that could not be handed over tells.
    pub open spec fn refused(self, after: App, errand: Errand, error: Seq<char>) -> bool {
        match errand {
            Errand::Machine => self.told(after, "cannot queue selected machine: "@ + error),
            Errand::Workspace => self.told(after, "cannot queue workspace switch: "@ + error),
            Errand::Page(request_id) => self.missed_page(
                after,
                request_id,
                "cannot queue saved transcript: "@ + error,
            ),
            Errand::Export => self.told(after, "cannot queue archive export: "@ + error),
            Errand::Objective => self.missed_objective(
                after,
                "cannot load source mission objective: "@ + error,
            ),
        }
    }

    /// What a page that cannot be loaded tells, where it is awaited.
    pub open spec fn missed_page(self, after: App, request_id: u64, message: Seq<char>) -> bool {
        if self.active_archive_request == Some(request_id) {
            &&& optional(after.error) == Some(message)
            &&& after == (App { archive_loading: false, error: after.error, ..self })
        } else {
            after == self
        }
    }

    /// What an objective that cannot be loaded tells, where a mission is followed up.
    pub open spec fn missed_objective(self, after: App, message: Seq<char>) -> bool {
        if self.fixed_preview is Some {
            self.told(after, message)
        } else {
            after == self
        }
    }

    /// Tells that a command could not be handed over.
    pub fn refuse(&mut self, errand: Errand, error: &str)
        requires
            old(self).wf(),
        ensures
            old(self).refused(*final(self), errand, error@),
            final(self).wf(),
    {
        match errand {
            Errand::Machine => {
                let message = concat2("cannot queue selected machine: ", error);
                self.tell(&message);
                return ;
            },
            Errand::Workspace => {
                let message = concat2("cannot queue workspace switch: ", error);
                self.tell(&message);
                return ;
            },
            Errand::Page(request_id) => {
                let message = concat2("cannot queue saved transcript: ", error);
                self.archive_failed(request_id, message);
                return ;
            },
            Errand::Export => {
                let message = concat2("cannot queue archive export: ", error);
                self.tell(&message);
                return ;
            },
            Errand::Objective => {
                let message = concat2("cannot load source mission objective: ", error);
                self.followup_failed(message);
                return ;
            },
        }
    }

    /// What is asked of the machine that is shown for a page of the archive; `there` says whether
    /// that machine is connected.
    pub open spec fn asked_archives(
        self,
        after: App,
        there: bool,
        command: Option<NodeCommand>,
    ) -> bool {
        match self.workspace_id {
            Some(workspace_id) => if there {
                &&& command == Some(
                    NodeCommand::LoadArchives {
                        host_id: self.selected_host,
                        workspace_id,
                        cursor: self.archive_next_cursor,
                        leader: leader_in(self.snapshot, workspace_id@),
                    },
                )
                &&& after == self
            } else {
                command is None && self.told(after, "selected machine is disconnected"@)
            },
            None => command is None && after == self,
        }
    }

    fn ask_archives(&mut self, there: bool) -> (command: Option<NodeCommand>)
        requires
            old(self).wf(),
        ensures
            old(self).asked_archives(*final(self), there, command),
            final(self).wf(),
    {
        let workspace_id: String = match &self.workspace_id {
            Some(workspace_id) => workspace_id.clone(),
            None => return None,
        };
        if !there {
            self.tell("selected machine is disconnected");
            return None;
        }
        let leader = find_leader_in(&self.snapshot, &workspace_id);
        Some(
            NodeCommand::LoadArchives {
                host_id: self.selected_host.clone(),
                workspace_id,
                cursor: clone_optional(&self.archive_next_cursor),
                leader,
            },
        )
    }

    /// What taking the wish for a page of the archive does.
    #[verifier::opaque]
    pub open spec fn took_archive_load(self, after: App) -> bool {
        after == (App { archive_load_requested: false, ..self })
    }

    fn take_load(&mut self) -> (wanted: bool)
        requires
            old(self).wf(),
        ensures
            wanted == old(self).archive_load_requested,
            old(self).took_archive_load(*final(self)),
            final(self).wf(),
    {
        proof {
            reveal(App::took_archive_load);
        }
        self.take_archive_load()
    }

    /// What taking the wish for a page of a saved conversation does.
    #[verifier::opaque]
    pub open spec fn took_page_request(self, after: App) -> bool {
        after == (App { pending_archive: None, ..self })
    }

    fn take_page_request(&mut self) -> (request: Option<
        (u64, ArchivedConversation, Option<String>),
    >)
        requires
            old(self).wf(),
        ensures
            request == (match old(self).pending_archive {
                Some(request) => Some((request.id, request.archive, request.cursor)),
                None => None,
            }),
            old(self).took_page_request(*final(self)),
            final(self).wf(),
    {
        proof {
            reveal(App::took_page_request);
        }
        self.take_archive_tail()
    }

    /// What taking the wish for an export does.
    #[verifier::opaque]
    pub open spec fn took_export(self, after: App) -> bool {
        after == (App { pending_archive_export: None, ..self })
    }

    fn take_export(&mut self) -> (export: Option<(ArchivedConversation, String)>)
        requires
            old(self).wf(),
        ensures
            export == old(self).pending_archive_export,
            old(self).took_export(*final(self)),
            final(self).wf(),
    {
        proof {
            reveal(App::took_export);
        }
        self.take_archive_export()
    }

    /// The mission whose objective is wanted.
    pub open spec fn wanted_objective(self) -> Option<(HostId, ArchivedConversation)> {
        match self.fixed_preview {
            Some(preview) => if self.followup_objective_requested {
                Some((preview.host_id, preview.archive))
            } else {
                None
            },
            None => None,
        }
    }

    /// What taking the wish for an objective does.
    #[verifier::opaque]
    pub open spec fn took_objective_request(self, after: App) -> bool {
        after == (App { followup_objective_requested: false, ..self })
    }

    fn take_objective_request(&mut self) -> (request: Option<(HostId, ArchivedConversation)>)
        requires
            old(self).wf(),
        ensures
            request == old(self).wanted_objective(),
            old(self).took_objective_request(*final(self)),
            final(self).wf(),
    {
        proof {
            reveal(App::took_objective_request);
        }
        self.take_followup_objective_request()
    }
}

impl Shell {
    /// What the wish for a page of the archive does.
    pub open spec fn loaded_archives(self, after: Shell, command: Option<NodeCommand>) -> bool {
        &&& after == (Shell { app: after.app, ..self })
        &&& if self.app.archive_load_requested {
            exists|taken: App| #[trigger]
                self.app.took_archive_load(taken) && taken.asked_archives(
                    after.app,
                    self.connected(self.app.selected_host@),
                    command,
                )
        } else {
            command is None && self.app.took_archive_load(after.app)
        }
    }

    /// Asks for a page of the archive, where one is wanted.
    pub fn load_archives(&mut self) -> (command: Option<NodeCommand>)
        requires
            old(self).wf(),
        ensures
            old(self).loaded_archives(*final(self), command),
            final(self).wf(),
    {
        let there: bool = self.is_connected(&self.app.selected_host);
        if !self.app.take_load() {
            return None;
        }
        let ghost taken = self.app;
        self.app.ask_archives(there)
    }

    /// What the wish for a page of a saved conversation does.
    pub open spec fn loaded_page(self, after: Shell, command: Option<NodeCommand>) -> bool {
        &&& after == (Shell { app: after.app, ..self })
        &&& match self.app.pending_archive {
            Some(request) => if self.connected(self.app.selected_host@) {
                &&& command == Some(
                    NodeCommand::LoadArchiveTail {
                        host_id: self.app.selected_host,
                        request_id: request.id,
                        archive: request.archive,
                        cursor: request.cursor,
                    },
                )
                &&& self.app.took_page_request(after.app)
            } else {
                &&& command is None
                &&& exists|taken: App| #[trigger]
                    self.app.took_page_request(taken) && taken.missed_page(
                        after.app,
                        request.id,
                        "selected machine is disconnected"@,
                    )
            },
            None => command is None && self.app.took_page_request(after.app),
        }
    }

    /// Asks for a page of a saved conversation, where one is wanted.
    pub fn load_page(&mut self) -> (command: Option<NodeCommand>)
        requires
            old(self).wf(),
        ensures
            old(self).loaded_page(*final(self), command),
            final(self).wf(),
    {
        let host_id: HostId = self.app.selected_host.clone();
        let there: bool = self.is_connected(&host_id);
        match self.app.take_page_request() {
            Some((request_id, archive, cursor)) => {
                let ghost taken = self.app;
                if !there {
                    self.app.archive_failed(
                        request_id,
                        "selected machine is disconnected".to_owned(),
                    );
                    return None;
                }
                return Some(NodeCommand::LoadArchiveTail { host_id, request_id, archive, cursor });
            },
            None => {
                return None;
            },
        }
    }

    /// What the wish for an export does.
    pub open spec fn exported(self, after: Shell, command: Option<NodeCommand>) -> bool {
        &&& after == (Shell { app: after.app, ..self })
        &&& match self.app.pending_archive_export {
            Some((archive, path)) => if self.connected(self.app.selected_host@) {
                &&& command == Some(
                    NodeCommand::ExportArchive { host_id: self.app.selected_host, archive, path },
                )
                &&& self.app.took_export(after.app)
            } else {
                &&& command is None
                &&& exists|taken: App| #[trigger]
                    self.app.took_export(taken) && taken.told(
                        after.app,
                        "selected machine is disconnected"@,
                    )
            },
            None => command is None && self.app.took_export(after.app),
        }
    }

    /// Asks for an export, where one is wanted.
    pub fn export(&mut self) -> (command: Option<NodeCommand>)
        requires
            old(self).wf(),
        ensures
            old(self).exported(*final(self), command),
            final(self).wf(),
    {
        let host_id: HostId = self.app.selected_host.clone();
        let there: bool = self.is_connected(&host_id);
        match self.app.take_export() {
            Some((archive, path)) => {
                let ghost taken = self.app;
                if !there {
                    self.app.tell("selected machine is disconnected");
                    return None;
                }
                return Some(NodeCommand::ExportArchive { host_id, archive, path });
            },
            None => {
                return None;
            },
        }
    }

    /// What the wish for the objective of a mission does. It is asked of the machine of that
    /// mission, whichever machine is shown.
    pub open spec fn loaded_objective(self, after: Shell, command: Option<NodeCommand>) -> bool {
        &&& after == (Shell { app: after.app, ..self })
        &&& match self.app.wanted_objective() {
            Some((host_id, archive)) => if self.connected(host_id@) {
                &&& command == Some(NodeCommand::FollowupObjective { host_id, archive })
                &&& self.app.took_objective_request(after.app)
            } else {
                &&& command is None
                &&& exists|taken: App| #[trigger]
                    self.app.took_objective_request(taken) && taken.missed_objective(
                        after.app,
                        "source mission host is disconnected"@,
                    )
            },
            None => command is None && self.app.took_objective_request(after.app),
        }
    }

    /// Asks for the objective of a mission, where one is wanted.
    pub fn load_objective(&mut self) -> (command: Option<NodeCommand>)
        requires
            old(self).wf(),
        ensures
            old(self).loaded_objective(*final(self), command),
            final(self).wf(),
    {
        match self.app.take_objective_request() {
            Some((host_id, archive)) => {
                let ghost taken = self.app;
                if !self.is_connected(&host_id) {
                    self.app.followup_failed("source mission host is disconnected".to_owned());
                    return None;
                }
                return Some(NodeCommand::FollowupObjective { host_id, archive });
            },
            None => {
                return None;
            },
        }
    }
}

} // verus!
