//! The client at work: what turning to a machine, a workspace or a session leads to, and what the client
//! makes of what the Nodes tell.

use vstd::prelude::*;
use vstd::string::*;

use crate::app::{App, HostFormSubmission, SavedTranscript, WorkspaceChoice};
use crate::host_table::standing;
use crate::hosts::{HostId, HostTransport, SessionKey};
use crate::json::{json, text_member_of};
use crate::machines::{described, form_of, saved_id, tab_in, ConnectRequest, FormStep};
use crate::navigation::optional_scoped;
use crate::node::{
    agent_conversation, asked_by, has_ended, last_phase, leader_conversation, node_phase,
    with_agents, with_conversation, with_mission, ConversationView, NodeActor, NodeAnswer,
    NodeCommand, NodeUpdate, NotificationView,
};
use crate::panes::NewPane;
use crate::paths::joined;
use crate::protocol::{Agent, ConversationTail, Mission, Snapshot};
use crate::registry::{host_with, SavedView};
use crate::requests::Notification;
use crate::seqs::{first_is_position, position, position_is_first};
use crate::sets::{hosts_in, keys_in};
use crate::shell::Shell;
use crate::strip::lists_key;
use crate::text::{blank, optional, texts};

verus! {

/// A saved machine is known by its id behind `saved:`; this machine has no such id.
pub proof fn saved_machines_have_names_of_their_own(id: Seq<char>)
    ensures
        saved_id(seq!['s', 'a', 'v', 'e', 'd', ':'] + id) == Some(id),
        saved_id("local"@) is None,
{
    reveal_strlit("saved:");
    reveal_strlit("local");
    assert("saved:"@ =~= seq!['s', 'a', 'v', 'e', 'd', ':']);
    let name = seq!['s', 'a', 'v', 'e', 'd', ':'] + id;
    assert(name.take(6) =~= "saved:"@);
    assert("saved:"@.is_prefix_of(name));
    assert(name.skip(6) =~= id);
}

/// Turning to a machine that is connected and has a snapshot shows that machine, with the workspace that
/// was open there, and asks for the leader of it. No connection is made.
pub proof fn turning_to_a_machine_shows_it(
    shell: Shell,
    after: Shell,
    host_id: HostId,
    hosts: Seq<SavedView>,
    request: Option<ConnectRequest>,
)
    requires
        shell.turned_to(after, host_id, hosts, request),
        shell.connected(host_id@),
    ensures
        request is None,
        after.runtimes == shell.runtimes,
        after.generations == shell.generations,
        standing(shell.runtimes@)[host_id@].fresh ==> {
            &&& after.app.selected_host == host_id
            &&& after.app.snapshot_host == Some(host_id)
            &&& after.app.snapshot is Some
            &&& standing(shell.snapshots@)[host_id@].same(after.app.snapshot->0)
            &&& after.app.workspace_id
                == if standing(shell.runtimes@)[host_id@].workspace_id is Some {
                standing(shell.runtimes@)[host_id@].workspace_id
            } else {
                shell.app.workspace_id
            }
            &&& optional_scoped(after.app.pending_target) == after.app.leader()
        },
        !standing(shell.runtimes@)[host_id@].fresh ==> after == shell,
{
    reveal(Shell::turned_to);
}

/// Turning to a saved machine that is not connected asks for a connection to it, to the host as it is
/// saved and with its last workspace, under a number of its own that is awaited from then on; as long as
/// one is being made, no other is asked for. A machine that is not saved is not connected to.
pub proof fn turning_to_a_saved_machine_connects_to_it(
    shell: Shell,
    after: Shell,
    host_id: HostId,
    hosts: Seq<SavedView>,
    request: Option<ConnectRequest>,
    at: int,
)
    requires
        shell.turned_to(after, host_id, hosts, request),
        !shell.connected(host_id@),
        0 <= at <= hosts.len(),
        at < hosts.len() ==> saved_id(host_id@) == Some(hosts[at].id),
        forall|k: int| 0 <= k < at ==> saved_id(host_id@) != Some((#[trigger] hosts[k]).id),
    ensures
        hosts_in(shell.connecting@).contains(host_id@) ==> request is None && after == shell,
        !hosts_in(shell.connecting@).contains(host_id@) && at < hosts.len() ==> {
            &&& request is Some
            &&& request->0.host_id == host_id
            &&& request->0.host@ == hosts[at]
            &&& hosts[at].last_remote_workspace_path matches Some(path)
                ==> request->0.workspace_root@ == path
            &&& hosts[at].last_remote_workspace_path is None
                ==> request->0.workspace_root@.len() == 0
            &&& after.awaited(host_id@, request->0.generation)
            &&& !shell.awaited(host_id@, request->0.generation)
            &&& hosts_in(after.connecting@).contains(host_id@)
            &&& after.app.requested_host == Some(host_id)
            &&& after.app.selected_host == shell.app.selected_host
        },
        !hosts_in(shell.connecting@).contains(host_id@) && at == hosts.len() ==> {
            &&& request is None
            &&& after.app.error is Some
            &&& after.connecting == shell.connecting
            &&& after.app.requested_host == shell.app.requested_host
        },
{
    reveal(Shell::turned_to);
    if saved_id(host_id@) is Some {
        let wanted = host_with(saved_id(host_id@)->0);
        assert forall|i: int| 0 <= i < at implies !#[trigger] wanted(hosts[i]) by {
            assert(hosts[i].id != saved_id(host_id@)->0);
        }
        first_is_position(hosts, wanted, 0, at);
    }
}

/// A workspace of a machine that is away is not opened. One that has a tab is shown there, and the
/// picker closes; any other is opened on its own machine, at its own path, under a number of its own.
pub proof fn a_workspace_is_opened_on_its_own_machine(
    app: App,
    after: App,
    choice: WorkspaceChoice,
    there: bool,
    snapshot: Option<Snapshot>,
    command: Option<NodeCommand>,
)
    requires
        app.chose_workspace(after, choice, there, snapshot, command),
    ensures
        ({
            let open = exists|i: int|
                0 <= i < app.tabs@.len() && (#[trigger] app.tabs@[i]).key.host_id@
                    == choice.host_id@ && app.tabs@[i].target.workspace_id@
                    == choice.workspace_id@;
            &&& !choice.connected || !there ==> command is None && after.error is Some
                && after.workspace_id == app.workspace_id && after.selected_host
                == app.selected_host
            &&& choice.connected && there && open ==> command is None && after.workspace_id == Some(
                choice.workspace_id,
            ) && !after.picker && !after.nav_focused
            &&& choice.connected && there && !open ==> {
                &&& command matches Some(NodeCommand::Open { host_id, request_id, path })
                    && host_id == choice.host_id && path == choice.path && request_id
                    == after.next_open_request && request_id != app.next_open_request
                &&& after.workspace_id == app.workspace_id
            }
        }),
{
    reveal(App::chose_workspace);
    let wanted = tab_in(choice.host_id@, choice.workspace_id@);
    position_is_first(app.tabs@, wanted, 0);
    let at = position(app.tabs@, wanted, 0);
    if at < app.tabs@.len() {
        assert(wanted(app.tabs@[at]));
        assert(app.tabs@[at].key.host_id@ == choice.host_id@);
    } else {
        assert forall|i: int| 0 <= i < app.tabs@.len() implies !(
        (#[trigger] app.tabs@[i]).key.host_id@ == choice.host_id@
            && app.tabs@[i].target.workspace_id@ == choice.workspace_id@) by {
            assert(!wanted(app.tabs@[i]));
        }
    }
}

/// Whether what a form can leave blank is not blank where it is saved.
pub open spec fn is_filled(host: SavedView) -> bool {
    &&& !blank(host.display_name)
    &&& host.ssh_config matches Some(config) ==> !blank(config)
    &&& host.last_remote_workspace_path matches Some(path) ==> !blank(path)
    &&& host.remote_launcher matches Some(launcher) ==> !blank(launcher.executable)
}

/// A form that is opened for a saved machine and handed over as it is describes that machine as it is
/// saved.
pub proof fn an_unchanged_form_changes_nothing(
    hosts: Seq<SavedView>,
    at: int,
    editing: HostId,
    new_id: Seq<char>,
)
    requires
        0 <= at < hosts.len(),
        forall|k: int| 0 <= k < at ==> (#[trigger] hosts[k]).id != hosts[at].id,
        saved_id(editing@) == Some(hosts[at].id),
        is_filled(hosts[at]),
    ensures
        form_of(hosts[at]).len() == crate::app::MACHINE_FORM_FIELDS,
        hosts[at].remote_launcher is Some ==> described(
            form_of(hosts[at]),
            Some(editing),
            hosts,
            new_id,
        ) =~= hosts[at],
        hosts[at].remote_launcher is None ==> described(
            form_of(hosts[at]),
            Some(editing),
            hosts,
            new_id,
        ) =~= hosts[at],
{
    let host = hosts[at];
    let wanted = host_with(host.id);
    assert forall|i: int| 0 <= i < at implies !#[trigger] wanted(hosts[i]) by {
        assert(hosts[i].id != host.id);
    }
    first_is_position(hosts, wanted, 0, at);
    assert(blank(Seq::<char>::empty()));
    let made = described(form_of(host), Some(editing), hosts, new_id);
    assert(made.id == host.id);
    assert(made.display_name == host.display_name);
    assert(made.ssh_config == host.ssh_config);
    assert(made.last_remote_workspace_path == host.last_remote_workspace_path);
    assert(made.remote_launcher == host.remote_launcher);
}

/// The fields of the form are, in their order: the destination, the name, the directory of Neta, the
/// workspace, the configuration of `ssh`, and the launcher. A machine that is new gets a new id, and one
/// without a name is shown under its destination.
pub proof fn a_form_describes_a_machine(
    fields: Seq<Seq<char>>,
    hosts: Seq<SavedView>,
    new_id: Seq<char>,
)
    requires
        fields.len() == 6,
    ensures
        ({
            let host = described(fields, None, hosts, new_id);
            &&& host.id == new_id
            &&& host.ssh_destination == fields[0]
            &&& host.display_name == if blank(fields[1]) {
                fields[0]
            } else {
                fields[1]
            }
            &&& host.remote_neta_dir == fields[2]
            &&& !blank(fields[3]) ==> host.last_remote_workspace_path == Some(fields[3])
            &&& blank(fields[3]) ==> host.last_remote_workspace_path is None
            &&& !blank(fields[4]) ==> host.ssh_config == Some(fields[4])
            &&& blank(fields[4]) ==> host.ssh_config is None
            &&& !blank(fields[5]) ==> host.remote_launcher is Some
                && host.remote_launcher->0.executable == fields[5]
                && host.remote_launcher->0.args.len() == 0
            &&& blank(fields[5]) ==> host.remote_launcher is None
        }),
{
}

/// A filled form is saved where its paths are absolute, and refused where they are not; where it does not
/// say where Neta is kept, that is looked for first, once.
pub proof fn a_form_is_saved_when_it_is_whole(
    app: App,
    after: App,
    submission: HostFormSubmission,
    hosts: Seq<SavedView>,
    new_id: Seq<char>,
    step: FormStep,
)
    requires
        app.took_form(after, submission, hosts, new_id, step),
    ensures
        ({
            let dir = submission.fields@[2]@;
            let path = submission.fields@[3]@;
            let whole = !blank(dir) && dir.len() > 0 && dir[0] == '/' && (blank(path) || (path.len()
                > 0 && path[0] == '/'));
            &&& step is Save <==> whole
            &&& step matches FormStep::Save { host, editing } ==> editing == (
            submission.editing is Some) && host@.remote_neta_dir == dir && after == app
            &&& step is Discover <==> blank(dir) && app.host_discovery_request is None
            &&& step matches FormStep::Discover { request, submission: kept } ==> kept == submission
                && after.host_discovery_request == Some(request) && request
                != app.next_host_discovery_request
            &&& !blank(dir) && !whole ==> after.error is Some
        }),
{
    assert(texts(submission.fields@)[2] == submission.fields@[2]@);
    assert(texts(submission.fields@)[3] == submission.fields@[3]@);
}

/// The home directory that was found goes into the field that was blank, and into no other; an answer
/// that nobody waits for changes nothing.
pub proof fn a_home_directory_fills_its_field(
    app: App,
    after: App,
    request: u64,
    submission: HostFormSubmission,
    result: Result<String, String>,
    field: int,
)
    requires
        app.found_home(after, request, submission, result),
        0 <= field < 6,
    ensures
        !app.add_host_form || app.host_discovery_request != Some(request) ==> after == app,
        app.add_host_form && app.host_discovery_request == Some(request) ==> {
            &&& after.host_discovery_request is None
            &&& result matches Ok(home) ==> after.pending_add_host is Some
                && after.pending_add_host->0.editing == submission.editing
                && after.pending_add_host->0.fields@[field]@ == if field == 2 {
                joined(home@, ".neta"@)
            } else {
                submission.fields@[field]@
            }
            &&& result is Err ==> after.add_host_form && after.error is Some
                && after.add_host_fields == submission.fields && after.pending_add_host
                == app.pending_add_host
        },
{
    reveal(App::ended_search);
    reveal(App::filled_home);
    reveal(App::missed_home);
    if app.add_host_form && app.host_discovery_request == Some(request) {
        match result {
            Ok(home) => {
                let filled = texts(after.pending_add_host->0.fields@);
                assert(filled[field] == after.pending_add_host->0.fields@[field]@);
                assert(texts(submission.fields@)[field] == submission.fields@[field]@);
            },
            Err(_) => {},
        }
    }
}

/// A connection that is awaited stands from then on, without a snapshot yet, and the Node is asked for
/// its project, or for a snapshot where it has none; any other connection is passed over.
pub proof fn a_connection_starts_with_its_project(
    shell: Shell,
    after: Shell,
    host_id: HostId,
    generation: u64,
    transport: HostTransport,
    workspace_root: String,
    command: Option<NodeCommand>,
)
    requires
        shell.made_connection(after, host_id, generation, transport, workspace_root, command),
    ensures
        !shell.awaited(host_id@, generation) ==> command is None && after == shell,
        shell.awaited(host_id@, generation) ==> {
            &&& after.current(host_id@, generation)
            &&& !standing(after.runtimes@)[host_id@].fresh
            &&& standing(after.runtimes@)[host_id@].transport == transport
            &&& !hosts_in(after.connecting@).contains(host_id@)
            &&& command is Some
            &&& command->0.host() == host_id
            &&& workspace_root@.len() == 0 ==> command->0 is Snapshot
            &&& workspace_root@.len() > 0 ==> (command->0 matches NodeCommand::Open {
                path,
                request_id,
                ..
            } && path == workspace_root && request_id == after.app.next_open_request)
            &&& after.snapshots == shell.snapshots
        },
{
}

/// A snapshot over the connection in use makes its machine fresh and is known from then on. Where that
/// machine is shown, its snapshot is, with the workspace that it came for, and a project that was being
/// opened with it is open; where it is not, what is shown stays.
pub proof fn a_snapshot_is_shown_where_its_machine_is(
    shell: Shell,
    after: Shell,
    host_id: HostId,
    workspace_id: String,
    snapshot: Snapshot,
    request: Option<u64>,
)
    requires
        shell.saw_snapshot(after, host_id, workspace_id, snapshot, request),
        shell.connected(host_id@),
    ensures
        after.connected(host_id@),
        standing(after.runtimes@)[host_id@].fresh,
        standing(after.runtimes@)[host_id@].generation == standing(
            shell.runtimes@,
        )[host_id@].generation,
        after.snapshot_of(host_id@) is Some,
        snapshot.same(after.snapshot_of(host_id@)->0),
        ({
            let shown = shell.app.selected_host@ == host_id@ || shell.app.requests(host_id@);
            &&& shown ==> {
                &&& after.app.selected_host@ == host_id@
                &&& after.app.snapshot == Some(snapshot)
                &&& after.app.snapshot_host == Some(host_id)
                &&& workspace_id@.len() > 0 ==> after.app.workspace_id == Some(workspace_id)
                &&& workspace_id@.len() == 0 ==> after.app.workspace_id is None
                &&& request is Some && shell.app.pending_open == request
                    ==> after.app.pending_open is None
                &&& !(request is Some && shell.app.pending_open == request)
                    ==> after.app.pending_open == shell.app.pending_open
            }
            &&& !shown ==> {
                &&& after.app.snapshot == shell.app.snapshot
                &&& after.app.workspace_id == shell.app.workspace_id
                &&& after.app.selected_host == shell.app.selected_host
                &&& after.app.active_target == shell.app.active_target
                &&& after.app.pending_target == shell.app.pending_target
                &&& after.app.pending_open == shell.app.pending_open
            }
        }),
{
}

/// When a snapshot brings another workspace than the one that is shown, the leader of that workspace is
/// asked for; when it brings the same one, and no pane lost its connection, nothing is asked for beyond
/// the session that took the place of the one that is shown.
pub proof fn another_workspace_asks_for_its_leader(
    app: App,
    after: App,
    host_id: HostId,
    workspace_id: String,
    snapshot: Snapshot,
    request: Option<u64>,
    stale: Seq<SessionKey>,
    failed: Seq<SessionKey>,
)
    requires
        app.took_snapshot(after, host_id, workspace_id, snapshot, request, stale, failed),
        workspace_id@.len() > 0,
        app.selected_host == host_id,
    ensures
        app.workspace() != Some(workspace_id@) ==> optional_scoped(after.pending_target)
            == after.leader(),
        app.active_target is Some && app.active_target->0.key.host_id@ != host_id@
            ==> optional_scoped(after.pending_target) == after.leader(),
        app.workspace() == Some(workspace_id@) && (app.active_target is Some ==> (
        app.active_target->0.key.host_id@ == host_id@ && !lists_key(
            stale,
            app.active_target->0.key@,
        ))) ==> after.pending_target == app.pending_target || optional_scoped(after.pending_target)
            == (App { workspace_id: Some(workspace_id), ..app }).rebound(host_id@, snapshot),
{
}

/// An error that ends a connection ends it: its panes are stale, and it can be connected to anew. Any
/// other error leaves the connection as it is. It is told where its machine is shown or was asked for,
/// and the project that was being opened with it is no longer awaited.
pub proof fn an_error_ends_a_connection_only_where_it_is_fatal(
    shell: Shell,
    after: Shell,
    host_id: HostId,
    generation: u64,
    message: String,
    fatal: bool,
    request: Option<u64>,
)
    requires
        shell.met_error(after, host_id, generation, message, fatal, request),
        shell.awaited(host_id@, generation),
        shell.current(host_id@, generation),
    ensures
        after.connected(host_id@) == !fatal,
        !hosts_in(after.connecting@).contains(host_id@),
        after.snapshots == shell.snapshots,
        after.drivers == shell.drivers,
        !fatal ==> keys_in(after.stale@) == keys_in(shell.stale@),
        shell.app.selected_host@ == host_id@ && (fatal || request is None || request
            == shell.app.pending_open) ==> after.app.error == Some(message),
        shell.app.selected_host@ != host_id@ && !shell.app.requests(host_id@) ==> after.app.error
            == shell.app.error,
        shell.app.selected_host@ == host_id@ && request == shell.app.pending_open
            ==> after.app.pending_open is None,
        after.app.selected_host == shell.app.selected_host,
        after.app.tabs == shell.app.tabs,
{
}

/// A page of a saved conversation that a Node sends is taken in where its machine is shown.
pub proof fn pages_come_from_the_machine_that_is_shown(
    shell: Shell,
    after: Shell,
    host_id: HostId,
    generation: u64,
    request_id: u64,
    archive: crate::app::ArchivedConversation,
    tail: ConversationTail,
    older: bool,
)
    requires
        shell.updated(
            after,
            (NodeUpdate::ArchiveTail { host_id, generation, request_id, archive, tail, older }),
        ),
    ensures
        shell.current(host_id@, generation) && shell.app.selected_host@ == host_id@
            ==> shell.app.page_arrived(
            after.app,
            request_id,
            (SavedTranscript { archive, blocks: tail.blocks, prev_cursor: tail.prev_cursor }),
            older,
        ),
        !(shell.current(host_id@, generation) && shell.app.selected_host@ == host_id@) ==> after
            == shell,
{
    reveal(Shell::updated);
}

/// A page of the archive that a Node sends is taken in where its machine is shown, and the objective of a
/// mission where that mission is followed up.
pub proof fn archives_come_from_the_machine_that_is_shown(
    shell: Shell,
    after: Shell,
    host_id: HostId,
    generation: u64,
    workspace_id: String,
    archives: Vec<crate::app::ArchivedConversation>,
    next_cursor: Option<String>,
)
    requires
        shell.updated(
            after,
            (NodeUpdate::Archives { host_id, generation, workspace_id, archives, next_cursor }),
        ),
    ensures
        shell.current(host_id@, generation) && shell.app.selected_host@ == host_id@
            ==> shell.app.archives_arrived(after.app, workspace_id@, archives@, next_cursor),
        !(shell.current(host_id@, generation) && shell.app.selected_host@ == host_id@) ==> after
            == shell,
{
    reveal(Shell::updated);
}

/// The objective of a mission that a Node sends is taken in over the connection in use.
pub proof fn objectives_come_over_the_connection_in_use(
    shell: Shell,
    after: Shell,
    host_id: HostId,
    generation: u64,
    archive: crate::app::ArchivedConversation,
    objective: String,
)
    requires
        shell.updated(
            after,
            (NodeUpdate::FollowupObjective { host_id, generation, archive, objective }),
        ),
    ensures
        shell.current(host_id@, generation) ==> after.app == shell.app.objective_arrived(
            host_id@,
            archive,
            objective,
        ),
        !shell.current(host_id@, generation) ==> after == shell,
{
    reveal(Shell::updated);
}

/// A session whose pane works is shown at once, with no new pane. For any other session a pane is to be
/// started, of that session and over the connection of its machine, in the place of the old one where
/// that lost its connection; where the machine is not there, none is, and that is told.
pub proof fn a_session_gets_a_pane_of_its_own(
    shell: Shell,
    after: Shell,
    target: crate::hosts::ScopedTarget,
    draft: Option<String>,
    pane: Option<NewPane>,
)
    requires
        shell.turned_to_target(after, target, draft, pane),
    ensures
        ({
            let works = lists_key(shell.drivers@, target.key@) && !lists_key(
                shell.stale@,
                target.key@,
            );
            &&& works ==> pane is None && after.active == target.key && (draft is Some
                ==> after.draft == Some((target.key, draft->0))) && (draft is None ==> after.draft
                == shell.draft)
            &&& !works && shell.connected(target.key.host_id@) ==> {
                &&& after == shell
                &&& pane is Some
                &&& pane->0.target == target
                &&& pane->0.draft == draft
                &&& pane->0.replacing == lists_key(shell.stale@, target.key@)
                &&& pane->0.transport == standing(
                    shell.runtimes@,
                )[target.key.host_id@].transport
            }
            &&& !works && !shell.connected(target.key.host_id@) ==> pane is None && after.active
                == shell.active && after.draft == shell.draft
        }),
{
    reveal(Shell::turned_to_target);
}

/// A pane that was started is there, and is shown with what is to be typed into it; one that takes the
/// place of a pane that lost its connection is neither stale nor failed any more.
pub proof fn a_started_pane_is_shown(shell: Shell, after: Shell, pane: NewPane)
    requires
        shell.started_pane(after, pane),
    ensures
        lists_key(after.drivers@, pane.target.key@),
        after.active == pane.target.key,
        pane.draft is Some ==> after.draft == Some((pane.target.key, pane.draft->0)),
        pane.draft is None ==> after.draft == shell.draft,
        pane.replacing ==> !lists_key(after.stale@, pane.target.key@) && !lists_key(
            after.failed@,
            pane.target.key@,
        ),
        forall|key: crate::hosts::KeyView|
            key != pane.target.key@ ==> (#[trigger] lists_key(after.stale@, key)) == lists_key(
                shell.stale@,
                key,
            ),
        forall|key: crate::hosts::KeyView|
            key != pane.target.key@ ==> (#[trigger] lists_key(after.drivers@, key)) == lists_key(
                shell.drivers@,
                key,
            ),
{
    reveal(Shell::registered_pane);
    let mid = choose|mid: Shell| #[trigger]
        shell.registered_pane(mid, pane.target.key@, pane.replacing) && mid.showed_pane(
            after,
            pane.target,
            pane.draft,
        );
    assert(keys_in(mid.drivers@).contains(pane.target.key@));
    assert(pane.replacing ==> !keys_in(mid.stale@).contains(pane.target.key@));
    assert(pane.replacing ==> !keys_in(mid.failed@).contains(pane.target.key@));
    assert forall|key: crate::hosts::KeyView| key != pane.target.key@ implies (
    #[trigger] lists_key(after.stale@, key)) == lists_key(shell.stale@, key) by {
        assert(keys_in(mid.stale@).contains(key) == keys_in(shell.stale@).contains(key));
    }
    assert forall|key: crate::hosts::KeyView| key != pane.target.key@ implies (
    #[trigger] lists_key(after.drivers@, key)) == lists_key(shell.drivers@, key) by {
        assert(keys_in(mid.drivers@).contains(key) == keys_in(shell.drivers@).contains(key));
    }
}

/// A pane that could not be started anew is shown as failed, so that it gets no keys and can be tried
/// once more; one that could not be started at all leaves what was shown as it was.
pub proof fn a_pane_that_failed_gets_no_keys(
    shell: Shell,
    after: Shell,
    pane: NewPane,
    error: Seq<char>,
)
    requires
        shell.failed_pane(after, pane, error),
    ensures
        pane.replacing ==> lists_key(after.failed@, pane.target.key@) && after.active
            == pane.target.key && after.app.error is Some && after.stale == shell.stale,
        !pane.replacing ==> after.active == shell.active && after.failed == shell.failed,
        after.drivers == shell.drivers,
{
    reveal(Shell::failed_pane);
    if pane.replacing {
        assert(keys_in(after.failed@).contains(pane.target.key@));
    }
}

/// A burst of notifications ends the work where one of them is about the Node itself, and says so with
/// the last of these; else it asks for a look where one of them tells of a state or an event, and for
/// nothing where none does.
pub proof fn a_burst_is_read_by_its_methods(burst: Seq<Notification>, at: int)
    ensures
        ({
            let ends = exists|i: int|
                0 <= i < burst.len() && (#[trigger] burst[i]).method@ == "node"@;
            let changes = exists|i: int|
                0 <= i < burst.len() && ((#[trigger] burst[i]).method@ == "state"@
                    || burst[i].method@ == "event"@);
            &&& asked_by(burst) is Fatal <==> ends
            &&& asked_by(burst) is Refresh <==> !ends && changes
            &&& 0 <= at < burst.len() && burst[at].method@ == "node"@ && (forall|k: int|
                at < k < burst.len() ==> (#[trigger] burst[k]).method@ != "node"@) ==> asked_by(burst)
                == NotificationView::Fatal(
                "Neta Node "@ + match text_member_of(json(burst[at].params), "phase"@) {
                    Some(phase) => phase,
                    None => "changed state"@,
                },
            )
        }),
    decreases burst.len(),
{
    crate::node::a_burst_is_one_action(burst);
    if exists|i: int| 0 <= i < burst.len() && node_phase(#[trigger] burst[i]) is Some {
        let i = choose|i: int| 0 <= i < burst.len() && node_phase(#[trigger] burst[i]) is Some;
        assert(burst[i].method@ == "node"@);
    }
    if exists|i: int| 0 <= i < burst.len() && (#[trigger] burst[i]).method@ == "node"@ {
        let i = choose|i: int| 0 <= i < burst.len() && (#[trigger] burst[i]).method@ == "node"@;
        assert(node_phase(burst[i]) is Some);
    }
    if crate::node::any_change(burst) {
        let i = choose|i: int|
            0 <= i < burst.len() && crate::node::tells_change(#[trigger] burst[i]);
        assert(burst[i].method@ == "state"@ || burst[i].method@ == "event"@);
    }
    if exists|i: int|
        0 <= i < burst.len() && ((#[trigger] burst[i]).method@ == "state"@ || burst[i].method@
            == "event"@) {
        let i = choose|i: int|
            0 <= i < burst.len() && ((#[trigger] burst[i]).method@ == "state"@ || burst[i].method@
                == "event"@);
        assert(crate::node::tells_change(burst[i]));
    }
    if 0 <= at < burst.len() && burst[at].method@ == "node"@ && (forall|k: int|
        at < k < burst.len() ==> (#[trigger] burst[k]).method@ != "node"@) {
        lemma_last_phase(burst, at);
    }
}

proof fn lemma_last_phase(burst: Seq<Notification>, at: int)
    requires
        0 <= at < burst.len(),
        burst[at].method@ == "node"@,
        forall|k: int| at < k < burst.len() ==> (#[trigger] burst[k]).method@ != "node"@,
    ensures
        last_phase(burst) == node_phase(burst[at]),
    decreases burst.len(),
{
    if at < burst.len() - 1 {
        assert(burst[burst.len() - 1].method@ != "node"@);
        let before = burst.drop_last();
        assert forall|k: int| at < k < before.len() implies (#[trigger] before[k]).method@
            != "node"@ by {
            assert(burst[k].method@ != "node"@);
        }
        lemma_last_phase(before, at);
    }
}

/// What a Node answers is told as the answer to its own command: a page of a saved conversation under
/// the number and the conversation that it was asked with, as older where a cursor was given; a page of
/// the archive under its workspace; a snapshot with the workspace that was opened, or with the first one
/// where none was named.
pub proof fn an_answer_belongs_to_its_command(
    actor: NodeActor,
    after: NodeActor,
    command: NodeCommand,
    answer: NodeAnswer,
    update: Option<NodeUpdate>,
)
    requires
        actor.answered(after, command, answer, update),
    ensures
        command matches NodeCommand::LoadArchiveTail { request_id, archive, cursor, .. } ==> (
        answer matches NodeAnswer::Tail(Ok(page)) ==> (update matches Some(
            NodeUpdate::ArchiveTail { request_id: number, archive: own, tail, older, .. },
        ) && number == request_id && own == archive && tail == page && older == (cursor is Some))),
        command matches NodeCommand::LoadArchiveTail { request_id, .. } ==> (answer
            matches NodeAnswer::Tail(Err(error)) ==> (update matches Some(
            NodeUpdate::ArchiveFailed { request_id: number, message, .. },
        ) && number == request_id && message == error)),
        command matches NodeCommand::LoadArchives { workspace_id, .. } ==> (answer
            matches NodeAnswer::Archives(Ok((list, cursor))) ==> (update matches Some(
            NodeUpdate::Archives { workspace_id: own, archives, next_cursor, .. },
        ) && own == workspace_id && archives == list && next_cursor == cursor)),
        command matches NodeCommand::Open { request_id, .. } ==> (answer
            matches NodeAnswer::Opened(Ok((opened, shown))) ==> (update matches Some(
            NodeUpdate::Snapshot { workspace_id, snapshot, open_request, .. },
        ) && workspace_id@ == opened@ && snapshot == shown && open_request == Some(request_id))),
        command is Snapshot ==> (answer matches NodeAnswer::Snapshot(Ok(shown)) ==> {
            &&& update matches Some(NodeUpdate::Snapshot { workspace_id, snapshot, open_request, .. })
                && snapshot == shown && open_request is None && (shown.workspaces@.len() > 0
                ==> workspace_id@ == shown.workspaces@[0].id@) && (shown.workspaces@.len() == 0
                ==> workspace_id@.len() == 0)
            &&& shown.workspaces@.len() > 0 && shown.workspaces@[0].id@.len() > 0 ==> optional(
                after.workspace_id,
            ) == Some(shown.workspaces@[0].id@)
        }),
        command matches NodeCommand::ExportArchive { path, .. } ==> (answer
            matches NodeAnswer::Exported(Ok(_)) ==> (update matches Some(
            NodeUpdate::ArchiveExported { path: written, .. },
        ) && written == path)),
{
    if command is Snapshot && answer is Snapshot && answer->Snapshot_0 is Ok {
        let shown = answer->Snapshot_0->Ok_0;
        if shown.workspaces@.len() > 0 && shown.workspaces@[0].id@.len() == 0 {
            assert(shown.workspaces@[0].id@ =~= seq![]);
        }
    }
}

/// Whether the conversation of an agent stands in a list.
pub open spec fn lists_conversation(list: Seq<ConversationView>, agent: Seq<char>) -> bool {
    exists|i: int| 0 <= i < list.len() && (#[trigger] list[i]).agent == agent
}

/// The name of a leader.
pub open spec fn name_of(leader: Option<(String, String)>) -> Seq<char> {
    match leader {
        Some((name, _)) => name@,
        None => seq![],
    }
}

/// The session of a leader.
pub open spec fn session_of(leader: Option<(String, String)>) -> Seq<char> {
    match leader {
        Some((_, session)) => session@,
        None => seq![],
    }
}

proof fn lemma_with_conversation(list: Seq<ConversationView>, one: ConversationView)
    ensures
        list.is_prefix_of(with_conversation(list, one)),
        lists_conversation(with_conversation(list, one), one.agent),
        forall|i: int|
            list.len() <= i < with_conversation(list, one).len() ==> #[trigger] with_conversation(
                list,
                one,
            )[i] == one,
{
    let after = with_conversation(list, one);
    assert(after.take(list.len() as int) =~= list);
    if after.len() > list.len() {
        assert(after[list.len() as int].agent == one.agent);
    }
}

/// Whether a conversation is that of an agent of a mission that has ended.
pub open spec fn is_ended_conversation(
    one: ConversationView,
    workspace: Seq<char>,
    mission: Mission,
    agents: Seq<Agent>,
) -> bool {
    &&& one.workspace == workspace
    &&& one.mission == mission.id@
    &&& one.mission_name == mission.name@
    &&& exists|k: int|
        0 <= k < agents.len() && (mission.state@ == "closed"@ || agents[k].state@ == "archived"@)
            && one.agent == (#[trigger] agents[k]).id@ && one.session == agents[k].session_id@
            && one.agent_name == agents[k].name@ && one.task == agents[k].task@
}

proof fn lemma_with_agents(
    list: Seq<ConversationView>,
    workspace: Seq<char>,
    mission: Mission,
    agents: Seq<Agent>,
)
    ensures
        list.is_prefix_of(with_agents(list, workspace, mission, agents)),
        forall|k: int|
            0 <= k < agents.len() && (mission.state@ == "closed"@ || (#[trigger] agents[k]).state@
                == "archived"@) ==> lists_conversation(
                with_agents(list, workspace, mission, agents),
                agents[k].id@,
            ),
        forall|i: int|
            list.len() <= i < with_agents(list, workspace, mission, agents).len()
                ==> is_ended_conversation(
                #[trigger] with_agents(list, workspace, mission, agents)[i],
                workspace,
                mission,
                agents,
            ),
    decreases agents.len(),
{
    let after = with_agents(list, workspace, mission, agents);
    if agents.len() > 0 {
        let fewer = agents.drop_last();
        let before = with_agents(list, workspace, mission, fewer);
        let last = agents.last();
        lemma_with_agents(list, workspace, mission, fewer);
        if has_ended(mission, last) {
            lemma_with_conversation(before, agent_conversation(workspace, mission, last));
        }
        assert(before.is_prefix_of(after)) by {
            if !has_ended(mission, last) {
                assert(after.take(before.len() as int) =~= before);
            }
        }
        assert(after.take(list.len() as int) =~= before.take(list.len() as int));
        assert forall|k: int| 0 <= k < agents.len() && (mission.state@ == "closed"@ || (
        #[trigger] agents[k]).state@ == "archived"@) implies lists_conversation(
            after,
            agents[k].id@,
        ) by {
            if k < fewer.len() {
                assert(fewer[k] == agents[k]);
                let i = choose|i: int|
                    0 <= i < before.len() && (#[trigger] before[i]).agent == fewer[k].id@;
                assert(after.take(before.len() as int)[i] == before[i]);
                assert(after[i].agent == agents[k].id@);
            } else {
                assert(agents[k] == last);
            }
        }
        assert forall|i: int| list.len() <= i < after.len() implies is_ended_conversation(
            #[trigger] after[i],
            workspace,
            mission,
            agents,
        ) by {
            if i < before.len() {
                assert(after.take(before.len() as int)[i] == before[i]);
                assert(is_ended_conversation(before[i], workspace, mission, fewer));
                let k = choose|k: int|
                    0 <= k < fewer.len() && (mission.state@ == "closed"@ || fewer[k].state@
                        == "archived"@) && before[i].agent == (#[trigger] fewer[k]).id@
                        && before[i].session == fewer[k].session_id@ && before[i].agent_name
                        == fewer[k].name@ && before[i].task == fewer[k].task@;
                assert(agents[k] == fewer[k]);
            } else {
                assert(agents[agents.len() - 1] == last);
            }
        }
    } else {
        assert(after.take(list.len() as int) =~= list);
    }
}

/// The archive lists, for a mission, the conversations of its agents that have ended, with the mission
/// or before it, and that of the leader where the leader led it and it is closed; each names the session,
/// the mission and the task that it is of. What was listed stays where it is.
pub proof fn the_archive_lists_what_has_ended(
    list: Seq<ConversationView>,
    workspace: Seq<char>,
    mission: Mission,
    agents: Seq<Agent>,
    leader: Option<(String, String)>,
    k: int,
)
    requires
        0 <= k < agents.len(),
    ensures
        ({
            let after = with_mission(list, workspace, mission, agents, leader);
            let led = leader is Some && mission.state@ == "closed"@ && mission.lead is Leader;
            &&& list.is_prefix_of(after)
            &&& mission.state@ == "closed"@ || agents[k].state@ == "archived"@ ==> lists_conversation(
                after,
                agents[k].id@,
            )
            &&& led ==> lists_conversation(after, mission.id@ + ":leader"@)
            &&& forall|i: int|
                list.len() <= i < after.len() ==> is_ended_conversation(
                    #[trigger] after[i],
                    workspace,
                    mission,
                    agents,
                ) || (led && after[i].workspace == workspace && after[i].mission == mission.id@
                    && after[i].session == session_of(leader) && after[i].agent_name == name_of(
                    leader,
                ))
        }),
{
    lemma_with_agents(list, workspace, mission, agents);
    let before = with_agents(list, workspace, mission, agents);
    let after = with_mission(list, workspace, mission, agents, leader);
    let led = leader is Some && mission.state@ == "closed"@ && mission.lead is Leader;
    if led {
        let one = leader_conversation(workspace, mission, name_of(leader), session_of(leader));
        lemma_with_conversation(before, one);
        assert(after.take(list.len() as int) =~= before.take(list.len() as int));
        if lists_conversation(before, agents[k].id@) {
            let i = choose|i: int|
                0 <= i < before.len() && (#[trigger] before[i]).agent == agents[k].id@;
            assert(after.take(before.len() as int)[i] == before[i]);
            assert(after[i].agent == agents[k].id@);
        }
    }
    assert forall|i: int| list.len() <= i < before.len() implies #[trigger] after[i]
        == before[i] by {
        assert(after.take(before.len() as int)[i] == before[i]);
    }
}

} // verus!
