//! What holds of what is asked of the machines and told by them, of how the client starts, and of the
//! names that sessions are kept under.

use vstd::prelude::*;
use vstd::string::*;

use crate::app::{lists_host, App, ArchivedConversation, HostFormSubmission};
use crate::diagnostics::settled;
use crate::error::Failure;
use crate::geometry::{ends, Rect};
use crate::host_table::standing;
use crate::hosts::{
    hex_digit, hex_of, updated, HostConnection, HostId, HostStatus, HostTransport, HostUpdate,
    KeyView, ScopedTarget, ScopedView, SessionKey,
};
use crate::input::{KeyCode, KeyEvent};
use crate::json::{json, member_of, number_json, text_member_of, Json};
use crate::keys::{KeyActionView, Surroundings};
use crate::navigation::{agent_of_session, leads_session, mission_in, optional_scoped, successor};
use crate::node::{NodeActor, NodeAnswer, NodeCommand, NodeEvent, NodeUpdate};
use crate::options::Environment;
use crate::panes::unavailable;
use crate::paths::joined;
use crate::presentations::{presented, workspace_name};
use crate::protocol::{label_of, leads, mission_with, workspace_with, Snapshot};
use crate::registry::SavedView;
use crate::remote::home_words;
use crate::requests::{mission_list_members, rpc_failure, tail_members, with_cursor};
use crate::seqs::{first_is_position, position_is_first};
use crate::sessions::{first_size, new_size};
use crate::shell::{fresh_hosts, Runtime, Shell};
use crate::strip::{lists_key, more_label, more_place};
use crate::tabs::tab_with;
use crate::targets::Errand;
use crate::text::{blank, holds, optional, stands_at};
use crate::titles::{agent_in, snapshot_title};

verus! {

/// A page of a conversation is asked for by its own session, fifty entries at a time, from the newest
/// to the oldest; missions are asked for by their own workspace, fifty at a time.
pub proof fn pages_are_asked_of_their_owner(
    workspace: Seq<char>,
    session: Seq<char>,
    cursor: Option<Seq<char>>,
)
    ensures
        text_member_of(with_cursor(tail_members(session), cursor), "sessionId"@) == Some(session),
        text_member_of(with_cursor(tail_members(session), cursor), "direction"@) == Some(
            "backward"@,
        ),
        member_of(with_cursor(tail_members(session), cursor), "limit"@) == Some(number_json(50)),
        text_member_of(with_cursor(mission_list_members(workspace), cursor), "workspaceId"@)
            == Some(workspace),
        member_of(with_cursor(mission_list_members(workspace), cursor), "limit"@) == Some(
            number_json(50),
        ),
        text_member_of(with_cursor(tail_members(session), cursor), "cursor"@) == cursor,
{
    reveal_strlit("sessionId");
    reveal_strlit("direction");
    reveal_strlit("limit");
    reveal_strlit("workspaceId");
    reveal_strlit("cursor");
    assert("sessionId"@.len() == 9 && "sessionId"@[0] == 's');
    assert("direction"@.len() == 9 && "direction"@[0] == 'd');
    assert("limit"@.len() == 5);
    assert("workspaceId"@.len() == 11);
    assert("cursor"@.len() == 6);
}

/// What happens in the work with a Node is told as it happened: a snapshot with the workspace that it
/// was asked for, a failure with its words, the end with its reason. That a workspace was opened is
/// remembered.
pub proof fn an_event_is_told_as_it_happened(
    actor: NodeActor,
    after: NodeActor,
    event: NodeEvent,
    update: Option<NodeUpdate>,
)
    requires
        actor.reported(after, event, update),
        !actor.ended,
    ensures
        after.ended <==> event is Ended,
        event matches NodeEvent::Opened(result) ==> update is None && optional(after.workspace_id)
            == Some(result.workspace.id@),
        event matches NodeEvent::Refreshed { workspace_id: asked, result: Ok(shown) } ==> (
        update matches Some(NodeUpdate::Snapshot { workspace_id, snapshot, open_request, .. })
            && workspace_id@ == asked@ && snapshot == shown && open_request is None),
        event matches NodeEvent::Refreshed { result: Err(words), .. } ==> (update matches Some(
            NodeUpdate::Error { message, fatal, .. },
        ) && message@ == words@ && !fatal),
        event matches NodeEvent::MissionFailed(words) ==> (update matches Some(
            NodeUpdate::Error { message, fatal, .. },
        ) && message@ == words@ && !fatal),
        event matches NodeEvent::Ended(Some(words)) ==> (update matches Some(
            NodeUpdate::Error { message, fatal, .. },
        ) && message@ == words@ && fatal),
        event matches NodeEvent::Ended(None) ==> (update matches Some(
            NodeUpdate::Error { message, fatal, .. },
        ) && message@ == "Neta Node connection closed"@ && fatal),
        update matches Some(NodeUpdate::Error { fatal: true, .. }) ==> event is Ended,
{
    if let NodeEvent::Answered { command, answer } = event {
        if command.host()@ == actor.host_id@ {
            assert(actor.answered(after, command, answer, update));
        }
    }
}

/// The objective that is told is the one that the Node sent for the mission that was asked for.
pub proof fn an_objective_is_told_of_its_mission(
    actor: NodeActor,
    update: NodeUpdate,
    archive: ArchivedConversation,
    response: serde_json::Value,
    mission: Json,
    words: Seq<char>,
)
    requires
        actor.told_objective(update, archive, Ok::<serde_json::Value, String>(response)),
        member_of(json(response), "mission"@) == Some(mission),
        text_member_of(mission, "objective"@) == Some(words),
    ensures
        update matches NodeUpdate::FollowupObjective { host_id, generation, archive: own, objective }
            && host_id == actor.host_id && generation == actor.generation && own == archive
            && objective@ == words,
{
}

/// Where an objective cannot be had, that is told, and why.
pub proof fn a_missing_objective_is_told(
    actor: NodeActor,
    update: NodeUpdate,
    archive: ArchivedConversation,
    error: String,
)
    requires
        actor.told_objective(update, archive, Err::<serde_json::Value, String>(error)),
    ensures
        update matches NodeUpdate::FollowupFailed { host_id, generation, message } && host_id
            == actor.host_id && generation == actor.generation && error@.is_suffix_of(message@),
{
    if let NodeUpdate::FollowupFailed { message, .. } = update {
        assert(error@ =~= message@.skip(message@.len() - error@.len()));
    }
}

/// A wish for a page of the archive becomes one command, for the workspace that is shown and from
/// where the last page ended, with the leader of that workspace; and is then no longer a wish.
pub proof fn a_wish_for_the_archive_becomes_a_command(
    shell: Shell,
    after: Shell,
    command: Option<NodeCommand>,
    workspace: String,
)
    requires
        shell.loaded_archives(after, command),
        shell.app.workspace_id == Some(workspace),
    ensures
        !after.app.archive_load_requested,
        !shell.app.archive_load_requested ==> command is None && after.app.error
            == shell.app.error,
        shell.app.archive_load_requested && shell.connected(shell.app.selected_host@) ==> (
        command matches Some(NodeCommand::LoadArchives { host_id, workspace_id, cursor, leader })
            && host_id == shell.app.selected_host && workspace_id == workspace && cursor
            == shell.app.archive_next_cursor && match (leader, shell.app.snapshot) {
            (Some((name, session)), Some(snapshot)) => exists|i: int|
                0 <= i < snapshot.leaders@.len() && (#[trigger] snapshot.leaders@[i]).workspace_id@
                    == workspace@ && snapshot.leaders@[i].name == name
                    && snapshot.leaders@[i].session_id == session,
            (None, Some(snapshot)) => forall|i: int|
                0 <= i < snapshot.leaders@.len() ==> (#[trigger] snapshot.leaders@[i]).workspace_id@
                    != workspace@,
            (Some(_), None) => false,
            (None, None) => true,
        }),
        shell.app.archive_load_requested && !shell.connected(shell.app.selected_host@) ==> command
            is None && optional(after.app.error) == Some("selected machine is disconnected"@),
        after == (Shell { app: after.app, ..shell }),
{
    reveal(App::took_archive_load);
    if shell.app.archive_load_requested {
        let taken = choose|taken: App| #[trigger]
            shell.app.took_archive_load(taken) && taken.asked_archives(
                after.app,
                shell.connected(shell.app.selected_host@),
                command,
            );
        assert(taken.workspace_id == Some(workspace));
        if let Some(snapshot) = shell.app.snapshot {
            position_is_first(snapshot.leaders@, leads(workspace@), 0);
            let at = crate::seqs::position(snapshot.leaders@, leads(workspace@), 0);
            assert forall|i: int| 0 <= i < at implies (
            #[trigger] snapshot.leaders@[i]).workspace_id@ != workspace@ by {
                assert(!leads(workspace@)(snapshot.leaders@[i]));
            }
        }
    }
}

/// A wish for a page of a saved conversation becomes one command, with the number, the conversation and
/// the cursor that were wished for. Where the machine is gone, nothing is awaited any longer.
pub proof fn a_wish_for_a_page_becomes_a_command(
    shell: Shell,
    after: Shell,
    command: Option<NodeCommand>,
)
    requires
        shell.loaded_page(after, command),
    ensures
        after.app.pending_archive is None,
        shell.app.pending_archive is None ==> command is None,
        shell.app.pending_archive matches Some(request) ==> {
            &&& shell.connected(shell.app.selected_host@) ==> command == Some(
                NodeCommand::LoadArchiveTail {
                    host_id: shell.app.selected_host,
                    request_id: request.id,
                    archive: request.archive,
                    cursor: request.cursor,
                },
            )
            &&& !shell.connected(shell.app.selected_host@) && shell.app.active_archive_request
                == Some(request.id) ==> command is None && !after.app.archive_loading && optional(
                after.app.error,
            ) == Some("selected machine is disconnected"@)
        },
{
    reveal(App::took_page_request);
}

/// A wish for an export becomes one command, for the conversation and the file that were chosen.
pub proof fn a_wish_for_an_export_becomes_a_command(
    shell: Shell,
    after: Shell,
    command: Option<NodeCommand>,
)
    requires
        shell.exported(after, command),
    ensures
        after.app.pending_archive_export is None,
        shell.app.pending_archive_export is None ==> command is None,
        shell.app.pending_archive_export matches Some((chosen, file)) ==> {
            &&& shell.connected(shell.app.selected_host@) ==> (command matches Some(
                NodeCommand::ExportArchive { host_id, archive, path },
            ) && host_id == shell.app.selected_host && archive == chosen && path == file)
            &&& !shell.connected(shell.app.selected_host@) ==> command is None && optional(
                after.app.error,
            ) == Some("selected machine is disconnected"@)
        },
{
    reveal(App::took_export);
}

/// A wish for an objective becomes one command, to the machine of the mission that is followed up.
pub proof fn a_wish_for_an_objective_becomes_a_command(
    shell: Shell,
    after: Shell,
    command: Option<NodeCommand>,
)
    requires
        shell.loaded_objective(after, command),
    ensures
        !after.app.followup_objective_requested,
        !shell.app.followup_objective_requested || shell.app.fixed_preview is None ==> command is None,
        shell.app.fixed_preview matches Some(preview) ==> shell.app.followup_objective_requested ==> {
            &&& shell.connected(preview.host_id@) ==> (command matches Some(
                NodeCommand::FollowupObjective { host_id, archive },
            ) && host_id == preview.host_id && archive == preview.archive)
            &&& !shell.connected(preview.host_id@) ==> command is None && optional(after.app.error)
                == Some("source mission host is disconnected"@)
        },
{
    reveal(App::took_objective_request);
}

/// What a host tells changes its own connection: a snapshot is kept, and shows that the host is there;
/// that it is gone leaves its last snapshot. How it is reached never changes.
pub proof fn a_host_that_is_gone_keeps_its_snapshot<C>(
    before: HostConnection<C>,
    after: HostConnection<C>,
    update: HostUpdate,
)
    requires
        updated(before, after, update),
    ensures
        after.client == before.client,
        after.transport == before.transport,
        update matches HostUpdate::Snapshot { snapshot, .. } ==> after.snapshot == Some(snapshot)
            && after.status is Connected,
        update matches HostUpdate::Disconnected { message, .. } ==> after.snapshot
            == before.snapshot && after.status == (HostStatus::Disconnected { message }),
{
}

/// The value of a hexadecimal digit.
pub open spec fn digit_value(c: char) -> int {
    if '0' <= c <= '9' {
        c as int - '0' as int
    } else {
        c as int - 'a' as int + 10
    }
}

/// Bytes are read back from hexadecimal: each from its two digits, the first of which counts sixteen.
pub proof fn hexadecimal_is_read_back(bytes: Seq<u8>, at: int)
    requires
        0 <= at < bytes.len(),
    ensures
        hex_of(bytes).len() == 2 * bytes.len(),
        digit_value(hex_of(bytes)[2 * at]) * 16 + digit_value(hex_of(bytes)[2 * at + 1])
            == bytes[at],
        '0' <= hex_of(bytes)[2 * at] <= '9' || 'a' <= hex_of(bytes)[2 * at] <= 'f',
{
    let text = hex_of(bytes);
    let byte: int = bytes[at] as int;
    assert((2 * at) / 2 == at && (2 * at) % 2 == 0);
    assert((2 * at + 1) / 2 == at && (2 * at + 1) % 2 == 1);
    assert(text[2 * at] == hex_digit(byte / 16));
    assert(text[2 * at + 1] == hex_digit(byte % 16));
    assert(0 <= byte / 16 < 16 && 0 <= byte % 16 < 16);
    assert(byte == 16 * (byte / 16) + byte % 16);
}

/// The client starts with the session that it is started for: its machine is connected, its pane is
/// the only one and is shown, its tab is the only one, and the list of machines is that of the saved
/// ones behind this one. Nothing is awaited.
pub proof fn the_client_starts_with_its_session(
    shell: Shell,
    workspace_id: String,
    snapshot: Snapshot,
    transport: HostTransport,
    target: ScopedTarget,
    hosts: Seq<SavedView>,
)
    requires
        shell.started(workspace_id, snapshot, transport, target, hosts),
    ensures
        shell.connected("local"@),
        standing(shell.runtimes@)["local"@].transport == transport,
        standing(shell.runtimes@)["local"@].workspace_id == Some(workspace_id),
        shell.drivers@.len() == 1 && shell.drivers@[0] == target.key,
        shell.active == target.key,
        shell.connecting@.len() == 0,
        shell.failed@.len() == 0,
        shell.draft is None,
        snapshot.same(standing(shell.snapshots@)["local"@]),
{
}

/// Requests get numbers in turn, so that the answer to one is never taken for that to the next.
pub proof fn requests_are_numbered_in_turn(last: u64)
    ensures
        last < u64::MAX ==> crate::app::next_number(last) == last + 1,
        crate::app::next_number(last) != last,
{
}

/// A machine that is edited fills the form with what is saved of it, each thing in its own field; this
/// machine cannot be edited.
pub proof fn an_edited_machine_fills_the_form(
    app: App,
    after: App,
    host_id: HostId,
    hosts: Seq<SavedView>,
    at: int,
)
    requires
        app.edited_machine(after, host_id, hosts),
        0 <= at < hosts.len(),
        forall|i: int| 0 <= i < at ==> (#[trigger] hosts[i]).id != hosts[at].id,
    ensures
        host_id@ == "saved:"@ + hosts[at].id ==> {
            &&& after.add_host_form
            &&& after.editing_host == Some(host_id)
            &&& after.error is None
            &&& after.add_host_fields@[0]@ == hosts[at].ssh_destination
            &&& after.add_host_fields@[1]@ == hosts[at].display_name
            &&& after.add_host_fields@[2]@ == hosts[at].remote_neta_dir
            &&& hosts[at].last_remote_workspace_path matches Some(path)
                ==> after.add_host_fields@[3]@ == path
            &&& hosts[at].ssh_config matches Some(config) ==> after.add_host_fields@[4]@ == config
            &&& hosts[at].remote_launcher matches Some(launcher) ==> after.add_host_fields@[5]@
                == launcher.executable
        },
        host_id@ == "local"@ ==> after.add_host_form == app.add_host_form && optional(after.error)
            == Some("Local machine cannot be edited"@),
{
    reveal_strlit("saved:");
    reveal_strlit("local");
    assert("saved:"@.len() == 6 && "local"@.len() == 5);
    if host_id@ == "saved:"@ + hosts[at].id {
        assert(host_id@.take(6) =~= "saved:"@);
        assert(host_id@.skip(6) =~= hosts[at].id);
        first_is_position(hosts, crate::registry::host_with(hosts[at].id), 0, at);
        let fields = crate::text::texts(after.add_host_fields@);
        assert(fields[0] == hosts[at].ssh_destination && fields[1] == hosts[at].display_name
            && fields[2] == hosts[at].remote_neta_dir);
        assert(fields[3] == crate::machines::or_empty(hosts[at].last_remote_workspace_path));
        assert(fields[4] == crate::machines::or_empty(hosts[at].ssh_config));
        assert(fields[5] == match hosts[at].remote_launcher {
            Some(launcher) => launcher.executable,
            None => seq![],
        });
        assert(fields.len() == 6);
    }
}

/// In the list of more tabs every tab names its machine and its workspace behind its own name.
pub proof fn a_listed_tab_names_its_place(app: App, target: ScopedView)
    ensures
        app.tab_name(target).is_prefix_of(app.listed_tab_name(target)),
        app.presentation(target.key) matches Some(shown) ==> (app.host_name(target.key.host)
            + " / "@ + shown.workspace).is_suffix_of(app.listed_tab_name(target)),
        app.presentation(target.key) is None ==> (app.host_name(target.key.host) + " / "@
            + target.target.workspace_id).is_suffix_of(app.listed_tab_name(target)),
{
    let name = app.listed_tab_name(target);
    assert(app.tab_name(target) =~= name.take(app.tab_name(target).len() as int));
    let workspace = match app.presentation(target.key) {
        Some(shown) => shown.workspace,
        None => target.target.workspace_id,
    };
    let tail = app.host_name(target.key.host) + " / "@ + workspace;
    assert(tail =~= name.skip(name.len() - tail.len()));
}

/// The title of the pane says what is known of the session in its tab; of a session of which nothing
/// is known yet it says what its target holds.
pub proof fn the_title_is_that_of_the_shown_session(app: App, target: ScopedView)
    ensures
        app.presentation(target.key) matches Some(shown) ==> app.title_parts(target).workspace
            == shown.workspace && shown.actor.is_prefix_of(app.title_parts(target).actor),
        app.presentation(target.key) is None && app.snapshot is None ==> app.title_parts(
            target,
        ).workspace == target.target.workspace_id && target.target.name.is_prefix_of(
            app.title_parts(target).actor,
        ),
        app.presentation(target.key) matches Some(shown) ==> shown.host.len() > 0
            ==> app.title_host(target) == shown.host,
        app.presentation(target.key) is None ==> app.title_host(target) == app.host_name(
            target.key.host,
        ),
{
    let title = app.title_parts(target);
    if let Some(shown) = app.presentation(target.key) {
        assert(shown.actor =~= title.actor.take(shown.actor.len() as int));
    } else if app.snapshot is None {
        assert(target.target.name =~= title.actor.take(target.target.name.len() as int));
    }
}

/// The header names the workspace that is shown and its leader, and the machine.
pub proof fn the_header_names_what_is_shown(app: App, snapshot: Snapshot, id: Seq<char>, w: int, l: int)
    requires
        app.snapshot == Some(snapshot),
        app.workspace() == Some(id),
        0 <= w < snapshot.workspaces@.len(),
        snapshot.workspaces@[w].id@ == id,
        forall|i: int| 0 <= i < w ==> (#[trigger] snapshot.workspaces@[i]).id@ != id,
        0 <= l < snapshot.leaders@.len(),
        snapshot.leaders@[l].workspace_id@ == id,
        forall|i: int| 0 <= i < l ==> (#[trigger] snapshot.leaders@[i]).workspace_id@ != id,
    ensures
        crate::tabs::header_workspace(app.snapshot, app.workspace())
            == snapshot.workspaces@[w].name@,
        crate::tabs::header_machine(app.snapshot) == snapshot.machine.name@,
        app.header_leader() == "Jump to leader · "@ + snapshot.leaders@[l].name@ + " · "@
            + label_of(snapshot.leaders@[l].state@),
        app.header_counts() == crate::popups::counts_line(
            snapshot.missions@.filter(crate::popups::running_in(Some(id))).len(),
            snapshot.missions@.filter(crate::popups::waiting_in(Some(id))).len(),
        ),
{
    first_is_position(snapshot.workspaces@, workspace_with(id), 0, w);
    first_is_position(snapshot.leaders@, leads(id), 0, l);
}

/// In the copy view nothing but the pane has a place; leaving it gives the keys to the spine.
pub proof fn the_copy_view_leaves_nothing_to_click(app: App, entered: App, left: App)
    requires
        app.entered_copy_view(entered),
        entered.left_copy_view(left),
    ensures
        entered.copy_view && !entered.nav_focused && !entered.picker && !entered.help,
        entered.tab_hitboxes@.len() == 0 && entered.row_hitboxes@.len() == 0
            && entered.tab_close_hitboxes@.len() == 0 && entered.overflow_tab_hitboxes@.len() == 0,
        entered.overflow_hitbox is None && entered.status_filter_hitbox is None,
        !left.copy_view && left.nav_focused,
        left.tabs == app.tabs && left.active_target == app.active_target,
{
}

/// Drawing the screen keeps the places of what was drawn: of the rows of the spine, and, where the pane
/// is shown, of its tabs; the pane itself stands below its tabs and its title.
pub proof fn what_was_drawn_can_be_clicked(app: App, after: App, layout: crate::geometry::ScreenLayout)
    requires
        app.shown_on(after, layout),
    ensures
        after.row_hitboxes@ == app.spine_places(layout.sidebar),
        after.status_filter_hitbox == Some(app.filter_place(layout.sidebar)),
        after.sidebar_area == layout.sidebar,
        !app.reads_archive() && !layout.pane.bare() ==> {
            &&& after.tab_hitboxes@ == app.tab_places(crate::strip::tabs_row(layout.pane))
            &&& after.tab_close_hitboxes@ == app.tab_close_places(
                crate::strip::tabs_row(layout.pane),
            )
            &&& after.pane_area == crate::geometry::below_tabs(layout.pane)
            &&& after.hidden_tab_ids@ == app.hidden_keys(crate::strip::tabs_row(layout.pane))
            &&& !app.tab_overflow_open ==> after.overflow_tab_hitboxes@.len() == 0
        },
        !app.reads_archive() && layout.pane.bare() ==> after.tab_hitboxes@.len() == 0
            && after.tab_close_hitboxes@.len() == 0,
        after.tabs == app.tabs && after.cursor == app.cursor && after.active_target
            == app.active_target,
{
}

/// A session whose pane was lost with its machine comes back with it: where its workspace is still the
/// one that is shown and the new snapshot knows it, it is asked for again; where it does not, the
/// leader of the workspace is asked for.
pub proof fn a_lost_session_is_asked_for_again(
    app: App,
    after: App,
    host_id: HostId,
    workspace_id: String,
    snapshot: Snapshot,
    request: Option<u64>,
    stale: Seq<SessionKey>,
    failed: Seq<SessionKey>,
    agent: int,
)
    requires
        app.took_snapshot(after, host_id, workspace_id, snapshot, request, stale, failed),
        workspace_id@.len() > 0,
        app.workspace() == Some(workspace_id@),
        app.active_target is Some,
        app.active_target->0.key.host_id@ == host_id@,
        lists_key(stale, app.active_target->0.key@),
        !lists_key(failed, app.active_target->0.key@),
    ensures
        ({
            let lost = app.active_target->0;
            &&& 0 <= agent < snapshot.agents@.len() && snapshot.agents@[agent].session_id@
                == lost.target.session_id@ && mission_in(
                snapshot.missions@,
                snapshot.agents@[agent].mission_id@,
                lost.target.workspace_id@,
            ) ==> after.pending_target == Some(lost)
            &&& 0 <= agent < snapshot.leaders@.len() && snapshot.leaders@[agent].session_id@
                == lost.target.session_id@ && snapshot.leaders@[agent].workspace_id@
                == lost.target.workspace_id@ ==> after.pending_target == Some(lost)
            &&& (forall|i: int|
                0 <= i < snapshot.agents@.len() ==> (#[trigger] snapshot.agents@[i]).session_id@
                    != lost.target.session_id@) && (forall|i: int|
                0 <= i < snapshot.leaders@.len() ==> (#[trigger] snapshot.leaders@[i]).session_id@
                    != lost.target.session_id@) ==> optional_scoped(after.pending_target)
                == after.leader()
        }),
{
    let lost = app.active_target->0;
    let workspace = lost.target.workspace_id@;
    let session = lost.target.session_id@;
    let wanted = agent_of_session(snapshot.missions@, workspace, session);
    let leading = leads_session(workspace, session);
    position_is_first(snapshot.agents@, wanted, 0);
    position_is_first(snapshot.leaders@, leading, 0);
    if 0 <= agent < snapshot.agents@.len() && snapshot.agents@[agent].session_id@ == session
        && mission_in(snapshot.missions@, snapshot.agents@[agent].mission_id@, workspace) {
        assert(wanted(snapshot.agents@[agent]));
    }
    if 0 <= agent < snapshot.leaders@.len() && snapshot.leaders@[agent].session_id@ == session
        && snapshot.leaders@[agent].workspace_id@ == workspace {
        assert(leading(snapshot.leaders@[agent]));
    }
}

/// Of a session that no tab shows yet, the title of the pane says what the snapshot of its machine
/// does: the workspace by its name, and the agent of the session by its own, with its mission.
pub proof fn a_title_names_the_agent_of_its_session(
    target: ScopedView,
    snapshot: Snapshot,
    at: int,
    mission: int,
)
    requires
        0 <= at < snapshot.agents@.len(),
        snapshot.agents@[at].session_id@ == target.target.session_id,
        forall|i: int|
            0 <= i < at ==> (#[trigger] snapshot.agents@[i]).session_id@
                != target.target.session_id,
        0 <= mission < snapshot.missions@.len(),
        snapshot.missions@[mission].id@ == snapshot.agents@[at].mission_id@,
        forall|i: int|
            0 <= i < mission ==> (#[trigger] snapshot.missions@[i]).id@
                != snapshot.agents@[at].mission_id@,
    ensures
        ({
            let title = snapshot_title(target, snapshot);
            &&& title.mission == snapshot.missions@[mission].name@
            &&& snapshot.agents@[at].name@.is_prefix_of(title.actor)
            &&& label_of(snapshot.agents@[at].state@).is_suffix_of(title.actor)
            &&& title.workspace == workspace_name(
                snapshot.workspaces@,
                target.target.workspace_id,
            )
        }),
{
    let agent = snapshot.agents@[at];
    first_is_position(snapshot.agents@, agent_in(target.target.session_id), 0, at);
    first_is_position(snapshot.missions@, mission_with(agent.mission_id@), 0, mission);
    let actor = snapshot_title(target, snapshot).actor;
    let word = label_of(agent.state@);
    assert(agent.name@ =~= actor.take(agent.name@.len() as int));
    assert(word =~= actor.skip(actor.len() - word.len()));
}

/// Whatever can be run to start the Node on this machine, or is handed to that, is looked for.
pub proof fn what_is_run_is_looked_for(environment: Environment)
    ensures
        environment.candidates().contains(environment.script()),
        environment.node_executable matches Some(program) ==> environment.candidates().contains(
            program@,
        ),
        environment.home matches Some(home) ==> home@.len() > 0
            ==> environment.candidates().contains(joined(home@, ".bun/bin/bun"@)),
{
    let all = environment.candidates();
    assert(all[0] == environment.script());
    if environment.node_executable is Some {
        assert(all[1] == environment.node_executable->0@);
    }
    if let Some(home) = environment.home {
        if home@.len() > 0 {
            assert(all[all.len() - 1] == joined(home@, ".bun/bin/bun"@));
        }
    }
}

/// What a Node tells of saved conversations is shown: that a page cannot be had, with the reason, and
/// nothing is awaited any longer; that a file was written, with its place; why an objective cannot be
/// had. The failure of a page that is not awaited changes nothing.
pub proof fn failures_and_exports_are_shown(before: App, after: App, update: NodeUpdate)
    requires
        Shell::told_by(before, after, update),
    ensures
        update matches NodeUpdate::ArchiveFailed { request_id, message, .. } ==> {
            &&& before.active_archive_request == Some(request_id) ==> !after.archive_loading
                && after.error == Some(message) && after.saved_transcript == before.saved_transcript
            &&& before.active_archive_request != Some(request_id) ==> after == before
        },
        update matches NodeUpdate::ArchiveExported { path, .. } ==> after.error is Some
            && path@.is_suffix_of(after.error->0@) && after.saved_transcript
            == before.saved_transcript,
        update matches NodeUpdate::FollowupFailed { host_id, message, .. } ==> (before.fixed_preview
            matches Some(preview) && preview.host_id@ == host_id@) ==> after.error == Some(message),
{
    if let NodeUpdate::ArchiveExported { path, .. } = update {
        let words = after.error->0@;
        assert(path@ =~= words.skip(words.len() - path@.len()));
    }
}

/// What could not be asked of a machine is told with the reason. A page that is not awaited any more
/// tells nothing, nor does an objective where no mission is followed up; one that is awaited is no
/// longer.
pub proof fn what_could_not_be_asked_is_told(app: App, after: App, errand: Errand, error: Seq<char>)
    requires
        app.refused(after, errand, error),
    ensures
        errand is Machine || errand is Workspace || errand is Export ==> after.error is Some
            && error.is_suffix_of(after.error->0@),
        errand matches Errand::Page(request_id) ==> {
            &&& app.active_archive_request == Some(request_id) ==> !after.archive_loading
                && after.error is Some && error.is_suffix_of(after.error->0@)
            &&& app.active_archive_request != Some(request_id) ==> after == app
        },
        errand is Objective && app.fixed_preview is Some ==> after.error is Some
            && error.is_suffix_of(after.error->0@),
        errand is Objective && app.fixed_preview is None ==> after == app,
        after.active_target == app.active_target && after.tabs == app.tabs,
{
    if after != app {
        let words = after.error->0@;
        assert(error =~= words.skip(words.len() - error.len()));
    }
}

/// A session that cannot be opened changes neither the panes nor which of them is shown: that is told
/// with the name of the session and the reason, and the tab of the pane that was shown is shown again.
pub proof fn a_session_that_cannot_be_opened_is_told(
    shell: Shell,
    after: Shell,
    name: Seq<char>,
    error: Seq<char>,
    at: int,
)
    requires
        shell.stayed(after, name, error),
        lists_key(shell.drivers@, shell.active@),
        0 <= at < shell.app.tabs@.len(),
        shell.app.tabs@[at].key@ == shell.active@,
        forall|i: int| 0 <= i < at ==> (#[trigger] shell.app.tabs@[i]).key@ != shell.active@,
    ensures
        after.active == shell.active,
        after.drivers == shell.drivers,
        after.failed == shell.failed,
        after.draft == shell.draft,
        after.app.tabs == shell.app.tabs,
        after.app.active_target == Some(shell.app.tabs@[at]),
        optional(after.app.error) == Some("cannot open Pi target "@ + name + ": "@ + error),
{
    reveal(App::went_back);
    first_is_position(shell.app.tabs@, tab_with(shell.active@), 0, at);
}

/// That an export of a saved conversation failed is told, with the reason, and not as the end.
pub proof fn a_failed_export_is_told(
    actor: NodeActor,
    after: NodeActor,
    command: NodeCommand,
    error: String,
    update: Option<NodeUpdate>,
)
    requires
        command is ExportArchive,
        actor.answered(
            after,
            command,
            NodeAnswer::Exported(Err::<(), String>(error)),
            update,
        ),
    ensures
        update matches Some(NodeUpdate::Error { message, fatal, open_request, .. }) && !fatal
            && open_request is None && error@.is_suffix_of(message@),
        after == actor,
{
    if let Some(NodeUpdate::Error { message, .. }) = update {
        assert(error@ =~= message@.skip(message@.len() - error@.len()));
    }
}

/// An export of diagnostics asks exactly the machines that are connected and have a fresh snapshot, and
/// names every machine by its id and its label.
pub proof fn only_machines_that_are_there_are_asked(
    shell: Shell,
    at: int,
    input: (Seq<char>, Seq<char>, Option<Seq<char>>),
)
    requires
        shell.diagnosed(at, input),
        0 <= at < shell.app.hosts@.len(),
    ensures
        input.0 == shell.app.hosts@[at].id@,
        input.1 == shell.app.hosts@[at].label@,
        !shell.connected(shell.app.hosts@[at].id@) ==> input.2 is Some,
        shell.connected(shell.app.hosts@[at].id@) ==> (input.2 is None <==> standing(
            shell.runtimes@,
        )[shell.app.hosts@[at].id@].fresh),
{
}

/// A tab that no other tab looks like does not name its machine.
pub proof fn a_tab_of_its_own_looks_leaves_its_machine_out(app: App, target: ScopedView)
    requires
        app.presentation(target.key) is Some,
        forall|i: int|
            0 <= i < app.tabs@.len() && (#[trigger] app.tabs@[i]).key@ != target.key ==> (
            app.presentation(app.tabs@[i].key@) matches Some(other) ==> other.actor
                != app.presentation(target.key)->0.actor),
    ensures
        !app.has_double(target.key, app.presentation(target.key)->0),
{
    let shown = presented(app.tab_presentations@);
    let own = app.presentation(target.key)->0;
    if app.has_double(target.key, own) {
        let i = choose|i: int|
            0 <= i < app.tabs@.len() && (#[trigger] app.tabs@[i]).key@ != target.key
                && shown.contains_key(app.tabs@[i].key@) && crate::titles::look_alike(
                shown[app.tabs@[i].key@],
                own,
            );
        assert(app.presentation(app.tabs@[i].key@) == Some(shown[app.tabs@[i].key@]));
    }
}

/// The end of the opening of a project is taken in only for the request that is under way: where it was
/// opened, the picker is closed and the keys go to the pane; where it was not, the reason is told and
/// the picker stays.
pub proof fn only_the_awaited_opening_ends(app: App, request: u64, error: Option<String>)
    ensures
        app.pending_open != Some(request) ==> app.ended_opening(request, error) == app,
        app.pending_open == Some(request) ==> {
            let after = app.ended_opening(request, error);
            &&& after.pending_open is None
            &&& after.error == error
            &&& error is None ==> !after.picker && !after.nav_focused
            &&& error is Some ==> after.picker == app.picker && after.nav_focused
                == app.nav_focused
        },
{
}

/// An export succeeds exactly where it was made and cleaned up after; every failure is told, and a
/// failure to clean up behind any other.
pub proof fn an_export_succeeds_when_it_is_cleaned_up<T>(
    result: Result<T, String>,
    cleanup: Result<(), String>,
    outcome: Result<T, String>,
)
    requires
        settled(result, cleanup, outcome),
    ensures
        outcome is Ok <==> result is Ok && cleanup is Ok,
        outcome is Ok ==> outcome == result,
        result matches Err(error) ==> error@.is_prefix_of(outcome->Err_0@),
        cleanup matches Err(error) ==> error@.is_suffix_of(outcome->Err_0@),
{
    if outcome is Err {
        let words = outcome->Err_0@;
        if let Err(error) = result {
            assert(error@ =~= words.take(error@.len() as int));
        }
        if let Err(error) = cleanup {
            assert(error@ =~= words.skip(words.len() - error@.len()));
        }
    }
}

/// A pane is given the size of its area, once: it starts with it, and is then told only of another one.
/// An area with fewer than two columns or rows is no size for a pane.
pub proof fn a_pane_gets_the_size_of_its_area(area: Rect, known: Option<(u16, u16)>)
    ensures
        new_size(area, known) matches Some(size) ==> size == (area.width, area.height) && known
            != Some(size) && new_size(area, Some(size)) is None && first_size(area) == size,
        new_size(area, known) is None && area.width >= 2 && area.height >= 2 ==> known == Some(
            (area.width, area.height),
        ),
        area.width < 2 || area.height < 2 ==> new_size(area, known) is None,
        first_size(area).0 >= 2 && first_size(area).1 >= 2,
        area.width >= 2 ==> first_size(area).0 == area.width,
        area.height >= 2 ==> first_size(area).1 == area.height,
        area.width < 2 ==> first_size(area).0 == 2,
        area.height < 2 ==> first_size(area).1 == 2,
{
}

/// In the picker the arrows move the cursor, up towards the start and down towards the end; what is
/// typed is put behind what was typed, and Backspace takes its last character away.
pub proof fn the_picker_is_moved_through_and_typed_in(
    app: App,
    after: App,
    action: KeyActionView,
    key: KeyEvent,
    around: Surroundings,
)
    requires
        app.picker_keyed(after, action, key, around),
        !(app.host_picker && (app.remove_host_confirmation is Some || app.add_host_form)),
        app.host_picker || !app.picker_path_mode,
        app.hosts@.len() < usize::MAX,
        app.offers().len() < usize::MAX,
    ensures
        ({
            let last: int = if app.host_picker {
                app.hosts@.len() as int
            } else {
                app.offers().len() - 1
            };
            &&& key.code is Up && 0 < app.picker_cursor <= last ==> after.picker_cursor
                == app.picker_cursor - 1
            &&& key.code is Up && app.picker_cursor == 0 ==> after.picker_cursor == 0
            &&& key.code is Down && app.picker_cursor < last ==> after.picker_cursor
                == app.picker_cursor + 1
            &&& key.code is Down && app.picker_cursor == last ==> after.picker_cursor
                == app.picker_cursor
            &&& key.code is Up || key.code is Down ==> after.picker_input == app.picker_input
                && action is Handled
            &&& key.code is Backspace && app.picker_input@.len() > 0 ==> after.picker_input@
                == app.picker_input@.drop_last() && after.picker_cursor == 0
            &&& key.code matches KeyCode::Char(c) ==> !app.host_picker && !key.modifiers.control
                && !key.modifiers.alt && !key.modifiers.other ==> after.picker_input@
                == app.picker_input@.push(c)
                && after.picker_cursor == 0
        }),
{
}

/// A machine counts as there exactly where it has a fresh snapshot.
pub proof fn only_fresh_machines_count_as_there(runtimes: Seq<(HostId, Runtime)>, host: Seq<char>)
    ensures
        lists_host(fresh_hosts(runtimes), host) <==> exists|i: int|
            0 <= i < runtimes.len() && (#[trigger] runtimes[i]).0@ == host && runtimes[i].1.fresh,
    decreases runtimes.len(),
{
    if runtimes.len() > 0 {
        let rest = runtimes.drop_last();
        let before = fresh_hosts(rest);
        let all = fresh_hosts(runtimes);
        only_fresh_machines_count_as_there(rest, host);
        if lists_host(all, host) {
            let k = choose|k: int| 0 <= k < all.len() && (#[trigger] all[k])@ == host;
            if k < before.len() {
                assert(before[k] == all[k]);
                let i = choose|i: int|
                    0 <= i < rest.len() && (#[trigger] rest[i]).0@ == host && rest[i].1.fresh;
                assert(runtimes[i] == rest[i]);
            } else {
                assert(runtimes[runtimes.len() - 1].0@ == host);
            }
        }
        if exists|i: int|
            0 <= i < runtimes.len() && (#[trigger] runtimes[i]).0@ == host && runtimes[i].1.fresh {
            let i = choose|i: int|
                0 <= i < runtimes.len() && (#[trigger] runtimes[i]).0@ == host
                    && runtimes[i].1.fresh;
            if i < rest.len() {
                assert(rest[i] == runtimes[i]);
                let k = choose|k: int| 0 <= k < before.len() && (#[trigger] before[k])@ == host;
                assert(all[k] == before[k]);
            } else {
                assert(all[before.len() as int]@ == host);
            }
        }
    }
}

/// Where the home directory of a machine cannot be found, the form is shown again as it was filled in,
/// for the same machine, with the reason; and none is looked for any longer.
pub proof fn a_form_comes_back_where_no_home_is_found(
    app: App,
    after: App,
    request: u64,
    submission: HostFormSubmission,
    error: String,
)
    requires
        app.found_home(after, request, submission, Err::<String, String>(error)),
    ensures
        app.add_host_form && app.host_discovery_request == Some(request) ==> {
            &&& after.add_host_form
            &&& after.editing_host == submission.editing
            &&& after.add_host_fields == submission.fields
            &&& after.host_discovery_request is None
            &&& after.pending_add_host == app.pending_add_host
            &&& after.error is Some && error@.is_suffix_of(after.error->0@)
        },
        !app.add_host_form || app.host_discovery_request != Some(request) ==> after == app,
{
    reveal(App::ended_search);
    reveal(App::missed_home);
    if app.add_host_form && app.host_discovery_request == Some(request) {
        let words = after.error->0@;
        assert(error@ =~= words.skip(words.len() - error@.len()));
    }
}

/// A pane that works again takes the news that it does not away, and no other news.
pub proof fn a_pane_that_works_takes_its_error_away(app: App, works: bool)
    ensures
        !works ==> app.without_pane_error(works) == app,
        app.error is None ==> app.without_pane_error(works) == app,
        app.error matches Some(error) ==> works && unavailable().is_prefix_of(error@)
            ==> app.without_pane_error(works).error is None,
        app.error matches Some(error) ==> !unavailable().is_prefix_of(error@)
            ==> app.without_pane_error(works) == app,
{
    reveal(App::without_pane_error);
}

/// The client can start wherever a directory is known, no other machine is named, and both the program
/// and the script that the Node is started with are there. A program that is named is run; where none
/// is, it is the Bun of the home directory.
pub proof fn the_client_starts_where_everything_is_there(environment: Environment, program: Seq<char>)
    requires
        environment.remote_destination is None,
        environment.directory() is Some,
        environment.is_file(environment.script()),
        environment.is_file(program),
        environment.node_executable matches Some(named) ==> named@ == program,
        environment.node_executable is None ==> (environment.home matches Some(home) && home@.len()
            > 0 && program == joined(home@, ".bun/bin/bun"@)),
    ensures
        environment.options() matches Ok(options) && options.launcher.executable == program
            && options.launcher.args == seq![environment.script(), "node"@, "start"@]
            && options.neta_dir == environment.directory()->0 && options.remote is None,
{
}

/// When machines come and go, those that are there are known at once.
pub proof fn what_is_there_is_known_at_once(
    app: App,
    after: App,
    snapshots: Seq<(HostId, Snapshot)>,
    live: Seq<HostId>,
    host: Seq<char>,
)
    requires
        app.refreshed_choices(after, snapshots, live),
    ensures
        lists_host(after.live_hosts@, host) <==> lists_host(live, host),
        after.tabs == app.tabs && after.selected_host == app.selected_host && after.picker
            == app.picker && after.picker_input == app.picker_input,
        after.selected_host@ == host ==> (after.offline() <==> !lists_host(live, host)),
{
}

/// A tab that is closed closes the list of more tabs with it, and leaves every other tab.
pub proof fn closing_a_tab_leaves_the_others(app: App, after: App, key: KeyView, at: int)
    requires
        app.closed_tab(after, key),
        0 <= at < app.tabs@.len(),
        app.tabs@[at].key@ == key,
        forall|i: int| 0 <= i < at ==> (#[trigger] app.tabs@[i]).key@ != key,
    ensures
        !after.tab_overflow_open,
        after.tabs@ == app.tabs@.take(at) + app.tabs@.skip(at + 1),
        after.presentation(key) is None,
{
    first_is_position(app.tabs@, tab_with(key), 0, at);
    assert(app.tabs@.remove(at) =~= app.tabs@.take(at) + app.tabs@.skip(at + 1));
}

/// An error that a Node sends keeps its number, its words and its symbol; what is missing is filled in.
pub proof fn an_error_keeps_its_number(
    error: Json,
    number: int,
    written: Seq<char>,
    words: Seq<char>,
    data: Json,
)
    requires
        member_of(error, "code"@) == Some(Json::Number { written, integer: Some(number) }),
        i64::MIN <= number <= i64::MAX,
        text_member_of(error, "message"@) == Some(words),
        member_of(error, "data"@) == Some(data),
    ensures
        rpc_failure(error) == (Failure::Rpc {
            code: number as i64,
            message: words,
            symbol: text_member_of(data, "code"@),
        }),
        rpc_failure(Json::Null) == (Failure::Rpc {
            code: (-32603) as i64,
            message: "malformed RPC error"@,
            symbol: None,
        }),
{
}

/// A session that a new snapshot of its machine has under another id is asked for under that one; one
/// that is still there as it was is not asked for again, nor is one of another machine.
pub proof fn a_session_is_asked_for_under_its_new_id(
    app: App,
    host: Seq<char>,
    current: Snapshot,
    next: Snapshot,
)
    requires
        app.active_target is Some,
        app.snapshot == Some(current),
        app.snapshot_host is Some,
    ensures
        ({
            let active = app.active_target->0@;
            let found = successor(current, next, active);
            &&& active.key.host == host && app.snapshot_host->0@ == host && found is Some
                && found->0.key != active.key ==> app.rebound(host, next) == found
            &&& found is Some && found->0.key == active.key ==> app.rebound(host, next) is None
            &&& active.key.host != host ==> app.rebound(host, next) is None
        }),
{
}

/// Where there is no room for some tabs, and a column is left, the sign for them stands behind the last
/// tab, in the same row and within the line; where there is room for all, there is none.
pub proof fn the_sign_for_more_tabs_stands_behind_them(area: Rect, x: u16, hidden: nat)
    requires
        ends(area),
        area.x <= x,
    ensures
        hidden == 0 ==> more_place(area, x, hidden) is None,
        hidden > 0 && x < area.x + area.width ==> (more_place(area, x, hidden) matches Some(place)
            && place.x == x && place.y == area.y && place.width > 0 && x + place.width <= area.x
            + area.width && (place.width == more_label(hidden).len() || x + place.width == area.x
            + area.width)),
{
    reveal_strlit(" +");
}

/// News of an export of a saved conversation is shown over it; other errors are not.
pub proof fn news_of_an_export_is_shown(app: App, before: Seq<char>, behind: Seq<char>)
    requires
        app.error is Some,
    ensures
        app.error->0@ == before + "archive export"@ + behind ==> app.archive_message() == Some(
            app.error->0@,
        ),
        app.error->0@ == before + "archived session"@ + behind ==> app.archive_message() == Some(
            app.error->0@,
        ),
        app.archive_message() matches Some(words) ==> words == app.error->0@ && (holds(
            words,
            "archive export"@,
        ) || holds(words, "archived session"@)),
{
    let words = app.error->0@;
    let at: int = before.len() as int;
    if words == before + "archive export"@ + behind {
        assert(words.subrange(at, at + "archive export"@.len()) =~= "archive export"@);
        assert(stands_at(words, "archive export"@, at));
    }
    if words == before + "archived session"@ + behind {
        assert(words.subrange(at, at + "archived session"@.len()) =~= "archived session"@);
        assert(stands_at(words, "archived session"@, at));
    }
}

/// The home directory of a machine is asked for with the configuration that was named for it, where one
/// was, and at its own destination.
pub proof fn a_home_is_asked_for_at_its_machine(
    config: Option<Seq<char>>,
    destination: Seq<char>,
)
    ensures
        ({
            let words = home_words(config, destination);
            &&& config matches Some(file) ==> !blank(file) ==> words[0] == "-F"@ && words[1] == file
            &&& config is None || blank(config->0) ==> words == home_words(None, destination)
            &&& words.contains(destination)
        }),
{
    let words = home_words(config, destination);
    let last = words.len() - 2;
    assert(words[last] == destination || words[words.len() - 1] == destination);
}

} // verus!
