//! What keeps machines and sessions apart, whatever their Nodes tell.

use vstd::prelude::*;

use crate::app::{App, lists_host};
use crate::host_table::standing;
use crate::hosts::{HostId, HostTransport, KeyView};
use crate::machines::next_generation;
use crate::node::{NodeCommand, NodeUpdate};
use crate::pointer::pasted;
use crate::presentations::{hosts_keep_their_own_tabs, presented};
use crate::protocol::Snapshot;
use crate::sets::keys_in;
use crate::shell::{fresh_hosts, Shell};
use crate::strip::lists_key;

verus! {

/// The machine that an update is of, and the connection that it came over.
pub open spec fn origin(update: NodeUpdate) -> (Seq<char>, u64) {
    match update {
        NodeUpdate::Snapshot { host_id, generation, .. } => (host_id@, generation),
        NodeUpdate::Error { host_id, generation, .. } => (host_id@, generation),
        NodeUpdate::Archives { host_id, generation, .. } => (host_id@, generation),
        NodeUpdate::ArchiveTail { host_id, generation, .. } => (host_id@, generation),
        NodeUpdate::ArchiveFailed { host_id, generation, .. } => (host_id@, generation),
        NodeUpdate::ArchiveExported { host_id, generation, .. } => (host_id@, generation),
        NodeUpdate::FollowupObjective { host_id, generation, .. } => (host_id@, generation),
        NodeUpdate::FollowupFailed { host_id, generation, .. } => (host_id@, generation),
    }
}

/// An update that came over a connection that another one took the place of changes nothing.
pub proof fn late_updates_change_nothing(shell: Shell, after: Shell, update: NodeUpdate)
    requires
        shell.updated(after, update),
        shell.connected(origin(update).0),
        !shell.current(origin(update).0, origin(update).1),
    ensures
        after == shell,
{
    reveal(Shell::updated);
}

/// What a machine that is not connected tells changes nothing, unless it tells why the connection to
/// it was not made.
pub proof fn unconnected_machines_are_not_heard(shell: Shell, after: Shell, update: NodeUpdate)
    requires
        shell.updated(after, update),
        !shell.connected(origin(update).0),
        update is Error ==> !shell.awaited(origin(update).0, origin(update).1),
    ensures
        after == shell,
{
    reveal(Shell::updated);
}

/// Whether two states of the client agree on a session: on its pane and on what its tab shows.
pub open spec fn agree_on_session(left: Shell, right: Shell, key: KeyView) -> bool {
    &&& lists_key(left.drivers@, key) == lists_key(right.drivers@, key)
    &&& lists_key(left.stale@, key) == lists_key(right.stale@, key)
    &&& lists_key(left.failed@, key) == lists_key(right.failed@, key)
    &&& presented(left.app.tab_presentations@).get(key) == presented(
        right.app.tab_presentations@,
    ).get(key)
}

/// Whether two states of the client agree on all that is of a machine: its connection, its snapshot
/// and its sessions.
pub open spec fn agree_on(left: Shell, right: Shell, host: Seq<char>) -> bool {
    &&& standing(left.runtimes@).get(host) == standing(right.runtimes@).get(host)
    &&& standing(left.snapshots@).get(host) == standing(right.snapshots@).get(host)
    &&& standing(left.generations@).get(host) == standing(right.generations@).get(host)
    &&& lists_host(left.connecting@, host) == lists_host(right.connecting@, host)
    &&& forall|key: KeyView| key.host == host ==> #[trigger] agree_on_session(left, right, key)
}

proof fn lemma_other_keys(before: App, after: App, host: Seq<char>, key: KeyView, snapshot: Snapshot)
    requires
        key.host != host,
    ensures
        before.synced_tabs(after, host, snapshot) ==> presented(after.tab_presentations@).get(key)
            == presented(before.tab_presentations@).get(key),
        before.went_offline(after, host, true) ==> presented(after.tab_presentations@).get(key)
            == presented(before.tab_presentations@).get(key),
{
    hosts_keep_their_own_tabs(
        presented(before.tab_presentations@),
        before.tabs@,
        host,
        snapshot,
        !lists_host(before.live_hosts@, host),
        key,
    );
}

proof fn lemma_snapshot_apart(
    shell: Shell,
    after: Shell,
    host_id: HostId,
    workspace_id: String,
    snapshot: Snapshot,
    request: Option<u64>,
    other: Seq<char>,
)
    requires
        shell.saw_snapshot(after, host_id, workspace_id, snapshot, request),
        other != host_id@,
    ensures
        agree_on(shell, after, other),
{
    let (offered, shown) = choose|offered: App, shown: App| #[trigger]
        shell.app.refreshed_choices(offered, after.snapshots@, fresh_hosts(after.runtimes@))
            && #[trigger] offered.synced_tabs(shown, host_id@, snapshot)
            && shown.chose_requested(host_id).took_if_chosen(
            after.app,
            host_id,
            workspace_id,
            snapshot,
            request,
            shell.stale@,
            shell.failed@,
        );
    assert(after.app.tab_presentations == shown.tab_presentations);
    assert(standing(after.snapshots@).remove(host_id@).get(other) == standing(
        after.snapshots@,
    ).get(other));
    assert(standing(shell.snapshots@).remove(host_id@).get(other) == standing(
        shell.snapshots@,
    ).get(other));
    assert forall|key: KeyView| key.host == other implies #[trigger] agree_on_session(
        shell,
        after,
        key,
    ) by {
        lemma_other_keys(offered, shown, host_id@, key, snapshot);
    }
}

proof fn lemma_error_apart(
    shell: Shell,
    after: Shell,
    host_id: HostId,
    generation: u64,
    message: String,
    fatal: bool,
    request: Option<u64>,
    other: Seq<char>,
)
    requires
        shell.met_error(after, host_id, generation, message, fatal, request),
        other != host_id@,
    ensures
        agree_on(shell, after, other),
{
    if after != shell {
        let (marked, offered) = choose|marked: App, offered: App| #[trigger]
            shell.app.went_offline(marked, host_id@, fatal) && #[trigger] marked.refreshed_choices(
                offered,
                shell.snapshots@,
                fresh_hosts(after.runtimes@),
            ) && after.app == offered.failed_on(host_id@, message, fatal, request);
        assert(after.app.tab_presentations == marked.tab_presentations);
        assert(crate::sets::hosts_in(after.connecting@).contains(other)
            == crate::sets::hosts_in(shell.connecting@).contains(other));
        assert(standing(shell.runtimes@).get(other) == standing(after.runtimes@).get(other));
        assert(lists_host(shell.connecting@, other) == lists_host(after.connecting@, other));
        assert forall|key: KeyView| key.host == other implies #[trigger] agree_on_session(
            shell,
            after,
            key,
        ) by {
            assert(keys_in(after.stale@).contains(key) == keys_in(shell.stale@).contains(key));
            lemma_other_keys(shell.app, marked, host_id@, key, arbitrary());
        }
    }
}

/// An update of one machine changes nothing of another: a machine that goes away, or comes back,
/// leaves the others as they are. Nor does any update change which pane is shown, or a draft that
/// waits.
pub proof fn machines_are_kept_apart(
    shell: Shell,
    after: Shell,
    update: NodeUpdate,
    other: Seq<char>,
)
    requires
        shell.updated(after, update),
        other != origin(update).0,
    ensures
        agree_on(shell, after, other),
        after.active == shell.active,
        after.draft == shell.draft,
        after.drivers == shell.drivers,
{
    reveal(Shell::updated);
    match update {
        NodeUpdate::Snapshot { host_id, generation, workspace_id, snapshot, open_request } => {
            if shell.current(host_id@, generation) {
                lemma_snapshot_apart(
                    shell,
                    after,
                    host_id,
                    workspace_id,
                    snapshot,
                    open_request,
                    other,
                );
            }
        },
        NodeUpdate::Error { host_id, generation, message, fatal, open_request } => {
            lemma_error_apart(
                shell,
                after,
                host_id,
                generation,
                message,
                fatal,
                open_request,
                other,
            );
        },
        _ => {
            assert(after.app.tab_presentations == shell.app.tab_presentations);
        },
    }
}

/// A machine that goes away is no longer connected, and all its panes are stale. Its snapshot is
/// kept, so its workspaces can still be seen.
pub proof fn a_lost_machine_is_remembered(
    shell: Shell,
    after: Shell,
    host_id: HostId,
    generation: u64,
    message: String,
    request: Option<u64>,
    key: KeyView,
)
    requires
        shell.met_error(after, host_id, generation, message, true, request),
        shell.awaited(host_id@, generation),
        shell.current(host_id@, generation),
        lists_key(shell.drivers@, key),
        key.host == host_id@,
    ensures
        !after.connected(host_id@),
        after.snapshots == shell.snapshots,
        lists_key(after.stale@, key),
{
    assert(keys_in(after.stale@).contains(key));
}

/// A draft goes to the pane that is shown, and only where that is the pane of the session it was
/// written for and that session is ready. It is sent once.
pub proof fn a_draft_reaches_its_own_session(
    shell: Shell,
    after: Shell,
    ready: bool,
    sent: Option<Seq<char>>,
)
    requires
        shell.sent_draft(after, ready, sent),
    ensures
        sent is Some ==> ready && after.draft is None && match shell.draft {
            Some((key, draft)) => {
                &&& key@ == shell.active@
                &&& !lists_key(shell.failed@, key@)
                &&& sent == Some(pasted(draft@))
            },
            None => false,
        },
        sent is None ==> after.draft == shell.draft,
{
}

/// What is asked for the archive goes to the machine that is shown, and what is asked for a
/// follow-up to the machine of its mission; and only where that machine is connected.
pub proof fn commands_go_to_their_machine(shell: Shell, after: Shell, command: NodeCommand)
    requires
        shell.loaded_archives(after, Some(command)) || shell.loaded_page(after, Some(command))
            || shell.exported(after, Some(command)) || shell.loaded_objective(
            after,
            Some(command),
        ),
    ensures
        shell.connected(command.host()@),
        command is FollowupObjective ==> shell.app.previews_on(command.host()@),
        !(command is FollowupObjective) ==> command.host() == shell.app.selected_host,
{
    reveal(App::took_archive_load);
}

/// What was bound to a machine that is dropped is gone, and a connection that was being made to it
/// is not taken in once it stands.
pub proof fn a_dropped_machine_starts_anew(
    shell: Shell,
    after: Shell,
    later: Shell,
    host_id: HostId,
    generation: u64,
    transport: HostTransport,
    workspace_root: String,
    command: Option<NodeCommand>,
    key: KeyView,
)
    requires
        shell.dropped_machine(after, host_id),
        shell.awaited(host_id@, generation),
        after.made_connection(later, host_id, generation, transport, workspace_root, command),
        key.host == host_id@,
    ensures
        !after.connected(host_id@),
        after.snapshot_of(host_id@) is None,
        !lists_key(after.drivers@, key),
        !lists_key(after.stale@, key),
        !lists_key(after.failed@, key),
        command is None,
        later == after,
{
    assert(!keys_in(after.drivers@).contains(key));
    assert(!keys_in(after.stale@).contains(key));
    assert(!keys_in(after.failed@).contains(key));
    assert(next_generation(standing(shell.generations@), host_id@) != generation);
}

} // verus!
