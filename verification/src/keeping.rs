//! What holds of the machines that are saved, of the workspaces that are offered, and of what tabs
//! are called.

use vstd::prelude::*;
use vstd::string::*;

use crate::app::{lists_host, App, HostChoice};
use crate::host_table::standing;
use crate::hosts::{HostId, KeyView, ScopedTarget, ScopedView};
use crate::labels::{clipped_labels_fit, waits_for_person};
use crate::navigation::{agent_of_session, leads_session};
use crate::popups::{running_in, waiting_in};
use crate::presentations::{
    gone_offline, presentation_of, presented, workspace_name, PresentationView,
};
use crate::protocol::{
    label_of, mission_with, workspace_with, Mission, MissionLead, Snapshot, Workspace,
};
use crate::registry::{
    changed, consistent, endpoint_taken, host_with, insert_fault, known, update_fault, Change,
    SavedView,
};
use crate::roster::{choices, machine_list};
use crate::seqs::{find, first_is_position, position, position_is_first};
use crate::sets::{hosts_in, key_on_host, keys_in, keys_on};
use crate::shell::Shell;
use crate::strip::lists_key;
use crate::text::blank;
use crate::titles::{configured_label, known_title, tab_suffix, title_line, TitleView};
use crate::workspaces::{
    all_choices, choice_before, choice_of, machine_choices, machine_label, ChoiceView,
};

verus! {

/// A host can be saved exactly where it has an id, a name, a destination that `ssh` cannot take for an
/// option, a directory, and, if it has a launcher, one that can be run.
pub proof fn a_host_is_saved_when_it_is_whole(host: SavedView)
    ensures
        host.fault() is None <==> {
            &&& !blank(host.id)
            &&& !blank(host.display_name)
            &&& host.ssh_destination.len() > 0
            &&& host.ssh_destination[0] != '-'
            &&& forall|i: int|
                0 <= i < host.ssh_destination.len() ==> !crate::text::control(
                    #[trigger] host.ssh_destination[i],
                )
            &&& host.remote_neta_dir.len() > 0
            &&& host.remote_launcher matches Some(launcher) ==> launcher.executable.len() > 0
        },
{
}

/// Two saved hosts are the same endpoint where they name the same destination, configuration and
/// directory, whatever else they say; with another destination they never are.
pub proof fn an_endpoint_is_where_a_host_is(left: SavedView, right: SavedView)
    ensures
        left.ssh_destination == right.ssh_destination && left.ssh_config == right.ssh_config
            && left.remote_neta_dir == right.remote_neta_dir ==> left.endpoint()
            == right.endpoint(),
        left.ssh_destination != right.ssh_destination ==> left.endpoint() != right.endpoint(),
        (left.ssh_config is Some) != (right.ssh_config is Some) ==> left.endpoint()
            != right.endpoint(),
        crate::paths::components(left.remote_neta_dir) != crate::paths::components(
            right.remote_neta_dir,
        ) ==> left.endpoint() != right.endpoint(),
{
}

/// A host that is added can be found by its id, and stands behind all that were there.
pub proof fn an_added_host_is_found(hosts: Seq<SavedView>, host: SavedView)
    requires
        insert_fault(hosts, host) is None,
    ensures
        changed(hosts, Change::Insert(host)) == hosts.push(host),
        find(hosts.push(host), host_with(host.id)) == Some(host),
        forall|i: int| 0 <= i < hosts.len() ==> (#[trigger] hosts[i]).id != host.id
            && hosts[i].endpoint() != host.endpoint(),
{
    let all = hosts.push(host);
    assert forall|i: int| 0 <= i < hosts.len() implies (#[trigger] hosts[i]).id != host.id
        && hosts[i].endpoint() != host.endpoint() by {
        if hosts[i].id == host.id {
            assert(known(hosts, host.id));
        }
        if hosts[i].endpoint() == host.endpoint() {
            assert(endpoint_taken(hosts, host, None));
        }
    }
    assert forall|i: int| 0 <= i < hosts.len() implies !#[trigger] host_with(host.id)(all[i]) by {
        assert(all[i] == hosts[i]);
    }
    assert(all[hosts.len() as int] == host);
    first_is_position(all, host_with(host.id), 0, hosts.len() as int);
}

/// A host that is edited stays in its place under its id, and no other host is changed by it. Another
/// id is refused, and so is the endpoint of another host.
pub proof fn an_edited_host_keeps_its_place(
    hosts: Seq<SavedView>,
    id: Seq<char>,
    host: SavedView,
    at: int,
)
    requires
        consistent(hosts),
        0 <= at < hosts.len(),
        update_fault(hosts, id, host) is None,
    ensures
        host.id == id,
        changed(hosts, Change::Update(id, host)).len() == hosts.len(),
        hosts[at].id == id ==> changed(hosts, Change::Update(id, host))[at] == host,
        hosts[at].id != id ==> changed(hosts, Change::Update(id, host))[at] == hosts[at]
            && hosts[at].endpoint() != host.endpoint(),
{
    let place = position(hosts, host_with(id), 0);
    position_is_first(hosts, host_with(id), 0);
    let i = choose|i: int| 0 <= i < hosts.len() && (#[trigger] hosts[i]).id == id;
    assert(host_with(id)(hosts[i]));
    assert(place <= i);
    assert(host_with(id)(hosts[place]));
    if hosts[at].id == id {
        if place < at {
            assert(hosts[place].id != hosts[at].id);
        } else if at < place {
            assert(host_with(id)(hosts[at]));
        }
    } else if hosts[at].endpoint() == host.endpoint() {
        assert(endpoint_taken(hosts, host, Some(id)));
    }
}

/// The list of machines starts with this one; each saved host follows in its place, under its name.
pub proof fn the_list_starts_with_this_machine(hosts: Seq<SavedView>, at: int)
    requires
        0 <= at < hosts.len(),
    ensures
        machine_list(hosts).len() == hosts.len() + 1,
        machine_list(hosts)[0] == ("local"@, "Local machine"@),
        machine_list(hosts)[at + 1] == ("saved:"@ + hosts[at].id, hosts[at].display_name),
{
}

/// A machine that is dropped takes nothing of another one along: its connection, its snapshot and its
/// panes stay. Where a pane of the dropped machine was shown, one of this machine takes its place.
pub proof fn dropping_a_machine_leaves_the_others(
    shell: Shell,
    after: Shell,
    host_id: HostId,
    other: Seq<char>,
    key: KeyView,
)
    requires
        shell.dropped_machine(after, host_id),
        other != host_id@,
        key.host == other,
    ensures
        standing(after.runtimes@).get(other) == standing(shell.runtimes@).get(other),
        standing(after.snapshots@).get(other) == standing(shell.snapshots@).get(other),
        standing(after.generations@).get(other) == standing(shell.generations@).get(other),
        lists_host(after.connecting@, other) == lists_host(shell.connecting@, other),
        lists_key(after.drivers@, key) == lists_key(shell.drivers@, key),
        lists_key(after.stale@, key) == lists_key(shell.stale@, key),
        lists_key(after.failed@, key) == lists_key(shell.failed@, key),
        shell.active.host_id@ == other ==> after.active == shell.active,
        shell.active.host_id@ == host_id@ && lists_key(after.drivers@, after.active@) ==> (
        after.active.host_id@ == "local"@ || after.active == shell.active),
        after.draft == shell.draft,
{
    assert(hosts_in(after.connecting@).contains(other) == hosts_in(shell.connecting@).contains(
        other,
    ));
    assert(keys_in(after.drivers@).contains(key) == keys_in(shell.drivers@).contains(key));
    assert(keys_in(after.stale@).contains(key) == keys_in(shell.stale@).contains(key));
    assert(keys_in(after.failed@).contains(key) == keys_in(shell.failed@).contains(key));
    position_is_first(after.drivers@, key_on_host("local"@), 0);
}

/// Where the pane that is shown is of a machine that is dropped, and this machine has a pane, one of
/// this machine is shown in its place.
pub proof fn this_machine_takes_the_place_of_a_dropped_one(
    shell: Shell,
    after: Shell,
    host_id: HostId,
    here: KeyView,
)
    requires
        shell.dropped_machine(after, host_id),
        shell.active.host_id@ == host_id@,
        host_id@ != "local"@,
        here.host == "local"@,
        lists_key(shell.drivers@, here),
    ensures
        shell.keeps_pane(after, host_id),
        after.active.host_id@ == "local"@,
        lists_key(shell.drivers@, after.active@),
        lists_key(after.drivers@, after.active@),
{
    assert(keys_in(shell.drivers@).contains(here));
    assert(keys_in(after.drivers@).contains(here));
    let i = choose|i: int| 0 <= i < after.drivers@.len() && (#[trigger] after.drivers@[i])@ == here;
    position_is_first(after.drivers@, key_on_host("local"@), 0);
    let at = position(after.drivers@, key_on_host("local"@), 0);
    assert(key_on_host("local"@)(after.drivers@[i]));
    assert(at < after.drivers@.len());
    assert(after.active == after.drivers@[at]);
    assert(lists_key(after.drivers@, after.active@));
    assert(keys_in(after.drivers@).contains(after.active@));
    assert(keys_in(shell.drivers@).contains(after.active@));
}

/// A machine that is saved anew changes nothing but the form, which is closed, and the list, in which
/// the cursor stands on its end.
pub proof fn a_new_machine_ends_the_form(
    shell: Shell,
    after: Shell,
    host_id: HostId,
    hosts: Seq<SavedView>,
    kept: bool,
)
    requires
        shell.saved_machine(after, host_id, false, hosts, kept),
    ensures
        kept,
        !after.app.add_host_form,
        after.app.editing_host is None,
        after.app.picker == shell.app.picker,
        after.app.hosts@.len() == hosts.len() + 1,
        after.app.picker_cursor == hosts.len() as usize,
        after.runtimes == shell.runtimes,
        after.drivers == shell.drivers,
        after.active == shell.active,
{
    assert(choices(after.app.hosts@).len() == machine_list(hosts).len());
}

/// A machine that is edited or forgotten is no longer connected, and its panes are gone; a machine
/// that is forgotten stands in the list no longer, which is said.
pub proof fn a_forgotten_machine_is_gone(
    shell: Shell,
    after: Shell,
    host_id: HostId,
    hosts: Seq<SavedView>,
    kept: bool,
    key: KeyView,
)
    requires
        shell.forgot_machine(after, host_id, hosts, kept) || shell.saved_machine(
            after,
            host_id,
            true,
            hosts,
            kept,
        ),
        key.host == host_id@,
    ensures
        !after.connected(host_id@),
        !lists_key(after.drivers@, key),
        kept ==> choices(after.app.hosts@) == machine_list(hosts),
        shell.active.host_id@ != host_id@ ==> kept && after.active == shell.active,
{
    let mid = if shell.forgot_machine(after, host_id, hosts, kept) {
        choose|mid: Shell| #[trigger]
            shell.dropped_machine(mid, host_id) && kept == shell.keeps_pane(mid, host_id) && after
                == (Shell { app: after.app, ..mid }) && if kept {
                mid.app.told_forgotten(after.app, hosts)
            } else {
                after.app == mid.app
            }
    } else {
        choose|mid: Shell| #[trigger]
            shell.dropped_machine(mid, host_id) && kept == shell.keeps_pane(mid, host_id) && after
                == (Shell { app: after.app, ..mid }) && if kept {
                mid.app.ended_form(after.app, hosts)
            } else {
                after.app == mid.app
            }
    };
    assert(!standing(mid.runtimes@).contains_key(host_id@));
    assert(keys_on(host_id@).contains(key));
    assert(!keys_in(mid.drivers@).contains(key));
}

proof fn lemma_machine_choice(
    hosts: Seq<HostChoice>,
    live: Seq<HostId>,
    host: Seq<char>,
    snapshot: Snapshot,
    count: int,
    at: int,
)
    requires
        0 <= at < count <= snapshot.workspaces@.len(),
        snapshot.workspaces@[at].roots@.len() > 0,
    ensures
        machine_choices(hosts, live, host, snapshot, count).contains(
            choice_of(hosts, live, host, snapshot, snapshot.workspaces@[at]),
        ),
    decreases count,
{
    let before = machine_choices(hosts, live, host, snapshot, count - 1);
    let all = machine_choices(hosts, live, host, snapshot, count);
    let wanted = choice_of(hosts, live, host, snapshot, snapshot.workspaces@[at]);
    if at == count - 1 {
        assert(all[before.len() as int] == wanted);
    } else {
        lemma_machine_choice(hosts, live, host, snapshot, count - 1, at);
        let k = choose|k: int| 0 <= k < before.len() && before[k] == wanted;
        assert(all[k] == wanted);
    }
}

/// Every workspace with a directory, of every machine of which there is a snapshot, is offered: under
/// its name and its first directory, with its own machine, and as connected where that is there.
pub proof fn every_workspace_is_offered(
    hosts: Seq<HostChoice>,
    live: Seq<HostId>,
    snapshots: Seq<(HostId, Snapshot)>,
    machine: int,
    at: int,
)
    requires
        0 <= machine < snapshots.len(),
        0 <= at < snapshots[machine].1.workspaces@.len(),
        snapshots[machine].1.workspaces@[at].roots@.len() > 0,
    ensures
        exists|choice: ChoiceView| #[trigger]
            all_choices(hosts, live, snapshots).contains(choice) && choice.host
                == snapshots[machine].0@ && choice.workspace
                == snapshots[machine].1.workspaces@[at].id@ && choice.name
                == snapshots[machine].1.workspaces@[at].name@ && choice.path
                == snapshots[machine].1.workspaces@[at].roots@[0].path@ && (choice.connected
                <==> lists_host(live, choice.host)),
    decreases snapshots.len(),
{
    let last = snapshots.len() - 1;
    let before = all_choices(hosts, live, snapshots.drop_last());
    let (host, snapshot) = snapshots.last();
    let own = machine_choices(hosts, live, host@, snapshot, snapshot.workspaces@.len() as int);
    let all = all_choices(hosts, live, snapshots);
    assert(all == before + own);
    if machine == last {
        lemma_machine_choice(
            hosts,
            live,
            host@,
            snapshot,
            snapshot.workspaces@.len() as int,
            at,
        );
        let choice = choice_of(hosts, live, host@, snapshot, snapshot.workspaces@[at]);
        let k = choose|k: int| 0 <= k < own.len() && own[k] == choice;
        assert(all[before.len() + k] == choice);
        assert(all.contains(choice));
    } else {
        let rest = snapshots.drop_last();
        assert(rest[machine] == snapshots[machine]);
        every_workspace_is_offered(hosts, live, rest, machine, at);
        let choice = choose|choice: ChoiceView| #[trigger]
            before.contains(choice) && choice.host == snapshots[machine].0@ && choice.workspace
                == snapshots[machine].1.workspaces@[at].id@ && choice.name
                == snapshots[machine].1.workspaces@[at].name@ && choice.path
                == snapshots[machine].1.workspaces@[at].roots@[0].path@ && (choice.connected
                <==> lists_host(live, choice.host));
        let k = choose|k: int| 0 <= k < before.len() && before[k] == choice;
        assert(all[k] == choice);
        assert(all.contains(choice));
    }
}

/// Whether a choice stands for a workspace with a directory of a machine.
pub open spec fn stands_for(choice: ChoiceView, machine: (HostId, Snapshot), at: int) -> bool {
    &&& 0 <= at < machine.1.workspaces@.len()
    &&& machine.1.workspaces@[at].roots@.len() > 0
    &&& choice.host == machine.0@
    &&& choice.workspace == machine.1.workspaces@[at].id@
}

proof fn lemma_machine_choice_stands(
    hosts: Seq<HostChoice>,
    live: Seq<HostId>,
    machine: (HostId, Snapshot),
    count: int,
    k: int,
)
    requires
        0 <= count <= machine.1.workspaces@.len(),
        0 <= k < machine_choices(hosts, live, machine.0@, machine.1, count).len(),
    ensures
        exists|at: int| #[trigger]
            stands_for(machine_choices(hosts, live, machine.0@, machine.1, count)[k], machine, at),
    decreases count,
{
    let all = machine_choices(hosts, live, machine.0@, machine.1, count);
    let before = machine_choices(hosts, live, machine.0@, machine.1, count - 1);
    if k < before.len() {
        lemma_machine_choice_stands(hosts, live, machine, count - 1, k);
        assert(all[k] == before[k]);
    } else {
        assert(stands_for(all[k], machine, count - 1));
    }
}

/// Nothing is offered but workspaces with a directory, each of the machine that it is offered for.
pub proof fn only_workspaces_are_offered(
    hosts: Seq<HostChoice>,
    live: Seq<HostId>,
    snapshots: Seq<(HostId, Snapshot)>,
    k: int,
)
    requires
        0 <= k < all_choices(hosts, live, snapshots).len(),
    ensures
        exists|machine: int, at: int|
            0 <= machine < snapshots.len() && #[trigger] stands_for(
                all_choices(hosts, live, snapshots)[k],
                snapshots[machine],
                at,
            ),
    decreases snapshots.len(),
{
    let rest = snapshots.drop_last();
    let before = all_choices(hosts, live, rest);
    let all = all_choices(hosts, live, snapshots);
    if k < before.len() {
        only_workspaces_are_offered(hosts, live, rest, k);
        let (machine, at) = choose|machine: int, at: int|
            0 <= machine < rest.len() && #[trigger] stands_for(before[k], rest[machine], at);
        assert(rest[machine] == snapshots[machine]);
        assert(stands_for(all[k], snapshots[machine], at));
    } else {
        let last = snapshots.last();
        lemma_machine_choice_stands(
            hosts,
            live,
            last,
            last.1.workspaces@.len() as int,
            k - before.len(),
        );
        let own = machine_choices(hosts, live, last.0@, last.1, last.1.workspaces@.len() as int);
        let at = choose|at: int| #[trigger] stands_for(own[k - before.len()], last, at);
        assert(stands_for(all[k], snapshots[snapshots.len() - 1], at));
    }
}

/// A mission counts for its own workspace only: as running where it runs, and as one that needs a
/// person where it waits for one.
pub proof fn missions_count_for_their_workspace(
    missions: Seq<Mission>,
    mission: Mission,
    workspace: Seq<char>,
)
    ensures
        missions.push(mission).filter(running_in(Some(workspace))).len() == missions.filter(
            running_in(Some(workspace)),
        ).len() + (if mission.workspace_id@ == workspace && mission.state@ == "running"@ {
            1int
        } else {
            0int
        }),
        missions.push(mission).filter(waiting_in(Some(workspace))).len() == missions.filter(
            waiting_in(Some(workspace)),
        ).len() + (if mission.workspace_id@ == workspace && waits_for_person(mission.state@) {
            1int
        } else {
            0int
        }),
        Seq::<Mission>::empty().filter(running_in(Some(workspace))).len() == 0,
        Seq::<Mission>::empty().filter(waiting_in(Some(workspace))).len() == 0,
{
    reveal(Seq::filter);
    assert(missions.push(mission).drop_last() =~= missions);
}

/// Workspaces are offered by their names first; of those with one name, by the machines.
pub proof fn workspaces_are_offered_by_name(left: ChoiceView, right: ChoiceView)
    ensures
        left.name != right.name ==> (choice_before()(left, right) <==> crate::order::text_before(
            left.name,
            right.name,
        )),
        left.name == right.name && left.host_label != right.host_label ==> (choice_before()(
            left,
            right,
        ) <==> crate::order::text_before(left.host_label, right.host_label)),
{
}

/// Beside its workspaces a machine is called by its own name; a label that says something else follows
/// it.
pub proof fn a_machine_is_called_by_its_name(
    hosts: Seq<HostChoice>,
    host: Seq<char>,
    machine: Seq<char>,
    at: int,
)
    requires
        0 <= at < hosts.len(),
        hosts[at].id@ == host,
        forall|i: int| 0 <= i < at ==> (#[trigger] hosts[i]).id@ != host,
    ensures
        machine.is_prefix_of(machine_label(hosts, host, machine)),
        hosts[at].label@.is_suffix_of(machine_label(hosts, host, machine)),
        configured_label(hosts, host) == hosts[at].label@,
        hosts[at].label@ == machine ==> machine_label(hosts, host, machine) == machine,
{
    first_is_position(hosts, crate::titles::host_with(host), 0, at);
    let label = machine_label(hosts, host, machine);
    let own = hosts[at].label@;
    if own != machine {
        assert(machine =~= label.take(machine.len() as int));
        assert(own =~= label.skip(label.len() - own.len()));
    }
}

/// The tab of a session shows what the snapshot says of it: the agent of that session in the workspace
/// of the tab, by its name and its state, with its mission; it is called the lead only where the
/// mission names it as that.
pub proof fn a_tab_shows_its_own_agent(
    tab: ScopedView,
    snapshot: Snapshot,
    offline: bool,
    at: int,
    mission: int,
)
    requires
        0 <= at < snapshot.agents@.len(),
        0 <= mission < snapshot.missions@.len(),
        snapshot.agents@[at].session_id@ == tab.target.session_id,
        forall|i: int|
            0 <= i < at ==> (#[trigger] snapshot.agents@[i]).session_id@ != tab.target.session_id,
        snapshot.agents@[at].mission_id@ == snapshot.missions@[mission].id@,
        forall|i: int|
            0 <= i < mission ==> (#[trigger] snapshot.missions@[i]).id@
                != snapshot.agents@[at].mission_id@,
        snapshot.missions@[mission].workspace_id@ == tab.target.workspace_id,
    ensures
        ({
            let shown = presentation_of(tab, snapshot, offline);
            let agent = snapshot.agents@[at];
            let own = snapshot.missions@[mission];
            &&& shown.actor == agent.name@
            &&& shown.state == label_of(agent.state@)
            &&& shown.mission == Some(own.name@)
            &&& shown.mission_number == Some(own.number)
            &&& shown.role == "Mission lead"@ <==> (own.lead matches MissionLead::Agent {
                agent_id,
            } && agent_id@ == agent.id@)
            &&& shown.host == snapshot.machine.name@
            &&& shown.offline == offline
        }),
{
    let wanted = agent_of_session(
        snapshot.missions@,
        tab.target.workspace_id,
        tab.target.session_id,
    );
    assert(snapshot.missions@[mission].id@ == snapshot.agents@[at].mission_id@);
    first_is_position(snapshot.agents@, wanted, 0, at);
    first_is_position(
        snapshot.missions@,
        mission_with(snapshot.agents@[at].mission_id@),
        0,
        mission,
    );
    reveal_strlit("Mission lead");
    reveal_strlit("Agent");
    assert("Mission lead"@.len() == 12 && "Agent"@.len() == 5);
}

/// The tab of a session that no agent has shows the leader of that session, and none of another
/// workspace.
pub proof fn a_tab_shows_its_own_leader(tab: ScopedView, snapshot: Snapshot, offline: bool, at: int)
    requires
        0 <= at < snapshot.leaders@.len(),
        snapshot.leaders@[at].session_id@ == tab.target.session_id,
        snapshot.leaders@[at].workspace_id@ == tab.target.workspace_id,
        forall|i: int|
            0 <= i < at ==> (#[trigger] snapshot.leaders@[i]).session_id@ != tab.target.session_id,
        forall|i: int|
            0 <= i < snapshot.agents@.len() ==> (#[trigger] snapshot.agents@[i]).session_id@
                != tab.target.session_id,
    ensures
        ({
            let shown = presentation_of(tab, snapshot, offline);
            &&& shown.actor == snapshot.leaders@[at].name@
            &&& shown.role == "Workspace leader"@
            &&& shown.state == label_of(snapshot.leaders@[at].state@)
            &&& shown.mission is None
            &&& shown.mission_number is None
            &&& shown.host == snapshot.machine.name@
            &&& shown.offline == offline
        }),
{
    let wanted = agent_of_session(
        snapshot.missions@,
        tab.target.workspace_id,
        tab.target.session_id,
    );
    first_is_position(snapshot.agents@, wanted, 0, snapshot.agents@.len() as int);
    first_is_position(
        snapshot.leaders@,
        leads_session(tab.target.workspace_id, tab.target.session_id),
        0,
        at,
    );
}

/// A workspace is called by its name, where the snapshot knows it, and by its id otherwise.
pub proof fn a_workspace_is_called_by_its_name(workspaces: Seq<Workspace>, id: Seq<char>, at: int)
    requires
        0 <= at <= workspaces.len(),
        at < workspaces.len() ==> workspaces[at].id@ == id,
        forall|i: int| 0 <= i < at ==> (#[trigger] workspaces[i]).id@ != id,
    ensures
        workspace_name(workspaces, id) == (if at < workspaces.len() {
            workspaces[at].name@
        } else {
            id
        }),
{
    first_is_position(workspaces, workspace_with(id), 0, at);
}

/// When a machine goes away, every tab of it is marked, and keeps all else that it showed.
pub proof fn a_lost_machine_marks_its_tabs(
    before: Map<KeyView, PresentationView>,
    tabs: Seq<ScopedTarget>,
    at: int,
)
    requires
        0 <= at < tabs.len(),
        before.contains_key(tabs[at]@.key),
    ensures
        ({
            let key = tabs[at]@.key;
            let after = gone_offline(before, tabs, key.host);
            &&& after.contains_key(key)
            &&& after[key].offline
            &&& after[key].actor == before[key].actor
            &&& after[key].state == before[key].state
            &&& after[key].role == before[key].role
            &&& after[key].mission == before[key].mission
            &&& after[key].workspace == before[key].workspace
            &&& after[key].host == before[key].host
        }),
    decreases tabs.len(),
{
    let key = tabs[at]@.key;
    lemma_gone_keeps(before, tabs.drop_last(), key);
    if at < tabs.len() - 1 {
        assert(tabs.drop_last()[at] == tabs[at]);
        a_lost_machine_marks_its_tabs(before, tabs.drop_last(), at);
    }
}

proof fn lemma_gone_keeps(
    before: Map<KeyView, PresentationView>,
    tabs: Seq<ScopedTarget>,
    key: KeyView,
)
    requires
        before.contains_key(key),
    ensures
        gone_offline(before, tabs, key.host).contains_key(key),
        ({
            let after = gone_offline(before, tabs, key.host)[key];
            after == before[key] || after == (PresentationView { offline: true, ..before[key] })
        }),
    decreases tabs.len(),
{
    if tabs.len() > 0 {
        lemma_gone_keeps(before, tabs.drop_last(), key);
    }
}

/// What a tab is called tells who works there and in what state; that its machine is gone is told in
/// the place of the state. The machine is named exactly where another tab looks the same.
pub proof fn a_tab_is_called_by_its_actor(app: App, target: ScopedView)
    requires
        app.presentation(target.key) is Some,
    ensures
        ({
            let shown = app.presentation(target.key)->0;
            let name = app.tab_name(target);
            &&& shown.actor.is_prefix_of(name)
            &&& !app.has_double(target.key, shown) && shown.offline ==> "OFFLINE"@.is_suffix_of(
                name,
            )
            &&& !app.has_double(target.key, shown) && !shown.offline && shown.mission_number is Some
                ==> shown.state.is_suffix_of(name)
            &&& app.has_double(target.key, shown) ==> (" @"@ + app.host_name(
                target.key.host,
            )).is_suffix_of(name)
            &&& !app.has_double(target.key, shown) ==> name == shown.actor + " · "@ + tab_suffix(
                shown,
            )
        }),
{
    let shown = app.presentation(target.key)->0;
    let name = app.tab_name(target);
    let suffix = tab_suffix(shown);
    assert(shown.actor =~= name.take(shown.actor.len() as int));
    if app.has_double(target.key, shown) {
        let host = " @"@ + app.host_name(target.key.host);
        assert(host =~= name.skip(name.len() - host.len()));
    } else {
        let word = if shown.offline {
            "OFFLINE"@
        } else {
            shown.state
        };
        if shown.offline || shown.mission_number is Some {
            assert(word =~= suffix.skip(suffix.len() - word.len()));
            assert(word =~= name.skip(name.len() - word.len()));
        }
    }
}

/// Two tabs that would be called the same are told apart by their machines: both name theirs.
pub proof fn tabs_that_look_alike_name_their_machines(app: App, left: int, right: int)
    requires
        0 <= left < app.tabs@.len(),
        0 <= right < app.tabs@.len(),
        app.tabs@[left].key@ != app.tabs@[right].key@,
        app.presentation(app.tabs@[left].key@) is Some,
        app.presentation(app.tabs@[right].key@) is Some,
        ({
            let a = app.presentation(app.tabs@[left].key@)->0;
            let b = app.presentation(app.tabs@[right].key@)->0;
            a.actor == b.actor && a.mission_number == b.mission_number && a.state == b.state
                && a.offline == b.offline
        }),
    ensures
        app.has_double(
            app.tabs@[left].key@,
            app.presentation(app.tabs@[left].key@)->0,
        ),
        app.has_double(
            app.tabs@[right].key@,
            app.presentation(app.tabs@[right].key@)->0,
        ),
{
    let shown = presented(app.tab_presentations@);
    assert(shown.contains_key(app.tabs@[left].key@));
    assert(shown.contains_key(app.tabs@[right].key@));
}

/// On a narrow tab the state is what stays: the name is cut, and the tab ends with its state, as long
/// as there is room for that; and the label never takes more than its room, but for the sign between
/// name and state.
pub proof fn a_narrow_tab_keeps_its_state(app: App, target: ScopedView, width: nat)
    requires
        app.presentation(target.key) is Some,
    ensures
        ({
            let suffix = tab_suffix(app.presentation(target.key)->0);
            let short = app.short_tab_name(target, width);
            &&& width <= suffix.len() || suffix.len() + 3 <= width ==> short.len() <= width
            &&& app.tab_name(target).len() <= width ==> short == app.tab_name(target)
            &&& app.tab_name(target).len() > width > suffix.len() ==> suffix.is_suffix_of(short)
        }),
{
    let shown = app.presentation(target.key)->0;
    let suffix = tab_suffix(shown);
    let short = app.short_tab_name(target, width);
    let host = "@"@ + app.host_name(target.key.host);
    reveal_strlit(" ");
    reveal_strlit(" · ");
    let kept = suffix.len() + 3;
    let with_host = kept + host.len() + 1;
    clipped_labels_fit(suffix, width);
    if width > with_host {
        clipped_labels_fit(shown.actor, (width - with_host) as nat);
    }
    if width > kept {
        clipped_labels_fit(shown.actor, (width - kept) as nat);
    }
    clipped_labels_fit(shown.actor, 0);
    if app.tab_name(target).len() > width && width > suffix.len() {
        assert(suffix =~= short.skip(short.len() - suffix.len()));
    }
}

/// The title of a wide pane names the workspace, the machine, the mission and the actor, in this order.
pub proof fn a_wide_title_names_everything(title: TitleView, host: Seq<char>, width: u16)
    requires
        width >= 52,
        title.workspace.len() + host.len() + title.mission.len() + title.actor.len() + 15 <= width,
    ensures
        title_line(title, host, width) == " "@ + title.workspace + " / "@ + host + " / "@
            + title.mission + " / "@ + title.actor + " "@,
{
    reveal_strlit(" ");
    reveal_strlit(" / ");
}

/// The title of a tab says of its mission the number and the name, of its actor the role and the
/// state, and that its machine is gone in the place of the state.
pub proof fn a_title_says_what_its_tab_shows(shown: PresentationView)
    ensures
        known_title(shown).workspace == shown.workspace,
        shown.mission matches Some(mission) ==> mission.is_suffix_of(known_title(shown).mission),
        shown.mission is None ==> known_title(shown).mission == "Workspace leader"@,
        (shown.actor + " · "@ + shown.role).is_prefix_of(known_title(shown).actor),
        shown.offline ==> "OFFLINE"@.is_suffix_of(known_title(shown).actor),
        !shown.offline ==> shown.state.is_suffix_of(known_title(shown).actor),
{
    let title = known_title(shown);
    if shown.mission is Some {
        let mission = shown.mission->0;
        assert(mission =~= title.mission.skip(title.mission.len() - mission.len()));
    }
    let start = shown.actor + " · "@ + shown.role;
    assert(start =~= title.actor.take(start.len() as int));
    let word = if shown.offline {
        "OFFLINE"@
    } else {
        shown.state
    };
    assert(word =~= title.actor.skip(title.actor.len() - word.len()));
}

} // verus!
