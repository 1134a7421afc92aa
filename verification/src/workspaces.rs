//! The workspaces that can be chosen, of all machines that were ever seen.

use vstd::prelude::*;
use vstd::string::*;

use crate::app::{has_host, lists_host, App, HostChoice, WorkspaceChoice};
use crate::hosts::HostId;
use crate::order::{
    in_order, is_before, lemma_text_order, sort, sorted, sorting_commutes_with_looking,
    sorting_orders, text_before,
};
use crate::picker::{followed_cursor, offered};
use crate::popups::{count_running, count_waiting, running_in, waiting_in};
use crate::protocol::{Snapshot, Workspace};
use crate::seqs::find;
use crate::text::{concat3, same_text};
use crate::titles::{find_host, host_with};

verus! {

/// What a workspace to choose from shows.
#[verifier::ext_equal]
pub struct ChoiceView {
    pub host: Seq<char>,
    pub workspace: Seq<char>,
    pub name: Seq<char>,
    pub path: Seq<char>,
    pub host_label: Seq<char>,
    pub connected: bool,
    pub running: nat,
    pub needs_you: nat,
}

impl View for WorkspaceChoice {
    type V = ChoiceView;

    open spec fn view(&self) -> ChoiceView {
        ChoiceView {
            host: self.host_id@,
            workspace: self.workspace_id@,
            name: self.name@,
            path: self.path@,
            host_label: self.host_label@,
            connected: self.connected,
            running: self.running as nat,
            needs_you: self.needs_you as nat,
        }
    }
}

/// What the workspaces of a list show.
pub open spec fn choice_views(choices: Seq<WorkspaceChoice>) -> Seq<ChoiceView> {
    choices.map_values(|choice: WorkspaceChoice| choice@)
}

/// What a machine is called beside its workspaces: by its own name, and by its label behind it where
/// that differs.
pub open spec fn machine_label(hosts: Seq<HostChoice>, host: Seq<char>, machine: Seq<char>) -> Seq<
    char,
> {
    match find(hosts, host_with(host)) {
        Some(choice) => if choice.label@ == machine {
            machine
        } else {
            machine + " · "@ + choice.label@
        },
        None => machine,
    }
}

fn write_machine_label(hosts: &Vec<HostChoice>, host_id: &HostId, machine: &str) -> (label: String)
    ensures
        label@ == machine_label(hosts@, host_id@, machine@),
{
    match find_host(hosts, host_id) {
        Some(at) => if same_text(&hosts[at].label, machine) {
            machine.to_owned()
        } else {
            concat3(machine, " · ", &hosts[at].label)
        },
        None => machine.to_owned(),
    }
}

/// What a workspace of a machine shows. One without a directory cannot be chosen.
pub open spec fn choice_of(
    hosts: Seq<HostChoice>,
    live: Seq<HostId>,
    host: Seq<char>,
    snapshot: Snapshot,
    workspace: Workspace,
) -> ChoiceView {
    ChoiceView {
        host,
        workspace: workspace.id@,
        name: workspace.name@,
        path: workspace.roots@[0].path@,
        host_label: machine_label(hosts, host, snapshot.machine.name@),
        connected: lists_host(live, host),
        running: snapshot.missions@.filter(running_in(Some(workspace.id@))).len(),
        needs_you: snapshot.missions@.filter(waiting_in(Some(workspace.id@))).len(),
    }
}

/// The first workspaces of a machine that can be chosen.
pub open spec fn machine_choices(
    hosts: Seq<HostChoice>,
    live: Seq<HostId>,
    host: Seq<char>,
    snapshot: Snapshot,
    count: int,
) -> Seq<ChoiceView>
    decreases count,
{
    if count <= 0 {
        seq![]
    } else {
        let before = machine_choices(hosts, live, host, snapshot, count - 1);
        let workspace = snapshot.workspaces@[count - 1];
        if workspace.roots@.len() > 0 {
            before.push(choice_of(hosts, live, host, snapshot, workspace))
        } else {
            before
        }
    }
}

/// The workspaces of all machines that can be chosen.
pub open spec fn all_choices(
    hosts: Seq<HostChoice>,
    live: Seq<HostId>,
    snapshots: Seq<(HostId, Snapshot)>,
) -> Seq<ChoiceView>
    decreases snapshots.len(),
{
    if snapshots.len() == 0 {
        seq![]
    } else {
        let (host, snapshot) = snapshots.last();
        all_choices(hosts, live, snapshots.drop_last()) + machine_choices(
            hosts,
            live,
            host@,
            snapshot,
            snapshot.workspaces@.len() as int,
        )
    }
}

/// Workspaces by their names, then by their machines and by their ids.
pub open spec fn choice_before() -> spec_fn(ChoiceView, ChoiceView) -> bool {
    |left: ChoiceView, right: ChoiceView| is_choice_before(left, right)
}

/// Whether a workspace stands before another.
pub open spec fn is_choice_before(left: ChoiceView, right: ChoiceView) -> bool {
    if left.name != right.name {
        text_before(left.name, right.name)
    } else if left.host_label != right.host_label {
        text_before(left.host_label, right.host_label)
    } else if left.host != right.host {
        text_before(left.host, right.host)
    } else {
        text_before(left.workspace, right.workspace)
    }
}

/// The workspaces that are offered: all that can be chosen, in order.
pub open spec fn listed_choices(
    hosts: Seq<HostChoice>,
    live: Seq<HostId>,
    snapshots: Seq<(HostId, Snapshot)>,
) -> Seq<ChoiceView> {
    sorted(all_choices(hosts, live, snapshots), choice_before())
}

/// The list of workspaces is in order and holds every workspace that can be chosen, and nothing
/// else.
pub proof fn workspaces_are_listed_in_order(
    hosts: Seq<HostChoice>,
    live: Seq<HostId>,
    snapshots: Seq<(HostId, Snapshot)>,
)
    ensures
        in_order(listed_choices(hosts, live, snapshots), choice_before()),
        listed_choices(hosts, live, snapshots).to_multiset() == all_choices(
            hosts,
            live,
            snapshots,
        ).to_multiset(),
{
    assert forall|a: ChoiceView, b: ChoiceView| #[trigger] choice_before()(a, b) implies !choice_before()(b, a) by {
        lemma_choice_order(a, b, a);
    }
    assert forall|a: ChoiceView, b: ChoiceView, c: ChoiceView|
        #![trigger choice_before()(b, a), choice_before()(c, b)]
        !choice_before()(b, a) && !choice_before()(c, b) implies !choice_before()(c, a) by {
        lemma_choice_order(a, b, c);
    }
    sorting_orders(all_choices(hosts, live, snapshots), choice_before());
}

proof fn lemma_choice_order(a: ChoiceView, b: ChoiceView, c: ChoiceView)
    ensures
        is_choice_before(a, b) ==> !is_choice_before(b, a),
        !is_choice_before(b, a) && !is_choice_before(c, b) ==> !is_choice_before(c, a),
{
    lemma_text_order(a.name, b.name, c.name);
    lemma_text_order(a.host_label, b.host_label, c.host_label);
    lemma_text_order(a.host, b.host, c.host);
    lemma_text_order(a.workspace, b.workspace, c.workspace);
}

fn does_stand_before(left: &WorkspaceChoice, right: &WorkspaceChoice) -> (yes: bool)
    ensures
        yes == is_choice_before(left@, right@),
{
    if !same_text(&left.name, &right.name) {
        return is_before(&left.name, &right.name);
    }
    if !same_text(&left.host_label, &right.host_label) {
        return is_before(&left.host_label, &right.host_label);
    }
    if left.host_id != right.host_id {
        return is_before(left.host_id.as_str(), right.host_id.as_str());
    }
    is_before(&left.workspace_id, &right.workspace_id)
}

fn sort_choices(choices: Vec<WorkspaceChoice>) -> (list: Vec<WorkspaceChoice>)
    ensures
        choice_views(list@) == sorted(choice_views(choices@), choice_before()),
{
    let ghost before = |left: WorkspaceChoice, right: WorkspaceChoice|
        is_choice_before(left@, right@);
    let ghost image = |choice: WorkspaceChoice| choice@;
    proof {
        sorting_commutes_with_looking(choices@, image, before, choice_before());
    }
    sort(choices, does_stand_before, Ghost(before))
}

fn push_machine(
    choices: &mut Vec<WorkspaceChoice>,
    hosts: &Vec<HostChoice>,
    live: &Vec<HostId>,
    host_id: &HostId,
    snapshot: &Snapshot,
)
    ensures
        choice_views(final(choices)@) == choice_views(old(choices)@) + machine_choices(
            hosts@,
            live@,
            host_id@,
            *snapshot,
            snapshot.workspaces@.len() as int,
        ),
{
    let ghost head = choice_views(choices@);
    let connected: bool = has_host(live, host_id);
    let mut at: usize = 0;
    assert(head + machine_choices(hosts@, live@, host_id@, *snapshot, 0) =~= head);
    while at < snapshot.workspaces.len()
        invariant
            at <= snapshot.workspaces@.len(),
            connected == lists_host(live@, host_id@),
            choice_views(choices@) == head + machine_choices(
                hosts@,
                live@,
                host_id@,
                *snapshot,
                at as int,
            ),
        decreases snapshot.workspaces@.len() - at,
    {
        let ghost before = choice_views(choices@);
        let workspace = &snapshot.workspaces[at];
        if workspace.roots.len() > 0 {
            let id: Option<String> = Some(workspace.id.clone());
            let choice = WorkspaceChoice {
                host_id: host_id.clone(),
                workspace_id: workspace.id.clone(),
                name: workspace.name.clone(),
                path: workspace.roots[0].path.clone(),
                host_label: write_machine_label(hosts, host_id, &snapshot.machine.name),
                connected,
                running: count_running(&snapshot.missions, &id),
                needs_you: count_waiting(&snapshot.missions, &id),
            };
            assert(choice@ =~= choice_of(hosts@, live@, host_id@, *snapshot, *workspace));
            choices.push(choice);
            assert(choice_views(choices@) =~= before.push(choice@));
        }
        assert(choice_views(choices@) =~= head + machine_choices(
            hosts@,
            live@,
            host_id@,
            *snapshot,
            at + 1,
        ));
        at = at + 1;
    }
}

fn list_choices(hosts: &Vec<HostChoice>, live: &Vec<HostId>, snapshots: &Vec<(HostId, Snapshot)>) -> (
    list: Vec<WorkspaceChoice>)
    ensures
        choice_views(list@) == listed_choices(hosts@, live@, snapshots@),
{
    let mut choices: Vec<WorkspaceChoice> = Vec::new();
    let mut at: usize = 0;
    assert(choice_views(choices@) =~= all_choices(hosts@, live@, snapshots@.take(0)));
    while at < snapshots.len()
        invariant
            at <= snapshots@.len(),
            choice_views(choices@) == all_choices(hosts@, live@, snapshots@.take(at as int)),
        decreases snapshots@.len() - at,
    {
        let ghost now = snapshots@.take(at + 1);
        assert(now.drop_last() =~= snapshots@.take(at as int));
        assert(now.last() == snapshots@[at as int]);
        push_machine(&mut choices, hosts, live, &snapshots[at].0, &snapshots[at].1);
        at = at + 1;
    }
    assert(snapshots@.take(at as int) =~= snapshots@);
    sort_choices(choices)
}

impl App {
    /// What offering the workspaces of all machines does. The cursor of the picker stays on its
    /// workspace.
    pub open spec fn refreshed_choices(
        self,
        after: App,
        snapshots: Seq<(HostId, Snapshot)>,
        live: Seq<HostId>,
    ) -> bool {
        &&& after.live_hosts@ == live
        &&& choice_views(after.workspace_choices@) == listed_choices(self.hosts@, live, snapshots)
        &&& after == (App {
            live_hosts: after.live_hosts,
            workspace_choices: after.workspace_choices,
            picker_cursor: followed_cursor(
                self.offers(),
                offered(after.workspace_choices@, self.picker_path_mode, self.picker_input@),
                self.picker_cursor,
            ),
            ..self
        })
    }
}

/// Offers the workspaces of all machines of which there is a snapshot, and says which machines are
/// there.
pub fn refresh_workspace_choices(
    app: &mut App,
    snapshots: &Vec<(HostId, Snapshot)>,
    live: Vec<HostId>,
)
    ensures
        old(app).refreshed_choices(*final(app), snapshots@, live@),
{
    let choices = list_choices(&app.hosts, &live, snapshots);
    app.set_live_hosts(live);
    app.set_workspace_choices(choices);
}

} // verus!
