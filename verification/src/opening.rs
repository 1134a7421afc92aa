//! Where the sessions of a snapshot are opened: each with its own session, provider and model, and in
//! the directory where its work is done.

use vstd::prelude::*;
use vstd::string::*;

use crate::protocol::{
    agent_with, first_root, leads, mission_with, workspace_with, MissionLead, Snapshot,
};
use crate::seqs::{find, first_is_position, position_is_first};

verus! {

impl Snapshot {
    /// Whether an agent is the first with its id.
    pub open spec fn first_agent(self, at: int) -> bool {
        &&& 0 <= at < self.agents@.len()
        &&& forall|k: int| 0 <= k < at ==> (#[trigger] self.agents@[k]).id@ != self.agents@[at].id@
    }

    /// Whether a mission is the first with its id.
    pub open spec fn first_mission(self, at: int) -> bool {
        &&& 0 <= at < self.missions@.len()
        &&& forall|k: int|
            0 <= k < at ==> (#[trigger] self.missions@[k]).id@ != self.missions@[at].id@
    }

    /// Whether a workspace is the first with its id.
    pub open spec fn first_workspace(self, at: int) -> bool {
        &&& 0 <= at < self.workspaces@.len()
        &&& forall|k: int|
            0 <= k < at ==> (#[trigger] self.workspaces@[k]).id@ != self.workspaces@[at].id@
    }

    /// Whether a leader is the first of its workspace.
    pub open spec fn first_leader(self, at: int) -> bool {
        &&& 0 <= at < self.leaders@.len()
        &&& forall|k: int|
            0 <= k < at ==> (#[trigger] self.leaders@[k]).workspace_id@
                != self.leaders@[at].workspace_id@
    }

    /// Whether a snapshot has a workspace with an id.
    pub open spec fn has_workspace(self, id: Seq<char>) -> bool {
        exists|k: int| 0 <= k < self.workspaces@.len() && (#[trigger] self.workspaces@[k]).id@ == id
    }
}

proof fn lemma_agent(snapshot: Snapshot, at: int)
    requires
        snapshot.first_agent(at),
    ensures
        find(snapshot.agents@, agent_with(snapshot.agents@[at].id@)) == Some(snapshot.agents@[at]),
{
    let wanted = agent_with(snapshot.agents@[at].id@);
    assert forall|i: int| 0 <= i < at implies !#[trigger] wanted(snapshot.agents@[i]) by {
        assert(snapshot.agents@[i].id@ != snapshot.agents@[at].id@);
    }
    first_is_position(snapshot.agents@, wanted, 0, at);
}

proof fn lemma_mission(snapshot: Snapshot, at: int)
    requires
        snapshot.first_mission(at),
    ensures
        find(snapshot.missions@, mission_with(snapshot.missions@[at].id@)) == Some(
            snapshot.missions@[at],
        ),
{
    let wanted = mission_with(snapshot.missions@[at].id@);
    assert forall|i: int| 0 <= i < at implies !#[trigger] wanted(snapshot.missions@[i]) by {
        assert(snapshot.missions@[i].id@ != snapshot.missions@[at].id@);
    }
    first_is_position(snapshot.missions@, wanted, 0, at);
}

proof fn lemma_root(snapshot: Snapshot, at: int)
    requires
        snapshot.first_workspace(at),
    ensures
        first_root(snapshot.workspaces@, snapshot.workspaces@[at].id@) == if snapshot.workspaces@[at].roots@.len()
            == 0 {
            None::<Seq<char>>
        } else {
            Some(snapshot.workspaces@[at].roots@[0].path@)
        },
{
    let wanted = workspace_with(snapshot.workspaces@[at].id@);
    assert forall|i: int| 0 <= i < at implies !#[trigger] wanted(snapshot.workspaces@[i]) by {
        assert(snapshot.workspaces@[i].id@ != snapshot.workspaces@[at].id@);
    }
    first_is_position(snapshot.workspaces@, wanted, 0, at);
}

proof fn lemma_no_root(snapshot: Snapshot, id: Seq<char>)
    requires
        !snapshot.has_workspace(id),
    ensures
        first_root(snapshot.workspaces@, id) is None,
{
    let wanted = workspace_with(id);
    position_is_first(snapshot.workspaces@, wanted, 0);
    let at = crate::seqs::position(snapshot.workspaces@, wanted, 0);
    if at < snapshot.workspaces@.len() {
        assert(snapshot.workspaces@[at].id@ == id);
    }
}

proof fn lemma_leader(snapshot: Snapshot, at: int)
    requires
        snapshot.first_leader(at),
    ensures
        find(snapshot.leaders@, leads(snapshot.leaders@[at].workspace_id@)) == Some(
            snapshot.leaders@[at],
        ),
{
    let wanted = leads(snapshot.leaders@[at].workspace_id@);
    assert forall|i: int| 0 <= i < at implies !#[trigger] wanted(snapshot.leaders@[i]) by {
        assert(snapshot.leaders@[i].workspace_id@ != snapshot.leaders@[at].workspace_id@);
    }
    first_is_position(snapshot.leaders@, wanted, 0, at);
}

/// An agent whose mission has a worktree is opened in that worktree, with its own session, name, task,
/// provider and model, and under the workspace of its mission.
pub proof fn an_agent_is_opened_in_the_worktree_of_its_mission(
    snapshot: Snapshot,
    agent: int,
    mission: int,
)
    requires
        snapshot.first_agent(agent),
        snapshot.first_mission(mission),
        snapshot.missions@[mission].id@ == snapshot.agents@[agent].mission_id@,
        snapshot.missions@[mission].worktree is Some,
    ensures
        snapshot.agent_of(snapshot.agents@[agent].id@) is Some,
        ({
            let target = snapshot.agent_of(snapshot.agents@[agent].id@)->0;
            &&& target.cwd == snapshot.missions@[mission].worktree->0.path@
            &&& target.session_id == snapshot.agents@[agent].session_id@
            &&& target.workspace_id == snapshot.missions@[mission].workspace_id@
            &&& target.name == snapshot.agents@[agent].name@
            &&& target.role == snapshot.agents@[agent].task@
            &&& target.provider == snapshot.agents@[agent].provider@
            &&& target.model == snapshot.agents@[agent].model@
        }),
{
    reveal(Snapshot::agent_of);
    lemma_agent(snapshot, agent);
    lemma_mission(snapshot, mission);
}

/// The agents of two missions with worktrees of their own are opened in different directories.
pub proof fn agents_of_two_missions_work_apart(
    snapshot: Snapshot,
    one: int,
    other: int,
    mission: int,
    another: int,
)
    requires
        snapshot.first_agent(one),
        snapshot.first_agent(other),
        snapshot.first_mission(mission),
        snapshot.first_mission(another),
        snapshot.missions@[mission].id@ == snapshot.agents@[one].mission_id@,
        snapshot.missions@[another].id@ == snapshot.agents@[other].mission_id@,
        snapshot.missions@[mission].worktree is Some,
        snapshot.missions@[another].worktree is Some,
        snapshot.missions@[mission].worktree->0.path@
            != snapshot.missions@[another].worktree->0.path@,
    ensures
        snapshot.agent_of(snapshot.agents@[one].id@) is Some,
        snapshot.agent_of(snapshot.agents@[other].id@) is Some,
        snapshot.agent_of(snapshot.agents@[one].id@)->0.cwd != snapshot.agent_of(
            snapshot.agents@[other].id@,
        )->0.cwd,
{
    an_agent_is_opened_in_the_worktree_of_its_mission(snapshot, one, mission);
    an_agent_is_opened_in_the_worktree_of_its_mission(snapshot, other, another);
}

/// An agent whose mission has no worktree is opened at the first root of the workspace of that mission,
/// and not at all where that workspace has none.
pub proof fn an_agent_without_a_worktree_is_opened_at_the_root(
    snapshot: Snapshot,
    agent: int,
    mission: int,
    workspace: int,
)
    requires
        snapshot.first_agent(agent),
        snapshot.first_mission(mission),
        snapshot.first_workspace(workspace),
        snapshot.missions@[mission].id@ == snapshot.agents@[agent].mission_id@,
        snapshot.missions@[mission].worktree is None,
        snapshot.workspaces@[workspace].id@ == snapshot.missions@[mission].workspace_id@,
    ensures
        ({
            let roots = snapshot.workspaces@[workspace].roots@;
            let target = snapshot.agent_of(snapshot.agents@[agent].id@);
            &&& roots.len() == 0 <==> target is None
            &&& target matches Some(target) ==> {
                &&& target.cwd == roots[0].path@
                &&& target.session_id == snapshot.agents@[agent].session_id@
                &&& target.workspace_id == snapshot.workspaces@[workspace].id@
                &&& target.name == snapshot.agents@[agent].name@
                &&& target.role == snapshot.agents@[agent].task@
                &&& target.provider == snapshot.agents@[agent].provider@
                &&& target.model == snapshot.agents@[agent].model@
            }
        }),
{
    reveal(Snapshot::agent_of);
    lemma_agent(snapshot, agent);
    lemma_mission(snapshot, mission);
    lemma_root(snapshot, workspace);
}

/// Whoever is opened stands in the snapshot: an agent with that id, and the mission that it works on.
pub proof fn only_agents_of_the_snapshot_are_opened(snapshot: Snapshot, id: Seq<char>)
    requires
        snapshot.agent_of(id) is Some,
    ensures
        exists|agent: int, mission: int|
            #![trigger snapshot.agents@[agent], snapshot.missions@[mission]]
            0 <= agent < snapshot.agents@.len() && 0 <= mission < snapshot.missions@.len()
                && snapshot.agents@[agent].id@ == id && snapshot.missions@[mission].id@
                == snapshot.agents@[agent].mission_id@ && snapshot.agent_of(id)->0.session_id
                == snapshot.agents@[agent].session_id@ && snapshot.agent_of(id)->0.workspace_id
                == snapshot.missions@[mission].workspace_id@,
{
    reveal(Snapshot::agent_of);
    position_is_first(snapshot.agents@, agent_with(id), 0);
    let agent = crate::seqs::position(snapshot.agents@, agent_with(id), 0);
    let mission_id = snapshot.agents@[agent].mission_id@;
    position_is_first(snapshot.missions@, mission_with(mission_id), 0);
    let mission = crate::seqs::position(snapshot.missions@, mission_with(mission_id), 0);
    assert(snapshot.agents@[agent].id@ == id && snapshot.missions@[mission].id@ == mission_id);
}

/// The leader of a workspace is opened at the first root of that workspace, with its own session, name,
/// provider and model, and not at all where the workspace has no root.
pub proof fn a_leader_is_opened_at_the_root_of_its_workspace(
    snapshot: Snapshot,
    leader: int,
    workspace: int,
)
    requires
        snapshot.first_leader(leader),
        snapshot.first_workspace(workspace),
        snapshot.leaders@[leader].workspace_id@ == snapshot.workspaces@[workspace].id@,
    ensures
        ({
            let roots = snapshot.workspaces@[workspace].roots@;
            let target = snapshot.leader_of(snapshot.workspaces@[workspace].id@);
            &&& roots.len() == 0 <==> target is None
            &&& target matches Some(target) ==> {
                &&& target.cwd == roots[0].path@
                &&& target.session_id == snapshot.leaders@[leader].session_id@
                &&& target.workspace_id == snapshot.workspaces@[workspace].id@
                &&& target.name == snapshot.leaders@[leader].name@
                &&& target.role == "Workspace leader"@
                &&& target.provider == snapshot.leaders@[leader].provider@
                &&& target.model == snapshot.leaders@[leader].model@
            }
        }),
{
    reveal(Snapshot::leader_of);
    lemma_leader(snapshot, leader);
    lemma_root(snapshot, workspace);
}

/// A workspace that nobody leads, or that the snapshot does not have, has no leader to open.
pub proof fn only_leaders_of_the_snapshot_are_opened(snapshot: Snapshot, workspace_id: Seq<char>)
    requires
        snapshot.leader_of(workspace_id) is Some,
    ensures
        snapshot.has_workspace(workspace_id),
        snapshot.leader_of(workspace_id)->0.workspace_id == workspace_id,
        exists|leader: int|
            0 <= leader < snapshot.leaders@.len() && (#[trigger] snapshot.leaders@[leader]).workspace_id@
                == workspace_id && snapshot.leader_of(workspace_id)->0.session_id
                == snapshot.leaders@[leader].session_id@,
{
    reveal(Snapshot::leader_of);
    if !snapshot.has_workspace(workspace_id) {
        lemma_no_root(snapshot, workspace_id);
    }
    position_is_first(snapshot.leaders@, leads(workspace_id), 0);
    let leader = crate::seqs::position(snapshot.leaders@, leads(workspace_id), 0);
    assert(snapshot.leaders@[leader].workspace_id@ == workspace_id);
}

/// A mission is opened with whoever leads it: the agent that it names, or the leader of its workspace.
pub proof fn a_mission_is_opened_with_its_lead(snapshot: Snapshot, mission: int)
    requires
        snapshot.first_mission(mission),
    ensures
        snapshot.mission_lead_of(snapshot.missions@[mission].id@) == match snapshot.missions@[mission].lead {
            MissionLead::Leader => snapshot.leader_of(snapshot.missions@[mission].workspace_id@),
            MissionLead::Agent { agent_id } => snapshot.agent_of(agent_id@),
        },
{
    reveal(Snapshot::mission_lead_of);
    lemma_mission(snapshot, mission);
}

/// A mission that the snapshot does not have is not opened.
pub proof fn only_missions_of_the_snapshot_are_opened(snapshot: Snapshot, id: Seq<char>)
    requires
        forall|k: int|
            0 <= k < snapshot.missions@.len() ==> (#[trigger] snapshot.missions@[k]).id@ != id,
    ensures
        snapshot.mission_lead_of(id) is None,
{
    reveal(Snapshot::mission_lead_of);
    let wanted = mission_with(id);
    position_is_first(snapshot.missions@, wanted, 0);
}

} // verus!
