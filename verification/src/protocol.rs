//! What a Node reports about its machine: workspaces, leaders, missions and agents.

use vstd::prelude::*;
use vstd::string::*;

use crate::seqs::{find, first, position};
use crate::text::{byte_range, byte_slice, clone_optional, clone_texts, same_text};

verus! {

/// Everything that a Node reports at one moment.
#[derive(Debug)]
pub struct Snapshot {
    pub machine: Machine,
    pub workspaces: Vec<Workspace>,
    pub leaders: Vec<Leader>,
    pub missions: Vec<Mission>,
    pub agents: Vec<Agent>,
}

#[derive(Debug)]
pub struct Machine {
    pub name: String,
}

#[derive(Debug)]
pub struct Workspace {
    pub id: String,
    pub name: String,
    pub roots: Vec<WorkspaceRoot>,
}

#[derive(Debug)]
pub struct WorkspaceRoot {
    pub machine_id: Option<String>,
    pub path: String,
}

#[derive(Debug)]
pub struct Leader {
    pub workspace_id: String,
    pub session_id: String,
    pub name: String,
    pub state: String,
    pub provider: String,
    pub model: String,
}

#[derive(Debug)]
pub struct Mission {
    pub id: String,
    pub number: u64,
    pub workspace_id: String,
    pub name: String,
    pub state: String,
    pub attention: Option<String>,
    pub created_at: String,
    pub worktree: Option<Worktree>,
    pub lead: MissionLead,
    pub agent_ids: Vec<String>,
}

#[derive(Debug)]
pub struct Worktree {
    pub path: String,
}

/// Who leads a mission: the leader of its workspace, or one of its agents.
#[derive(Debug)]
pub enum MissionLead {
    Leader,
    Agent { agent_id: String },
}

#[derive(Debug)]
pub struct Agent {
    pub id: String,
    pub mission_id: String,
    pub session_id: String,
    pub name: String,
    pub task: String,
    pub state: String,
    pub provider: String,
    pub model: String,
}

impl Clone for Machine {
    fn clone(&self) -> (copy: Self)
        ensures
            copy == *self,
    {
        Machine { name: self.name.clone() }
    }
}

impl Clone for WorkspaceRoot {
    fn clone(&self) -> (copy: Self)
        ensures
            copy == *self,
    {
        WorkspaceRoot { machine_id: clone_optional(&self.machine_id), path: self.path.clone() }
    }
}

impl Clone for Workspace {
    fn clone(&self) -> (copy: Self)
        ensures
            self.same(copy),
    {
        let mut roots: Vec<WorkspaceRoot> = Vec::new();
        let mut at: usize = 0;
        while at < self.roots.len()
            invariant
                at <= self.roots@.len(),
                roots@ == self.roots@.take(at as int),
            decreases self.roots@.len() - at,
        {
            roots.push(self.roots[at].clone());
            at = at + 1;
        }
        assert(self.roots@.take(at as int) =~= self.roots@);
        Workspace { id: self.id.clone(), name: self.name.clone(), roots }
    }
}

impl Clone for Leader {
    fn clone(&self) -> (copy: Self)
        ensures
            copy == *self,
    {
        Leader {
            workspace_id: self.workspace_id.clone(),
            session_id: self.session_id.clone(),
            name: self.name.clone(),
            state: self.state.clone(),
            provider: self.provider.clone(),
            model: self.model.clone(),
        }
    }
}

impl Clone for Worktree {
    fn clone(&self) -> (copy: Self)
        ensures
            copy == *self,
    {
        Worktree { path: self.path.clone() }
    }
}

impl Clone for MissionLead {
    fn clone(&self) -> (copy: Self)
        ensures
            copy == *self,
    {
        match self {
            MissionLead::Leader => MissionLead::Leader,
            MissionLead::Agent { agent_id } => MissionLead::Agent { agent_id: agent_id.clone() },
        }
    }
}

impl Clone for Mission {
    fn clone(&self) -> (copy: Self)
        ensures
            self.same(copy),
    {
        let worktree: Option<Worktree> = match &self.worktree {
            Some(worktree) => Some(worktree.clone()),
            None => None,
        };
        Mission {
            id: self.id.clone(),
            number: self.number,
            workspace_id: self.workspace_id.clone(),
            name: self.name.clone(),
            state: self.state.clone(),
            attention: clone_optional(&self.attention),
            created_at: self.created_at.clone(),
            worktree,
            lead: self.lead.clone(),
            agent_ids: clone_texts(&self.agent_ids),
        }
    }
}

impl Clone for Agent {
    fn clone(&self) -> (copy: Self)
        ensures
            copy == *self,
    {
        Agent {
            id: self.id.clone(),
            mission_id: self.mission_id.clone(),
            session_id: self.session_id.clone(),
            name: self.name.clone(),
            task: self.task.clone(),
            state: self.state.clone(),
            provider: self.provider.clone(),
            model: self.model.clone(),
        }
    }
}

impl Workspace {
    /// Whether another workspace holds the same.
    pub open spec fn same(self, other: Workspace) -> bool {
        other.roots@ == self.roots@ && other == (Workspace { roots: other.roots, ..self })
    }
}

impl Mission {
    /// Whether another mission holds the same.
    pub open spec fn same(self, other: Mission) -> bool {
        other.agent_ids@ == self.agent_ids@ && other == (Mission {
            agent_ids: other.agent_ids,
            ..self
        })
    }
}

impl Snapshot {
    /// Whether another snapshot holds the same.
    pub open spec fn same(self, other: Snapshot) -> bool {
        &&& other.machine == self.machine
        &&& other.leaders@ == self.leaders@
        &&& other.agents@ == self.agents@
        &&& other.workspaces@.len() == self.workspaces@.len()
        &&& forall|i: int|
            0 <= i < self.workspaces@.len() ==> (#[trigger] self.workspaces@[i]).same(
                other.workspaces@[i],
            )
        &&& other.missions@.len() == self.missions@.len()
        &&& forall|i: int|
            0 <= i < self.missions@.len() ==> (#[trigger] self.missions@[i]).same(
                other.missions@[i],
            )
    }
}

fn copy_workspaces(list: &Vec<Workspace>) -> (copy: Vec<Workspace>)
    ensures
        copy@.len() == list@.len(),
        forall|i: int| 0 <= i < list@.len() ==> (#[trigger] list@[i]).same(copy@[i]),
{
    let mut copy: Vec<Workspace> = Vec::new();
    let mut at: usize = 0;
    while at < list.len()
        invariant
            at <= list@.len(),
            copy@.len() == at,
            forall|i: int| 0 <= i < at ==> (#[trigger] list@[i]).same(copy@[i]),
        decreases list@.len() - at,
    {
        copy.push(list[at].clone());
        at = at + 1;
    }
    copy
}

fn copy_missions(list: &Vec<Mission>) -> (copy: Vec<Mission>)
    ensures
        copy@.len() == list@.len(),
        forall|i: int| 0 <= i < list@.len() ==> (#[trigger] list@[i]).same(copy@[i]),
{
    let mut copy: Vec<Mission> = Vec::new();
    let mut at: usize = 0;
    while at < list.len()
        invariant
            at <= list@.len(),
            copy@.len() == at,
            forall|i: int| 0 <= i < at ==> (#[trigger] list@[i]).same(copy@[i]),
        decreases list@.len() - at,
    {
        copy.push(list[at].clone());
        at = at + 1;
    }
    copy
}

fn copy_leaders(list: &Vec<Leader>) -> (copy: Vec<Leader>)
    ensures
        copy@ == list@,
{
    let mut copy: Vec<Leader> = Vec::new();
    let mut at: usize = 0;
    while at < list.len()
        invariant
            at <= list@.len(),
            copy@ == list@.take(at as int),
        decreases list@.len() - at,
    {
        copy.push(list[at].clone());
        at = at + 1;
    }
    assert(list@.take(at as int) =~= list@);
    copy
}

fn copy_agents(list: &Vec<Agent>) -> (copy: Vec<Agent>)
    ensures
        copy@ == list@,
{
    let mut copy: Vec<Agent> = Vec::new();
    let mut at: usize = 0;
    while at < list.len()
        invariant
            at <= list@.len(),
            copy@ == list@.take(at as int),
        decreases list@.len() - at,
    {
        copy.push(list[at].clone());
        at = at + 1;
    }
    assert(list@.take(at as int) =~= list@);
    copy
}

impl Clone for Snapshot {
    fn clone(&self) -> (copy: Self)
        ensures
            self.same(copy),
    {
        Snapshot {
            machine: self.machine.clone(),
            workspaces: copy_workspaces(&self.workspaces),
            leaders: copy_leaders(&self.leaders),
            missions: copy_missions(&self.missions),
            agents: copy_agents(&self.agents),
        }
    }
}

#[derive(Clone, Debug)]
pub struct MissionDetail {
    pub mission: Mission,
    pub agents: Vec<Agent>,
}

#[derive(Clone, Debug)]
pub struct MissionList {
    pub missions: Vec<Mission>,
    pub next_cursor: Option<String>,
}

/// One block of a saved conversation.
#[derive(Clone, Debug)]
pub struct ConversationBlock {
    pub role: String,
    pub kind: String,
    pub text: String,
    pub data: Option<serde_json::Value>,
}

#[derive(Clone, Debug)]
pub struct ConversationTail {
    pub session_id: String,
    pub blocks: Vec<ConversationBlock>,
    pub prev_cursor: Option<String>,
    pub next_cursor: Option<String>,
}

/// Someone to talk to: a session, and where and as what it runs.
#[derive(Debug, Eq)]
pub struct Target {
    pub session_id: String,
    pub workspace_id: String,
    pub name: String,
    pub role: String,
    pub cwd: String,
    pub provider: String,
    pub model: String,
}

/// What a target holds.
#[verifier::ext_equal]
pub struct TargetView {
    pub session_id: Seq<char>,
    pub workspace_id: Seq<char>,
    pub name: Seq<char>,
    pub role: Seq<char>,
    pub cwd: Seq<char>,
    pub provider: Seq<char>,
    pub model: Seq<char>,
}

impl View for Target {
    type V = TargetView;

    open spec fn view(&self) -> TargetView {
        TargetView {
            session_id: self.session_id@,
            workspace_id: self.workspace_id@,
            name: self.name@,
            role: self.role@,
            cwd: self.cwd@,
            provider: self.provider@,
            model: self.model@,
        }
    }
}

/// What an optional target holds.
pub open spec fn optional_target(target: Option<Target>) -> Option<TargetView> {
    match target {
        Some(target) => Some(target@),
        None => None,
    }
}

impl Clone for Target {
    fn clone(&self) -> (copy: Self)
        ensures
            copy == *self,
    {
        Target {
            session_id: self.session_id.clone(),
            workspace_id: self.workspace_id.clone(),
            name: self.name.clone(),
            role: self.role.clone(),
            cwd: self.cwd.clone(),
            provider: self.provider.clone(),
            model: self.model.clone(),
        }
    }
}

impl PartialEq for Target {
    fn eq(&self, other: &Self) -> (same: bool) {
        self.session_id == other.session_id && self.workspace_id == other.workspace_id && self.name
            == other.name && self.role == other.role && self.cwd == other.cwd && self.provider
            == other.provider && self.model == other.model
    }
}

impl vstd::std_specs::cmp::PartialEqSpecImpl for Target {
    open spec fn obeys_eq_spec() -> bool {
        true
    }

    open spec fn eq_spec(&self, other: &Self) -> bool {
        self@ == other@
    }
}

/// The leader of a workspace.
pub open spec fn leads(workspace_id: Seq<char>) -> spec_fn(Leader) -> bool {
    |leader: Leader| leader.workspace_id@ == workspace_id
}

/// The workspace with an id.
pub open spec fn workspace_with(id: Seq<char>) -> spec_fn(Workspace) -> bool {
    |workspace: Workspace| workspace.id@ == id
}

/// The mission with an id.
pub open spec fn mission_with(id: Seq<char>) -> spec_fn(Mission) -> bool {
    |mission: Mission| mission.id@ == id
}

/// The agent with an id.
pub open spec fn agent_with(id: Seq<char>) -> spec_fn(Agent) -> bool {
    |agent: Agent| agent.id@ == id
}

/// The path of the first root of a workspace.
pub open spec fn first_root(workspaces: Seq<Workspace>, id: Seq<char>) -> Option<Seq<char>> {
    match find(workspaces, workspace_with(id)) {
        Some(workspace) => match first(workspace.roots@) {
            Some(root) => Some(root.path@),
            None => None,
        },
        None => None,
    }
}

impl Snapshot {
    /// The leader of a workspace, at the first root of that workspace.
    #[verifier::opaque]
    pub open spec fn leader_of(self, workspace_id: Seq<char>) -> Option<TargetView> {
        match (
            find(self.leaders@, leads(workspace_id)),
            first_root(self.workspaces@, workspace_id),
        ) {
            (Some(leader), Some(cwd)) => Some(
                TargetView {
                    session_id: leader.session_id@,
                    workspace_id,
                    name: leader.name@,
                    role: "Workspace leader"@,
                    cwd,
                    provider: leader.provider@,
                    model: leader.model@,
                },
            ),
            _ => None,
        }
    }

    /// Where a mission's work is done: its worktree, else the first root of its workspace.
    pub open spec fn mission_directory(self, mission: Mission) -> Option<Seq<char>> {
        match mission.worktree {
            Some(worktree) => Some(worktree.path@),
            None => first_root(self.workspaces@, mission.workspace_id@),
        }
    }

    /// An agent, in the directory of its mission.
    #[verifier::opaque]
    pub open spec fn agent_of(self, agent_id: Seq<char>) -> Option<TargetView> {
        match find(self.agents@, agent_with(agent_id)) {
            Some(agent) => match find(self.missions@, mission_with(agent.mission_id@)) {
                Some(mission) => match self.mission_directory(mission) {
                    Some(cwd) => Some(
                        TargetView {
                            session_id: agent.session_id@,
                            workspace_id: mission.workspace_id@,
                            name: agent.name@,
                            role: agent.task@,
                            cwd,
                            provider: agent.provider@,
                            model: agent.model@,
                        },
                    ),
                    None => None,
                },
                None => None,
            },
            None => None,
        }
    }

    /// Whoever leads a mission.
    #[verifier::opaque]
    pub open spec fn mission_lead_of(self, mission_id: Seq<char>) -> Option<TargetView> {
        match find(self.missions@, mission_with(mission_id)) {
            Some(mission) => match mission.lead {
                MissionLead::Leader => self.leader_of(mission.workspace_id@),
                MissionLead::Agent { agent_id } => self.agent_of(agent_id@),
            },
            None => None,
        }
    }

    /// The leader of a workspace.
    pub fn leader_target(&self, workspace_id: &str) -> (target: Option<Target>)
        ensures
            optional_target(target) == self.leader_of(workspace_id@),
    {
        proof {
            reveal(Snapshot::leader_of);
        }
        let leader = match find_leader(&self.leaders, workspace_id) {
            Some(at) => &self.leaders[at],
            None => return None,
        };
        let cwd = match root_path(&self.workspaces, workspace_id) {
            Some(cwd) => cwd,
            None => return None,
        };
        Some(
            Target {
                session_id: leader.session_id.clone(),
                workspace_id: workspace_id.to_owned(),
                name: leader.name.clone(),
                role: "Workspace leader".to_owned(),
                cwd,
                provider: leader.provider.clone(),
                model: leader.model.clone(),
            },
        )
    }

    /// An agent.
    pub fn agent_target(&self, agent_id: &str) -> (target: Option<Target>)
        ensures
            optional_target(target) == self.agent_of(agent_id@),
    {
        proof {
            reveal(Snapshot::agent_of);
        }
        let agent = match find_agent(&self.agents, agent_id) {
            Some(at) => &self.agents[at],
            None => return None,
        };
        let mission = match find_mission(&self.missions, &agent.mission_id) {
            Some(at) => &self.missions[at],
            None => return None,
        };
        let cwd = match &mission.worktree {
            Some(worktree) => worktree.path.clone(),
            None => match root_path(&self.workspaces, &mission.workspace_id) {
                Some(cwd) => cwd,
                None => return None,
            },
        };
        Some(
            Target {
                session_id: agent.session_id.clone(),
                workspace_id: mission.workspace_id.clone(),
                name: agent.name.clone(),
                role: agent.task.clone(),
                cwd,
                provider: agent.provider.clone(),
                model: agent.model.clone(),
            },
        )
    }

    /// Whoever leads a mission.
    pub fn mission_target(&self, mission_id: &str) -> (target: Option<Target>)
        ensures
            optional_target(target) == self.mission_lead_of(mission_id@),
    {
        proof {
            reveal(Snapshot::mission_lead_of);
        }
        let mission = match find_mission(&self.missions, mission_id) {
            Some(at) => &self.missions[at],
            None => return None,
        };
        match &mission.lead {
            MissionLead::Leader => self.leader_target(&mission.workspace_id),
            MissionLead::Agent { agent_id } => self.agent_target(agent_id),
        }
    }
}

/// Where the leader of a workspace stands in a list.
pub fn find_leader(leaders: &Vec<Leader>, workspace_id: &str) -> (found: Option<usize>)
    ensures
        match found {
            Some(at) => at < leaders@.len() && position(leaders@, leads(workspace_id@), 0) == at,
            None => position(leaders@, leads(workspace_id@), 0) == leaders@.len(),
        },
{
    let mut at: usize = 0;
    while at < leaders.len()
        invariant
            at <= leaders@.len(),
            position(leaders@, leads(workspace_id@), at as int) == position(
                leaders@,
                leads(workspace_id@),
                0,
            ),
        decreases leaders@.len() - at,
    {
        if same_text(&leaders[at].workspace_id, workspace_id) {
            return Some(at);
        }
        at = at + 1;
    }
    None
}

/// Where a workspace stands in a list.
pub fn find_workspace(workspaces: &Vec<Workspace>, id: &str) -> (found: Option<usize>)
    ensures
        match found {
            Some(at) => at < workspaces@.len() && position(workspaces@, workspace_with(id@), 0)
                == at,
            None => position(workspaces@, workspace_with(id@), 0) == workspaces@.len(),
        },
{
    let mut at: usize = 0;
    while at < workspaces.len()
        invariant
            at <= workspaces@.len(),
            position(workspaces@, workspace_with(id@), at as int) == position(
                workspaces@,
                workspace_with(id@),
                0,
            ),
        decreases workspaces@.len() - at,
    {
        if same_text(&workspaces[at].id, id) {
            return Some(at);
        }
        at = at + 1;
    }
    None
}

/// Where a mission stands in a list.
pub fn find_mission(missions: &Vec<Mission>, id: &str) -> (found: Option<usize>)
    ensures
        match found {
            Some(at) => at < missions@.len() && position(missions@, mission_with(id@), 0) == at,
            None => position(missions@, mission_with(id@), 0) == missions@.len(),
        },
{
    let mut at: usize = 0;
    while at < missions.len()
        invariant
            at <= missions@.len(),
            position(missions@, mission_with(id@), at as int) == position(
                missions@,
                mission_with(id@),
                0,
            ),
        decreases missions@.len() - at,
    {
        if same_text(&missions[at].id, id) {
            return Some(at);
        }
        at = at + 1;
    }
    None
}

/// Where an agent stands in a list.
pub fn find_agent(agents: &Vec<Agent>, id: &str) -> (found: Option<usize>)
    ensures
        match found {
            Some(at) => at < agents@.len() && position(agents@, agent_with(id@), 0) == at,
            None => position(agents@, agent_with(id@), 0) == agents@.len(),
        },
{
    let mut at: usize = 0;
    while at < agents.len()
        invariant
            at <= agents@.len(),
            position(agents@, agent_with(id@), at as int) == position(
                agents@,
                agent_with(id@),
                0,
            ),
        decreases agents@.len() - at,
    {
        if same_text(&agents[at].id, id) {
            return Some(at);
        }
        at = at + 1;
    }
    None
}

fn root_path(workspaces: &Vec<Workspace>, id: &str) -> (path: Option<String>)
    ensures
        crate::text::optional(path) == first_root(workspaces@, id@),
{
    match find_workspace(workspaces, id) {
        Some(at) => if workspaces[at].roots.len() > 0 {
            Some(workspaces[at].roots[0].path.clone())
        } else {
            None
        },
        None => None,
    }
}

/// What a bridge reports.
#[derive(Debug)]
pub enum BridgeEvent {
    Snapshot { workspace_id: String, snapshot: Snapshot },
    Error { message: String },
}

/// The label that a state is shown with.
pub open spec fn label_of(state: Seq<char>) -> Seq<char> {
    if state == "blocked"@ {
        "NEEDS YOU"@
    } else if state == "failed"@ {
        "FAILED"@
    } else if state == "readyToClose"@ {
        "READY"@
    } else if state == "mergedNotClosed"@ {
        "MERGED"@
    } else if state == "closed"@ || state == "completed"@ || state == "archived"@ {
        "DONE"@
    } else if state == "idle"@ {
        "IDLE"@
    } else {
        "RUNNING"@
    }
}

/// The label that a state is shown with.
pub fn status_label(state: &str) -> (label: &'static str)
    ensures
        label@ == label_of(state@),
{
    if same_text(state, "blocked") {
        "NEEDS YOU"
    } else if same_text(state, "failed") {
        "FAILED"
    } else if same_text(state, "readyToClose") {
        "READY"
    } else if same_text(state, "mergedNotClosed") {
        "MERGED"
    } else if same_text(state, "closed") || same_text(state, "completed") || same_text(
        state,
        "archived",
    ) {
        "DONE"
    } else if same_text(state, "idle") {
        "IDLE"
    } else {
        "RUNNING"
    }
}

/// The hour and minute of a time stamp, which stand in its bytes 11 to 16.
pub open spec fn started_of(value: Seq<char>) -> Seq<char> {
    match byte_slice(value, 11, 16) {
        Some(part) => part,
        None => "--:--"@,
    }
}

/// The hour and minute of a time stamp.
pub fn started_label(value: &str) -> (label: String)
    ensures
        label@ == started_of(value@),
{
    match byte_range(value, 11, 16) {
        Some(part) => part,
        None => "--:--".to_owned(),
    }
}

} // verus!
