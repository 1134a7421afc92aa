//! What tabs and the pane are called.

use vstd::prelude::*;
use vstd::string::*;

use crate::app::{App, HostChoice, TabPresentation};
use crate::geometry::{difference, minus};
use crate::hosts::{HostId, KeyView, ScopedTarget, ScopedView, SessionKey};
use crate::labels::{clip_label, clipped};
use crate::presentations::{
    find_presentation, name_of_workspace, presented, workspace_name, PresentationView,
};
use crate::protocol::{find_mission, label_of, mission_with, status_label, Agent, Leader, Snapshot};
use crate::seqs::{find, position};
use crate::text::{concat2, concat3, concat4, decimal, decimal_of, same_text};

verus! {

/// The machine with an id.
pub open spec fn host_with(host: Seq<char>) -> spec_fn(HostChoice) -> bool {
    |choice: HostChoice| choice.id@ == host
}

/// Where a machine stands in a list.
pub fn find_host(hosts: &Vec<HostChoice>, host_id: &HostId) -> (found: Option<usize>)
    ensures
        match found {
            Some(at) => at < hosts@.len() && position(hosts@, host_with(host_id@), 0) == at,
            None => position(hosts@, host_with(host_id@), 0) == hosts@.len(),
        },
{
    let mut at: usize = 0;
    while at < hosts.len()
        invariant
            at <= hosts@.len(),
            position(hosts@, host_with(host_id@), at as int) == position(
                hosts@,
                host_with(host_id@),
                0,
            ),
        decreases hosts@.len() - at,
    {
        if hosts[at].id == *host_id {
            return Some(at);
        }
        at = at + 1;
    }
    None
}

/// The label of a machine, else its id.
pub open spec fn configured_label(hosts: Seq<HostChoice>, host: Seq<char>) -> Seq<char> {
    match find(hosts, host_with(host)) {
        Some(choice) => choice.label@,
        None => host,
    }
}

/// The label of a machine, else its id.
pub fn label_of_host(hosts: &Vec<HostChoice>, host_id: &HostId) -> (label: String)
    ensures
        label@ == configured_label(hosts@, host_id@),
{
    match find_host(hosts, host_id) {
        Some(at) => hosts[at].label.clone(),
        None => host_id.to_string(),
    }
}

/// What stands behind the name on a tab: the mission and its state, or that its host is gone.
pub open spec fn tab_suffix(presentation: PresentationView) -> Seq<char> {
    match presentation.mission_number {
        Some(number) => "#"@ + decimal_of(number as nat) + " · "@ + if presentation.offline {
            "OFFLINE"@
        } else {
            presentation.state
        },
        None => if presentation.offline {
            "OFFLINE"@
        } else if presentation.role == "Workspace leader"@ {
            "LEADER"@
        } else {
            presentation.state
        },
    }
}

fn write_suffix(presentation: &TabPresentation) -> (suffix: String)
    ensures
        suffix@ == tab_suffix(presentation@),
{
    match presentation.mission_number {
        Some(number) => {
            let number = decimal(number);
            if presentation.offline {
                concat4("#", &number, " · ", "OFFLINE")
            } else {
                concat4("#", &number, " · ", &presentation.state)
            }
        },
        None => if presentation.offline {
            "OFFLINE".to_owned()
        } else if same_text(&presentation.role, "Workspace leader") {
            "LEADER".to_owned()
        } else {
            presentation.state.clone()
        },
    }
}

/// Whether two tabs look alike.
pub open spec fn look_alike(left: PresentationView, right: PresentationView) -> bool {
    left.actor == right.actor && left.mission_number == right.mission_number && left.state
        == right.state && left.offline == right.offline
}

fn do_look_alike(left: &TabPresentation, right: &TabPresentation) -> (yes: bool)
    ensures
        yes == look_alike(left@, right@),
{
    let numbers: bool = match (left.mission_number, right.mission_number) {
        (Some(left), Some(right)) => left == right,
        (None, None) => true,
        _ => false,
    };
    same_text(&left.actor, &right.actor) && numbers && same_text(&left.state, &right.state)
        && left.offline == right.offline
}

/// Whether another tab looks like this one.
pub open spec fn duplicated(
    tabs: Seq<ScopedTarget>,
    presentations: Map<KeyView, PresentationView>,
    key: KeyView,
    presentation: PresentationView,
) -> bool {
    exists|i: int|
        0 <= i < tabs.len() && (#[trigger] tabs[i]).key@ != key && presentations.contains_key(
            tabs[i].key@,
        ) && look_alike(presentations[tabs[i].key@], presentation)
}

fn is_duplicated(
    tabs: &Vec<ScopedTarget>,
    presentations: &Vec<(SessionKey, TabPresentation)>,
    key: &SessionKey,
    presentation: &TabPresentation,
) -> (yes: bool)
    ensures
        yes == duplicated(tabs@, presented(presentations@), key@, presentation@),
{
    let ghost known = presented(presentations@);
    let mut at: usize = 0;
    while at < tabs.len()
        invariant
            at <= tabs@.len(),
            known == presented(presentations@),
            forall|i: int|
                0 <= i < at ==> (#[trigger] tabs@[i]).key@ == key@ || !known.contains_key(
                    tabs@[i].key@,
                ) || !look_alike(known[tabs@[i].key@], presentation@),
        decreases tabs@.len() - at,
    {
        if tabs[at].key != *key {
            if let Some(other) = find_presentation(presentations, &tabs[at].key) {
                if do_look_alike(other, presentation) {
                    assert(tabs@[at as int].key@ != key@);
                    return true;
                }
            }
        }
        at = at + 1;
    }
    false
}

/// The agent with a session.
pub open spec fn agent_in(session: Seq<char>) -> spec_fn(Agent) -> bool {
    |agent: Agent| agent.session_id@ == session
}

/// The leader with a session.
pub open spec fn leader_in(session: Seq<char>) -> spec_fn(Leader) -> bool {
    |leader: Leader| leader.session_id@ == session
}

fn find_agent_in(agents: &Vec<Agent>, session: &str) -> (found: Option<usize>)
    ensures
        match found {
            Some(at) => at < agents@.len() && position(agents@, agent_in(session@), 0) == at,
            None => position(agents@, agent_in(session@), 0) == agents@.len(),
        },
{
    let mut at: usize = 0;
    while at < agents.len()
        invariant
            at <= agents@.len(),
            position(agents@, agent_in(session@), at as int) == position(
                agents@,
                agent_in(session@),
                0,
            ),
        decreases agents@.len() - at,
    {
        if same_text(&agents[at].session_id, session) {
            return Some(at);
        }
        at = at + 1;
    }
    None
}

fn find_leader_in(leaders: &Vec<Leader>, session: &str) -> (found: Option<usize>)
    ensures
        match found {
            Some(at) => at < leaders@.len() && position(leaders@, leader_in(session@), 0) == at,
            None => position(leaders@, leader_in(session@), 0) == leaders@.len(),
        },
{
    let mut at: usize = 0;
    while at < leaders.len()
        invariant
            at <= leaders@.len(),
            position(leaders@, leader_in(session@), at as int) == position(
                leaders@,
                leader_in(session@),
                0,
            ),
        decreases leaders@.len() - at,
    {
        if same_text(&leaders[at].session_id, session) {
            return Some(at);
        }
        at = at + 1;
    }
    None
}

/// The parts of the title of the pane.
#[verifier::ext_equal]
pub struct TitleView {
    pub workspace: Seq<char>,
    pub mission: Seq<char>,
    pub actor: Seq<char>,
}

struct Title {
    workspace: String,
    mission: String,
    actor: String,
}

impl Title {
    spec fn parts(self) -> TitleView {
        TitleView {
            workspace: self.workspace@,
            mission: self.mission@,
            actor: self.actor@,
        }
    }
}

/// What the title says of a tab whose session is known.
pub open spec fn known_title(presentation: PresentationView) -> TitleView {
    TitleView {
        workspace: presentation.workspace,
        mission: match presentation.mission {
            Some(mission) => match presentation.mission_number {
                Some(number) => "#"@ + decimal_of(number as nat) + " "@ + mission,
                None => mission,
            },
            None => "Workspace leader"@,
        },
        actor: presentation.actor + " · "@ + presentation.role + " · "@
            + if presentation.offline {
            "OFFLINE"@
        } else {
            presentation.state
        },
    }
}

/// What the title says of a target of which nothing else is known.
pub open spec fn bare_title(target: ScopedView) -> TitleView {
    TitleView {
        workspace: target.target.workspace_id,
        mission: "Workspace leader"@,
        actor: target.target.name + " · "@ + target.target.role,
    }
}

/// What the title says of a target that a snapshot of its host names.
pub open spec fn snapshot_title(target: ScopedView, snapshot: Snapshot) -> TitleView {
    let session = target.target.session_id;
    let bare = TitleView {
        workspace: workspace_name(snapshot.workspaces@, target.target.workspace_id),
        ..bare_title(target)
    };
    match find(snapshot.agents@, agent_in(session)) {
        Some(agent) => TitleView {
            mission: match find(snapshot.missions@, mission_with(agent.mission_id@)) {
                Some(mission) => mission.name@,
                None => bare.mission,
            },
            actor: agent.name@ + " · "@ + label_of(agent.state@),
            ..bare
        },
        None => match find(snapshot.leaders@, leader_in(session)) {
            Some(leader) => TitleView {
                actor: leader.name@ + " · "@ + label_of(leader.state@),
                ..bare
            },
            None => bare,
        },
    }
}

fn write_known_title(presentation: &TabPresentation) -> (title: Title)
    ensures
        title.parts() == known_title(presentation@),
{
    let mission = match &presentation.mission {
        Some(mission) => match presentation.mission_number {
            Some(number) => concat4("#", &decimal(number), " ", mission),
            None => mission.clone(),
        },
        None => "Workspace leader".to_owned(),
    };
    let start = concat4(&presentation.actor, " · ", &presentation.role, " · ");
    let actor = if presentation.offline {
        concat2(&start, "OFFLINE")
    } else {
        concat2(&start, &presentation.state)
    };
    Title { workspace: presentation.workspace.clone(), mission, actor }
}

fn write_bare_title(target: &ScopedTarget) -> (title: Title)
    ensures
        title.parts() == bare_title(target@),
{
    Title {
        workspace: target.target.workspace_id.clone(),
        mission: "Workspace leader".to_owned(),
        actor: concat3(&target.target.name, " · ", &target.target.role),
    }
}

fn write_snapshot_title(target: &ScopedTarget, snapshot: &Snapshot) -> (title: Title)
    ensures
        title.parts() == snapshot_title(target@, *snapshot),
{
    let session = &target.target.session_id;
    let bare = write_bare_title(target);
    let workspace = name_of_workspace(&snapshot.workspaces, &target.target.workspace_id);
    if let Some(at) = find_agent_in(&snapshot.agents, session) {
        let agent = &snapshot.agents[at];
        let mission = match find_mission(&snapshot.missions, &agent.mission_id) {
            Some(at) => snapshot.missions[at].name.clone(),
            None => bare.mission,
        };
        let actor = concat3(&agent.name, " · ", status_label(&agent.state));
        return Title { workspace, mission, actor };
    }
    if let Some(at) = find_leader_in(&snapshot.leaders, session) {
        let leader = &snapshot.leaders[at];
        let actor = concat3(&leader.name, " · ", status_label(&leader.state));
        return Title { workspace, mission: bare.mission, actor };
    }
    Title { workspace, mission: bare.mission, actor: bare.actor }
}

/// The parts of a title in one line that is cut to a width; of few columns the host and the actor
/// get one half each.
pub open spec fn title_line(title: TitleView, host: Seq<char>, width: u16) -> Seq<char> {
    let room = minus(width, 4) as nat;
    if room < 48 {
        let half = room / 2;
        let rest = if room <= 3 + half {
            0
        } else {
            (room - 3 - half) as nat
        };
        " "@ + clipped(host, half) + " / "@ + clipped(title.actor, rest) + " "@
    } else {
        clipped(
            " "@ + title.workspace + " / "@ + host + " / "@ + title.mission + " / "@ + title.actor
                + " "@,
            room,
        )
    }
}

fn write_title_line(title: &Title, host: &str, width: u16) -> (line: String)
    ensures
        line@ == title_line(title.parts(), host@, width),
{
    let room: usize = difference(width, 4) as usize;
    if room < 48 {
        let half: usize = room / 2;
        let rest: usize = if room <= 3 + half {
            0
        } else {
            room - 3 - half
        };
        let start = concat3(" ", &clip_label(host, half), " / ");
        return concat3(&start, &clip_label(&title.actor, rest), " ");
    }
    let start = concat4(" ", &title.workspace, " / ", host);
    let middle = concat4(&start, " / ", &title.mission, " / ");
    let line = concat3(&middle, &title.actor, " ");
    clip_label(&line, room)
}

impl App {
    /// What a machine is called: by its label, and by its own name before it where that is known
    /// and differs.
    pub open spec fn host_name(self, host: Seq<char>) -> Seq<char> {
        let configured = configured_label(self.hosts@, host);
        match self.snapshot {
            Some(snapshot) => if self.selected_host@ == host && snapshot.machine.name@
                != configured {
                snapshot.machine.name@ + " · "@ + configured
            } else {
                configured
            },
            None => configured,
        }
    }

    /// What a machine is called.
    pub fn host_label(&self, host_id: &HostId) -> (label: String)
        ensures
            label@ == self.host_name(host_id@),
    {
        let configured = label_of_host(&self.hosts, host_id);
        if let Some(snapshot) = &self.snapshot {
            if self.selected_host == *host_id && !same_text(&snapshot.machine.name, &configured) {
                return concat3(&snapshot.machine.name, " · ", &configured);
            }
        }
        configured
    }

    /// What is known of the session of a tab.
    pub open spec fn presentation(self, key: KeyView) -> Option<PresentationView> {
        presented(self.tab_presentations@).get(key)
    }

    /// Whether another tab looks like the tab of a session.
    pub open spec fn has_double(self, key: KeyView, presentation: PresentationView) -> bool {
        duplicated(self.tabs@, presented(self.tab_presentations@), key, presentation)
    }

    /// What is written on a tab: its name and its state, and its machine where it could be taken for
    /// another.
    pub open spec fn tab_name(self, target: ScopedView) -> Seq<char> {
        match self.presentation(target.key) {
            Some(presentation) => {
                let label = presentation.actor + " · "@ + tab_suffix(presentation);
                if self.has_double(target.key, presentation) {
                    label + " @"@ + self.host_name(target.key.host)
                } else {
                    label
                }
            },
            None => target.target.name + " · UNKNOWN"@,
        }
    }

    /// What is written on a tab.
    pub fn tab_label(&self, target: &ScopedTarget) -> (label: String)
        ensures
            label@ == self.tab_name(target@),
    {
        let presentation = match find_presentation(&self.tab_presentations, &target.key) {
            Some(presentation) => presentation,
            None => return concat2(&target.target.name, " · UNKNOWN"),
        };
        let label = concat3(&presentation.actor, " · ", &write_suffix(presentation));
        if is_duplicated(&self.tabs, &self.tab_presentations, &target.key, presentation) {
            concat3(&label, " @", &self.host_label(&target.key.host_id))
        } else {
            label
        }
    }

    /// What is written on a tab where there is little room: the state before the machine, and the
    /// machine before the name.
    pub open spec fn short_tab_name(self, target: ScopedView, width: nat) -> Seq<char> {
        match self.presentation(target.key) {
            Some(presentation) => {
                let suffix = tab_suffix(presentation);
                let host = "@"@ + self.host_name(target.key.host);
                let kept = suffix.len() + 3;
                let kept_with_host = kept + host.len() + 1;
                if self.tab_name(target).len() <= width {
                    self.tab_name(target)
                } else if width <= suffix.len() {
                    clipped(suffix, width)
                } else if self.has_double(target.key, presentation) && width > kept_with_host {
                    clipped(presentation.actor, (width - kept_with_host) as nat) + " "@ + host
                        + " · "@ + suffix
                } else {
                    clipped(
                        presentation.actor,
                        if width <= kept {
                            0
                        } else {
                            (width - kept) as nat
                        },
                    ) + " · "@ + suffix
                }
            },
            None => clipped(target.target.name, width),
        }
    }

    /// What is written on a tab where there is little room.
    pub fn tab_label_for_width(&self, target: &ScopedTarget, width: usize) -> (label: String)
        ensures
            label@ == self.short_tab_name(target@, width as nat),
    {
        let presentation = match find_presentation(&self.tab_presentations, &target.key) {
            Some(presentation) => presentation,
            None => return clip_label(&target.target.name, width),
        };
        let full = self.tab_label(target);
        if full.as_str().unicode_len() <= width {
            return full;
        }
        let suffix = write_suffix(presentation);
        let length: usize = suffix.as_str().unicode_len();
        if width <= length {
            return clip_label(&suffix, width);
        }
        let room: usize = width - length;
        if is_duplicated(&self.tabs, &self.tab_presentations, &target.key, presentation) {
            let host = concat2("@", &self.host_label(&target.key.host_id));
            let host_length: usize = host.as_str().unicode_len();
            if room > 4 && room - 4 > host_length {
                let name = clip_label(&presentation.actor, room - 4 - host_length);
                let start = concat3(&name, " ", &host);
                return concat3(&start, " · ", &suffix);
            }
        }
        let name = clip_label(
            &presentation.actor,
            if room <= 3 {
                0
            } else {
                room - 3
            },
        );
        concat3(&name, " · ", &suffix)
    }

    /// What is written in the list of more tabs: there, a tab names its machine and its workspace.
    pub open spec fn listed_tab_name(self, target: ScopedView) -> Seq<char> {
        let workspace = match self.presentation(target.key) {
            Some(presentation) => presentation.workspace,
            None => target.target.workspace_id,
        };
        self.tab_name(target) + " @"@ + self.host_name(target.key.host) + " / "@ + workspace
    }

    /// What is written in the list of more tabs.
    pub fn overflow_tab_label(&self, target: &ScopedTarget) -> (label: String)
        ensures
            label@ == self.listed_tab_name(target@),
    {
        let workspace: &str = match find_presentation(&self.tab_presentations, &target.key) {
            Some(presentation) => presentation.workspace.as_str(),
            None => target.target.workspace_id.as_str(),
        };
        let start = concat3(&self.tab_label(target), " @", &self.host_label(&target.key.host_id));
        concat3(&start, " / ", workspace)
    }

    /// What the title of the pane says of a target.
    pub open spec fn title_parts(self, target: ScopedView) -> TitleView {
        match self.presentation(target.key) {
            Some(presentation) => known_title(presentation),
            None => match self.snapshot {
                Some(snapshot) => if target.key.host == self.selected_host@ {
                    snapshot_title(target, snapshot)
                } else {
                    bare_title(target)
                },
                None => bare_title(target),
            },
        }
    }

    /// The machine in the title of the pane.
    pub open spec fn title_host(self, target: ScopedView) -> Seq<char> {
        match self.presentation(target.key) {
            Some(presentation) => if presentation.host.len() > 0 {
                presentation.host
            } else {
                self.host_name(target.key.host)
            },
            None => self.host_name(target.key.host),
        }
    }

    /// The title of the pane.
    pub open spec fn title(self, width: u16) -> Seq<char> {
        match self.active_target {
            Some(target) => title_line(
                self.title_parts(target@),
                self.title_host(target@),
                width,
            ),
            None => " Workspace / machine / Workspace leader "@,
        }
    }

    fn write_title_host(&self, target: &ScopedTarget) -> (host: String)
        ensures
            host@ == self.title_host(target@),
    {
        if let Some(presentation) = find_presentation(&self.tab_presentations, &target.key) {
            if presentation.host.as_str().unicode_len() > 0 {
                return presentation.host.clone();
            }
        }
        self.host_label(&target.key.host_id)
    }

    fn write_title_parts(&self, target: &ScopedTarget) -> (title: Title)
        ensures
            title.parts() == self.title_parts(target@),
    {
        if let Some(presentation) = find_presentation(&self.tab_presentations, &target.key) {
            return write_known_title(presentation);
        }
        if let Some(snapshot) = &self.snapshot {
            if target.key.host_id == self.selected_host {
                return write_snapshot_title(target, snapshot);
            }
        }
        write_bare_title(target)
    }

    /// The title of the pane.
    pub fn pane_title(&self, width: u16) -> (title: String)
        ensures
            title@ == self.title(width),
    {
        let target = match &self.active_target {
            Some(target) => target,
            None => return " Workspace / machine / Workspace leader ".to_owned(),
        };
        let host = self.write_title_host(target);
        let title = self.write_title_parts(target);
        write_title_line(&title, &host, width)
    }
}

} // verus!
