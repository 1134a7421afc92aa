//! What tabs show of their sessions, under the key of each.

use vstd::prelude::*;
use vstd::string::*;

use crate::app::TabPresentation;
use crate::hosts::{HostId, KeyView, ScopedTarget, ScopedView, SessionKey};
use crate::navigation::{agent_of_session, find_session_agent, find_session_leader, leads_session};
use crate::protocol::{
    find_mission, find_workspace, label_of, mission_with, status_label, workspace_with, Agent,
    Mission, MissionLead, Snapshot, Workspace,
};
use crate::seqs::{find, first_is_position, position, position_is_first};
use crate::text::{clone_optional, optional, same_text};

verus! {

/// What a tab shows of its session.
#[verifier::ext_equal]
pub struct PresentationView {
    pub workspace: Seq<char>,
    pub host: Seq<char>,
    pub mission: Option<Seq<char>>,
    pub mission_number: Option<u64>,
    pub actor: Seq<char>,
    pub role: Seq<char>,
    pub state: Seq<char>,
    pub offline: bool,
}

impl View for TabPresentation {
    type V = PresentationView;

    open spec fn view(&self) -> PresentationView {
        PresentationView {
            workspace: self.workspace@,
            host: self.host@,
            mission: optional(self.mission),
            mission_number: self.mission_number,
            actor: self.actor@,
            role: self.role@,
            state: self.state@,
            offline: self.offline,
        }
    }
}

impl Clone for TabPresentation {
    fn clone(&self) -> (copy: Self)
        ensures
            copy == *self,
    {
        TabPresentation {
            workspace: self.workspace.clone(),
            host: self.host.clone(),
            mission: clone_optional(&self.mission),
            mission_number: self.mission_number,
            actor: self.actor.clone(),
            role: self.role.clone(),
            state: self.state.clone(),
            offline: self.offline,
        }
    }
}

/// Of a session nothing is known.
pub open spec fn unknown_presentation() -> PresentationView {
    PresentationView {
        workspace: seq![],
        host: seq![],
        mission: None,
        mission_number: None,
        actor: seq![],
        role: seq![],
        state: seq![],
        offline: false,
    }
}

impl Default for TabPresentation {
    fn default() -> (presentation: Self)
        ensures
            presentation@ == unknown_presentation(),
    {
        let presentation = TabPresentation {
            workspace: String::new(),
            host: String::new(),
            mission: None,
            mission_number: None,
            actor: String::new(),
            role: String::new(),
            state: String::new(),
            offline: false,
        };
        assert(presentation@ =~= unknown_presentation());
        presentation
    }
}

/// The entries under a key.
pub open spec fn under(key: KeyView) -> spec_fn((SessionKey, TabPresentation)) -> bool {
    |entry: (SessionKey, TabPresentation)| entry.0@ == key
}

/// What stands under each key: the first entry with it.
pub open spec fn presented(list: Seq<(SessionKey, TabPresentation)>) -> Map<
    KeyView,
    PresentationView,
> {
    Map::new(
        |key: KeyView| 0 <= position(list, under(key), 0) < list.len(),
        |key: KeyView| list[position(list, under(key), 0)].1@,
    )
}

proof fn lemma_pushed(
    list: Seq<(SessionKey, TabPresentation)>,
    entry: (SessionKey, TabPresentation),
)
    ensures
        presented(list.push(entry)) == (if presented(list).contains_key(entry.0@) {
            presented(list)
        } else {
            presented(list).insert(entry.0@, entry.1@)
        }),
{
    let after = list.push(entry);
    let expected = if presented(list).contains_key(entry.0@) {
        presented(list)
    } else {
        presented(list).insert(entry.0@, entry.1@)
    };
    assert forall|key: KeyView|
        #![trigger presented(after).dom().contains(key)]
        #![trigger presented(after)[key]]
        presented(after).contains_key(key) == expected.contains_key(key) && (expected.contains_key(
            key,
        ) ==> presented(after)[key] == expected[key]) by {
        let wanted = under(key);
        position_is_first(list, wanted, 0);
        let at = position(list, wanted, 0);
        assert(forall|i: int| 0 <= i < list.len() ==> after[i] == list[i]);
        if at < list.len() {
            first_is_position(after, wanted, 0, at);
        } else if entry.0@ == key {
            first_is_position(after, wanted, 0, list.len() as int);
        } else {
            first_is_position(after, wanted, 0, after.len() as int);
        }
    }
    assert(presented(after) =~= expected);
}

proof fn lemma_replaced(
    list: Seq<(SessionKey, TabPresentation)>,
    at: int,
    entry: (SessionKey, TabPresentation),
)
    requires
        0 <= at < list.len(),
        at == position(list, under(entry.0@), 0),
    ensures
        presented(list.update(at, entry)) == presented(list).insert(entry.0@, entry.1@),
{
    let after = list.update(at, entry);
    let expected = presented(list).insert(entry.0@, entry.1@);
    position_is_first(list, under(entry.0@), 0);
    assert forall|key: KeyView|
        #![trigger presented(after).dom().contains(key)]
        #![trigger presented(after)[key]]
        presented(after).contains_key(key) == expected.contains_key(key) && (expected.contains_key(
            key,
        ) ==> presented(after)[key] == expected[key]) by {
        let wanted = under(key);
        position_is_first(list, wanted, 0);
        let place = position(list, wanted, 0);
        assert(forall|i: int| 0 <= i < list.len() && i != at ==> after[i] == list[i]);
        assert(list[at].0@ == entry.0@);
        assert forall|i: int| 0 <= i < place implies !#[trigger] wanted(after[i]) by {
            assert(!wanted(list[i]));
        }
        first_is_position(after, wanted, 0, place);
    }
    assert(presented(after) =~= expected);
}

/// Where the entry under a key stands.
pub fn find_entry(list: &Vec<(SessionKey, TabPresentation)>, key: &SessionKey) -> (found: Option<
    usize,
>)
    ensures
        match found {
            Some(at) => at < list@.len() && position(list@, under(key@), 0) == at,
            None => position(list@, under(key@), 0) == list@.len(),
        },
{
    let mut at: usize = 0;
    while at < list.len()
        invariant
            at <= list@.len(),
            position(list@, under(key@), at as int) == position(list@, under(key@), 0),
        decreases list@.len() - at,
    {
        if list[at].0 == *key {
            return Some(at);
        }
        at = at + 1;
    }
    None
}

/// What stands under a key.
pub fn find_presentation<'a>(
    list: &'a Vec<(SessionKey, TabPresentation)>,
    key: &SessionKey,
) -> (found: Option<&'a TabPresentation>)
    ensures
        match found {
            Some(presentation) => presented(list@).get(key@) == Some(presentation@),
            None => presented(list@).get(key@) is None,
        },
{
    match find_entry(list, key) {
        Some(at) => Some(&list[at].1),
        None => None,
    }
}

/// Puts what a tab shows under its key.
pub fn put(
    list: &mut Vec<(SessionKey, TabPresentation)>,
    key: &SessionKey,
    presentation: TabPresentation,
)
    ensures
        presented(final(list)@) == presented(old(list)@).insert(key@, presentation@),
{
    let entry: (SessionKey, TabPresentation) = (key.clone(), presentation);
    match find_entry(list, key) {
        Some(at) => {
            proof {
                lemma_replaced(list@, at as int, entry);
            }
            list.set(at, entry);
        },
        None => {
            proof {
                lemma_pushed(list@, entry);
            }
            list.push(entry);
        },
    }
}

/// What is left where nothing stands under a key.
pub fn without(list: &Vec<(SessionKey, TabPresentation)>, key: &SessionKey) -> (rest: Vec<
    (SessionKey, TabPresentation),
>)
    ensures
        presented(rest@) == presented(list@).remove(key@),
{
    let mut rest: Vec<(SessionKey, TabPresentation)> = Vec::new();
    let mut at: usize = 0;
    assert(presented(rest@) =~= presented(list@.take(0)).remove(key@));
    while at < list.len()
        invariant
            at <= list@.len(),
            presented(rest@) == presented(list@.take(at as int)).remove(key@),
        decreases list@.len() - at,
    {
        let ghost now = list@.take(at as int);
        assert(list@.take(at + 1) =~= now.push(list@[at as int]));
        proof {
            lemma_pushed(now, list@[at as int]);
            lemma_pushed(rest@, list@[at as int]);
        }
        if list[at].0 != *key {
            rest.push((list[at].0.clone(), list[at].1.clone()));
        }
        assert(presented(rest@) =~= presented(list@.take(at + 1)).remove(key@));
        at = at + 1;
    }
    assert(list@.take(at as int) =~= list@);
    rest
}

/// A copy of what tabs show.
pub fn copy_of(list: &Vec<(SessionKey, TabPresentation)>) -> (copy: Vec<(SessionKey, TabPresentation)>)
    ensures
        copy@ == list@,
{
    let mut copy: Vec<(SessionKey, TabPresentation)> = Vec::new();
    let mut at: usize = 0;
    while at < list.len()
        invariant
            at <= list@.len(),
            copy@ == list@.take(at as int),
        decreases list@.len() - at,
    {
        copy.push((list[at].0.clone(), list[at].1.clone()));
        at = at + 1;
    }
    assert(list@.take(at as int) =~= list@);
    copy
}

/// The name of a workspace, else its id.
pub open spec fn workspace_name(workspaces: Seq<Workspace>, id: Seq<char>) -> Seq<char> {
    match find(workspaces, workspace_with(id)) {
        Some(workspace) => workspace.name@,
        None => id,
    }
}

/// The name of a workspace, else its id.
pub fn name_of_workspace(workspaces: &Vec<Workspace>, id: &str) -> (name: String)
    ensures
        name@ == workspace_name(workspaces@, id@),
{
    match find_workspace(workspaces, id) {
        Some(at) => workspaces[at].name.clone(),
        None => id.to_owned(),
    }
}

/// Whether an agent leads a mission.
pub open spec fn leads_mission(mission: Mission, agent_id: Seq<char>) -> bool {
    match mission.lead {
        MissionLead::Agent { agent_id: lead } => lead@ == agent_id,
        MissionLead::Leader => false,
    }
}

/// What the tab of an agent shows.
pub open spec fn agent_presentation(
    base: PresentationView,
    agent: Agent,
    mission: Option<Mission>,
) -> PresentationView {
    let named = PresentationView { actor: agent.name@, state: label_of(agent.state@), ..base };
    match mission {
        Some(mission) => PresentationView {
            mission: Some(mission.name@),
            mission_number: Some(mission.number),
            role: if leads_mission(mission, agent.id@) {
                "Mission lead"@
            } else {
                "Agent"@
            },
            ..named
        },
        None => named,
    }
}

/// What a tab shows of its session: the agent or the leader that a snapshot names for it, both
/// looked for in the workspace of the tab.
pub open spec fn presentation_of(
    tab: ScopedView,
    snapshot: Snapshot,
    offline: bool,
) -> PresentationView {
    let workspace = tab.target.workspace_id;
    let session = tab.target.session_id;
    let base = PresentationView {
        workspace: workspace_name(snapshot.workspaces@, workspace),
        host: snapshot.machine.name@,
        mission: None,
        mission_number: None,
        actor: tab.target.name,
        role: "Unknown role"@,
        state: "UNKNOWN"@,
        offline,
    };
    match find(snapshot.agents@, agent_of_session(snapshot.missions@, workspace, session)) {
        Some(agent) => agent_presentation(
            base,
            agent,
            find(snapshot.missions@, mission_with(agent.mission_id@)),
        ),
        None => match find(snapshot.leaders@, leads_session(workspace, session)) {
            Some(leader) => PresentationView {
                actor: leader.name@,
                role: "Workspace leader"@,
                state: label_of(leader.state@),
                ..base
            },
            None => base,
        },
    }
}

fn is_lead(mission: &Mission, agent_id: &str) -> (yes: bool)
    ensures
        yes == leads_mission(*mission, agent_id@),
{
    match &mission.lead {
        MissionLead::Agent { agent_id: lead } => same_text(lead, agent_id),
        MissionLead::Leader => false,
    }
}

fn present_agent(base: TabPresentation, agent: &Agent, missions: &Vec<Mission>) -> (presentation:
    TabPresentation)
    ensures
        presentation@ == agent_presentation(
            base@,
            *agent,
            find(missions@, mission_with(agent.mission_id@)),
        ),
{
    let mut presentation = base;
    presentation.actor = agent.name.clone();
    presentation.state = status_label(&agent.state).to_owned();
    if let Some(at) = find_mission(missions, &agent.mission_id) {
        presentation.mission = Some(missions[at].name.clone());
        presentation.mission_number = Some(missions[at].number);
        presentation.role = if is_lead(&missions[at], &agent.id) {
            "Mission lead".to_owned()
        } else {
            "Agent".to_owned()
        };
    }
    presentation
}

/// What a tab shows of its session.
pub fn present(tab: &ScopedTarget, snapshot: &Snapshot, offline: bool) -> (presentation:
    TabPresentation)
    ensures
        presentation@ == presentation_of(tab@, *snapshot, offline),
{
    let workspace = &tab.target.workspace_id;
    let session = &tab.target.session_id;
    let mut presentation = TabPresentation {
        workspace: name_of_workspace(&snapshot.workspaces, workspace),
        host: snapshot.machine.name.clone(),
        mission: None,
        mission_number: None,
        actor: tab.target.name.clone(),
        role: "Unknown role".to_owned(),
        state: "UNKNOWN".to_owned(),
        offline,
    };
    if let Some(at) = find_session_agent(snapshot, workspace, session) {
        return present_agent(presentation, &snapshot.agents[at], &snapshot.missions);
    }
    if let Some(at) = find_session_leader(snapshot, workspace, session) {
        let leader = &snapshot.leaders[at];
        presentation.actor = leader.name.clone();
        presentation.role = "Workspace leader".to_owned();
        presentation.state = status_label(&leader.state).to_owned();
    }
    presentation
}

/// What tabs show after the tabs of a host took a new snapshot of it in.
pub open spec fn synced(
    before: Map<KeyView, PresentationView>,
    tabs: Seq<ScopedTarget>,
    host: Seq<char>,
    snapshot: Snapshot,
    offline: bool,
) -> Map<KeyView, PresentationView>
    decreases tabs.len(),
{
    if tabs.len() == 0 {
        before
    } else {
        let rest = synced(before, tabs.drop_last(), host, snapshot, offline);
        let tab = tabs.last()@;
        if tab.key.host == host {
            rest.insert(tab.key, presentation_of(tab, snapshot, offline))
        } else {
            rest
        }
    }
}

/// What tabs show after a host went away: what they showed before, marked as stale.
pub open spec fn gone_offline(
    before: Map<KeyView, PresentationView>,
    tabs: Seq<ScopedTarget>,
    host: Seq<char>,
) -> Map<KeyView, PresentationView>
    decreases tabs.len(),
{
    if tabs.len() == 0 {
        before
    } else {
        let rest = gone_offline(before, tabs.drop_last(), host);
        let key = tabs.last()@.key;
        if key.host == host {
            let known = if rest.contains_key(key) {
                rest[key]
            } else {
                unknown_presentation()
            };
            rest.insert(key, PresentationView { offline: true, ..known })
        } else {
            rest
        }
    }
}

/// A snapshot of one host, or the news that it went away, changes nothing that the tabs of another
/// host show.
pub proof fn hosts_keep_their_own_tabs(
    before: Map<KeyView, PresentationView>,
    tabs: Seq<ScopedTarget>,
    host: Seq<char>,
    snapshot: Snapshot,
    offline: bool,
    key: KeyView,
)
    requires
        key.host != host,
    ensures
        synced(before, tabs, host, snapshot, offline).get(key) == before.get(key),
        gone_offline(before, tabs, host).get(key) == before.get(key),
    decreases tabs.len(),
{
    if tabs.len() > 0 {
        hosts_keep_their_own_tabs(before, tabs.drop_last(), host, snapshot, offline, key);
    }
}

/// Whether every tab that stands for the same session is the same tab.
pub open spec fn tabs_agree(tabs: Seq<ScopedTarget>, tab: ScopedView) -> bool {
    forall|i: int|
        0 <= i < tabs.len() && (#[trigger] tabs[i])@.key == tab.key ==> tabs[i]@ == tab
}

/// A tab of a host shows what the latest snapshot of that host says of it, whatever it showed
/// before, and so recovers when the host comes back.
pub proof fn tabs_show_the_latest_snapshot(
    before: Map<KeyView, PresentationView>,
    tabs: Seq<ScopedTarget>,
    at: int,
    snapshot: Snapshot,
    offline: bool,
)
    requires
        0 <= at < tabs.len(),
        tabs_agree(tabs, tabs[at]@),
    ensures
        synced(before, tabs, tabs[at]@.key.host, snapshot, offline).get(tabs[at]@.key) == Some(
            presentation_of(tabs[at]@, snapshot, offline),
        ),
    decreases tabs.len(),
{
    let rest = tabs.drop_last();
    let tab = tabs[at]@;
    if at < tabs.len() - 1 {
        assert(rest[at] == tabs[at]);
        assert forall|i: int| 0 <= i < rest.len() && (#[trigger] rest[i])@.key == tab.key implies rest[i]@ == tab by {
            assert(rest[i] == tabs[i]);
        }
        tabs_show_the_latest_snapshot(before, rest, at, snapshot, offline);
    }
}

/// The presentations of the tabs of a host after a new snapshot of it.
pub fn sync(
    before: &Vec<(SessionKey, TabPresentation)>,
    tabs: &Vec<ScopedTarget>,
    host_id: &HostId,
    snapshot: &Snapshot,
    offline: bool,
) -> (after: Vec<(SessionKey, TabPresentation)>)
    ensures
        presented(after@) == synced(presented(before@), tabs@, host_id@, *snapshot, offline),
{
    let mut after = copy_of(before);
    let mut at: usize = 0;
    while at < tabs.len()
        invariant
            at <= tabs@.len(),
            presented(after@) == synced(
                presented(before@),
                tabs@.take(at as int),
                host_id@,
                *snapshot,
                offline,
            ),
        decreases tabs@.len() - at,
    {
        let ghost now = tabs@.take(at + 1);
        assert(now.drop_last() =~= tabs@.take(at as int));
        assert(now.last() == tabs@[at as int]);
        let tab = &tabs[at];
        if tab.key.host_id == *host_id {
            let presentation = present(tab, snapshot, offline);
            put(&mut after, &tab.key, presentation);
        }
        at = at + 1;
    }
    assert(tabs@.take(at as int) =~= tabs@);
    after
}

/// The presentations of the tabs of a host after it went away.
pub fn mark_offline(
    before: &Vec<(SessionKey, TabPresentation)>,
    tabs: &Vec<ScopedTarget>,
    host_id: &HostId,
) -> (after: Vec<(SessionKey, TabPresentation)>)
    ensures
        presented(after@) == gone_offline(presented(before@), tabs@, host_id@),
{
    let mut after = copy_of(before);
    let mut at: usize = 0;
    while at < tabs.len()
        invariant
            at <= tabs@.len(),
            presented(after@) == gone_offline(presented(before@), tabs@.take(at as int), host_id@),
        decreases tabs@.len() - at,
    {
        let ghost now = tabs@.take(at + 1);
        assert(now.drop_last() =~= tabs@.take(at as int));
        assert(now.last() == tabs@[at as int]);
        let tab = &tabs[at];
        if tab.key.host_id == *host_id {
            let mut presentation = match find_presentation(&after, &tab.key) {
                Some(presentation) => presentation.clone(),
                None => TabPresentation::default(),
            };
            presentation.offline = true;
            put(&mut after, &tab.key, presentation);
        }
        at = at + 1;
    }
    assert(tabs@.take(at as int) =~= tabs@);
    after
}

} // verus!
