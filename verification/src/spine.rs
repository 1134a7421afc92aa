//! The spine: the rows beside the pane, and the cursor that moves over them.

use vstd::prelude::*;
use vstd::string::*;

use crate::app::{has_text, lists_text, App, ArchivedConversation, StatusFilter};
use crate::labels::{needs_person, waits_for_person};
use crate::order::{
    in_order, is_before, lemma_text_order, sort, sorted, sorting_commutes_with_looking,
    sorting_orders, text_before,
};
use crate::picker::last_place;
use crate::protocol::{label_of, started_label, started_of, status_label, Agent, Mission, Snapshot};
use crate::seqs::{position, position_is_first};
use crate::text::{
    byte_range, byte_slice, concat2, concat3, concat4, decimal, decimal_of, optional, same_text,
};

verus! {

/// What a row of the spine stands for.
#[derive(Debug, PartialEq, Eq)]
pub enum RowKind {
    Leader,
    Mission(String),
    Agent(String),
    ArchiveGroup,
    ArchivedAgent(String),
    OlderArchives,
}

/// What a row of the spine stands for.
#[verifier::ext_equal]
pub enum RowKindView {
    Leader,
    Mission(Seq<char>),
    Agent(Seq<char>),
    ArchiveGroup,
    ArchivedAgent(Seq<char>),
    OlderArchives,
}

impl View for RowKind {
    type V = RowKindView;

    open spec fn view(&self) -> RowKindView {
        match *self {
            RowKind::Leader => RowKindView::Leader,
            RowKind::Mission(id) => RowKindView::Mission(id@),
            RowKind::Agent(id) => RowKindView::Agent(id@),
            RowKind::ArchiveGroup => RowKindView::ArchiveGroup,
            RowKind::ArchivedAgent(id) => RowKindView::ArchivedAgent(id@),
            RowKind::OlderArchives => RowKindView::OlderArchives,
        }
    }
}

/// A row of the spine.
#[derive(Debug, PartialEq, Eq)]
pub struct Row {
    pub label: String,
    pub detail: String,
    pub state: String,
    pub kind: RowKind,
    /// The day that starts with this row.
    pub date: Option<String>,
}

/// What a row of the spine holds.
#[verifier::ext_equal]
pub struct RowView {
    pub label: Seq<char>,
    pub detail: Seq<char>,
    pub state: Seq<char>,
    pub kind: RowKindView,
    pub date: Option<Seq<char>>,
}

impl View for Row {
    type V = RowView;

    open spec fn view(&self) -> RowView {
        RowView {
            label: self.label@,
            detail: self.detail@,
            state: self.state@,
            kind: self.kind@,
            date: optional(self.date),
        }
    }
}

/// What the rows of a list hold.
pub open spec fn row_views(rows: Seq<Row>) -> Seq<RowView> {
    rows.map_values(|row: Row| row@)
}

impl RowKindView {
    /// The name by which a row is found again.
    pub open spec fn key(self) -> Seq<char> {
        match self {
            RowKindView::Leader => "leader"@,
            RowKindView::Mission(id) => "m:"@ + id,
            RowKindView::Agent(id) => "a:"@ + id,
            RowKindView::ArchiveGroup => "archives"@,
            RowKindView::ArchivedAgent(id) => "r:"@ + id,
            RowKindView::OlderArchives => "older"@,
        }
    }
}

/// The name by which a row is found again.
pub fn row_key(kind: &RowKind) -> (key: String)
    ensures
        key@ == kind@.key(),
{
    match kind {
        RowKind::Leader => "leader".to_owned(),
        RowKind::Mission(id) => concat2("m:", id),
        RowKind::Agent(id) => concat2("a:", id),
        RowKind::ArchiveGroup => "archives".to_owned(),
        RowKind::ArchivedAgent(id) => concat2("r:", id),
        RowKind::OlderArchives => "older".to_owned(),
    }
}

/// Rows that stand for different things have different names.
pub proof fn row_keys_tell_rows_apart(left: RowKindView, right: RowKindView)
    requires
        left.key() == right.key(),
    ensures
        left == right,
{
    lemma_key_parts(left);
    lemma_key_parts(right);
}

/// A name tells what it names: its first two characters the sort of row, the rest the id.
proof fn lemma_key_parts(kind: RowKindView)
    ensures
        kind.key().len() >= 2,
        match kind {
            RowKindView::Leader => kind.key()[0] == 'l',
            RowKindView::Mission(id) => kind.key()[0] == 'm' && kind.key().skip(2) == id,
            RowKindView::Agent(id) => kind.key()[0] == 'a' && kind.key()[1] == ':'
                && kind.key().skip(2) == id,
            RowKindView::ArchiveGroup => kind.key()[0] == 'a' && kind.key()[1] == 'r',
            RowKindView::ArchivedAgent(id) => kind.key()[0] == 'r' && kind.key().skip(2) == id,
            RowKindView::OlderArchives => kind.key()[0] == 'o',
        },
{
    reveal_strlit("leader");
    reveal_strlit("m:");
    reveal_strlit("a:");
    reveal_strlit("archives");
    reveal_strlit("r:");
    reveal_strlit("older");
    match kind {
        RowKindView::Mission(id) => {
            assert(kind.key().skip(2) =~= id);
        },
        RowKindView::Agent(id) => {
            assert(kind.key().skip(2) =~= id);
        },
        RowKindView::ArchivedAgent(id) => {
            assert(kind.key().skip(2) =~= id);
        },
        _ => {},
    }
}

/// The missions of the workspace that the filter lets through.
pub open spec fn shown(filter: StatusFilter, workspace: Option<Seq<char>>) -> spec_fn(
    Mission,
) -> bool {
    |mission: Mission|
        workspace == Some(mission.workspace_id@) && match filter {
            StatusFilter::All => true,
            StatusFilter::Running => mission.state@ == "running"@,
            StatusFilter::NeedsYou => waits_for_person(mission.state@),
            StatusFilter::Archived => false,
        }
}

/// Missions from the newest to the oldest, and by their ids where they are of the same age.
pub open spec fn newer() -> spec_fn(Mission, Mission) -> bool {
    |left: Mission, right: Mission|
        text_before(right.created_at@, left.created_at@) || (right.created_at@ == left.created_at@
            && text_before(right.id@, left.id@))
}

/// The missions of the spine, in their order.
pub open spec fn spine_missions(
    missions: Seq<Mission>,
    filter: StatusFilter,
    workspace: Option<Seq<char>>,
) -> Seq<Mission> {
    sorted(missions.filter(shown(filter, workspace)), newer())
}

/// The missions of the spine are those that the filter lets through, from the newest to the oldest.
pub proof fn the_spine_runs_from_new_to_old(
    missions: Seq<Mission>,
    filter: StatusFilter,
    workspace: Option<Seq<char>>,
)
    ensures
        in_order(spine_missions(missions, filter, workspace), newer()),
        spine_missions(missions, filter, workspace).to_multiset() == missions.filter(
            shown(filter, workspace),
        ).to_multiset(),
{
    assert forall|a: Mission, b: Mission| #[trigger] newer()(a, b) implies !newer()(b, a) by {
        lemma_text_order(a.created_at@, b.created_at@, a.created_at@);
        lemma_text_order(a.id@, b.id@, a.id@);
    }
    assert forall|a: Mission, b: Mission, c: Mission|
        #![trigger newer()(b, a), newer()(c, b)]
        !newer()(b, a) && !newer()(c, b) implies !newer()(c, a) by {
        lemma_text_order(a.created_at@, b.created_at@, c.created_at@);
        lemma_text_order(a.id@, b.id@, c.id@);
    }
    sorting_orders(missions.filter(shown(filter, workspace)), newer());
}

/// The day of a time stamp: its first ten bytes, or all of it.
pub open spec fn day_of(created_at: Seq<char>) -> Seq<char> {
    match byte_slice(created_at, 0, 10) {
        Some(day) => day,
        None => created_at,
    }
}

fn day(created_at: &str) -> (day: String)
    ensures
        day@ == day_of(created_at@),
{
    match byte_range(created_at, 0, 10) {
        Some(day) => day,
        None => created_at.to_owned(),
    }
}

/// The sign of a fold.
pub open spec fn fold_sign(open: bool) -> Seq<char> {
    if open {
        "▾"@
    } else {
        "▸"@
    }
}

/// The row of the workspace leader.
pub open spec fn leader_row() -> RowView {
    RowView {
        label: "● NOW · workspace leader"@,
        detail: "0 jumps here"@,
        state: "LIVE"@,
        kind: RowKindView::Leader,
        date: None,
    }
}

/// The row of a mission.
pub open spec fn mission_row(mission: Mission, open: bool, date: Option<Seq<char>>) -> RowView {
    RowView {
        label: started_of(mission.created_at@) + " "@ + fold_sign(open) + " #"@ + decimal_of(
            mission.number as nat,
        ) + " "@ + mission.name@,
        detail: match mission.attention {
            Some(attention) => decimal_of(mission.agent_ids@.len()) + " agents · "@ + attention@,
            None => decimal_of(mission.agent_ids@.len()) + " agents"@,
        },
        state: label_of(mission.state@),
        kind: RowKindView::Mission(mission.id@),
        date,
    }
}

/// The row of an agent.
pub open spec fn agent_view(agent: Agent) -> RowView {
    RowView {
        label: "      └ "@ + agent.name@ + " · "@ + agent.task@,
        detail: seq![],
        state: label_of(agent.state@),
        kind: RowKindView::Agent(agent.id@),
        date: None,
    }
}

/// The agents of a mission.
pub open spec fn works_on(mission_id: Seq<char>) -> spec_fn(Agent) -> bool {
    |agent: Agent| agent.mission_id@ == mission_id
}

/// The rows of the agents of a mission.
pub open spec fn agent_rows(agents: Seq<Agent>, mission_id: Seq<char>) -> Seq<RowView> {
    agents.filter(works_on(mission_id)).map_values(|agent: Agent| agent_view(agent))
}

/// The rows of one mission: its own, and those of its agents where it is folded open. `prior` is
/// the day of the mission before it.
pub open spec fn mission_group(
    mission: Mission,
    prior: Option<Seq<char>>,
    expanded: Seq<String>,
    agents: Seq<Agent>,
) -> Seq<RowView> {
    let open = lists_text(expanded, mission.id@);
    let day = day_of(mission.created_at@);
    let own = mission_row(mission, open, if prior == Some(day) {
        None
    } else {
        Some(day)
    });
    if open {
        seq![own] + agent_rows(agents, mission.id@)
    } else {
        seq![own]
    }
}

/// The rows of missions, in their order.
pub open spec fn mission_rows(
    missions: Seq<Mission>,
    expanded: Seq<String>,
    agents: Seq<Agent>,
) -> Seq<RowView>
    decreases missions.len(),
{
    if missions.len() == 0 {
        seq![]
    } else {
        mission_rows(missions.drop_last(), expanded, agents) + mission_group(
            missions.last(),
            if missions.len() > 1 {
                Some(day_of(missions[missions.len() - 2].created_at@))
            } else {
                None
            },
            expanded,
            agents,
        )
    }
}

/// The row of the archive.
pub open spec fn archive_group_row(open: bool) -> RowView {
    RowView {
        label: fold_sign(open) + " ARCHIVED · saved conversations"@,
        detail: seq![],
        state: "SAVED"@,
        kind: RowKindView::ArchiveGroup,
        date: None,
    }
}

/// The row of an archived conversation.
pub open spec fn archive_row(archive: ArchivedConversation) -> RowView {
    RowView {
        label: "      └ "@ + archive.agent_name@ + " · "@ + archive.mission_name@,
        detail: archive.task@,
        state: "ARCHIVED"@,
        kind: RowKindView::ArchivedAgent(archive.agent_id@),
        date: None,
    }
}

/// The row that loads more of the archive.
pub open spec fn older_row() -> RowView {
    RowView {
        label: "      more archived missions…"@,
        detail: seq![],
        state: "SAVED"@,
        kind: RowKindView::OlderArchives,
        date: None,
    }
}

/// The archived conversations of the workspace.
pub open spec fn archived_in(workspace: Option<Seq<char>>) -> spec_fn(ArchivedConversation) -> bool {
    |archive: ArchivedConversation| workspace == Some(archive.workspace_id@)
}

/// The rows of archived conversations.
pub open spec fn archive_rows(
    archives: Seq<ArchivedConversation>,
    workspace: Option<Seq<char>>,
) -> Seq<RowView> {
    archives.filter(archived_in(workspace)).map_values(
        |archive: ArchivedConversation| archive_row(archive),
    )
}

/// Where a row with this name stands.
pub open spec fn named_row(key: Seq<char>) -> spec_fn(RowView) -> bool {
    |row: RowView| row.kind.key() == key
}

/// Where the cursor goes when the rows change: with the row that it stood on, else as near to its
/// place as the new rows allow.
pub open spec fn followed_row(before: Seq<RowView>, after: Seq<RowView>, cursor: usize) -> usize {
    let clamped = if cursor < last_place(after.len()) {
        cursor
    } else {
        last_place(after.len())
    };
    if cursor < before.len() {
        let place = position(after, named_row(before[cursor as int].kind.key()), 0);
        if place < after.len() {
            place as usize
        } else {
            clamped
        }
    } else {
        clamped
    }
}

/// When the rows change, the cursor stays on the row that it stood on, as long as that is there.
pub proof fn the_cursor_follows_its_row(
    before: Seq<RowView>,
    after: Seq<RowView>,
    cursor: usize,
)
    requires
        cursor < before.len(),
        after.len() <= usize::MAX,
        exists|i: int| 0 <= i < after.len() && (#[trigger] after[i]).kind == before[cursor as int].kind,
    ensures
        followed_row(before, after, cursor) < after.len(),
        after[followed_row(before, after, cursor) as int].kind == before[cursor as int].kind,
{
    let wanted = named_row(before[cursor as int].kind.key());
    position_is_first(after, wanted, 0);
    let i = choose|i: int|
        0 <= i < after.len() && (#[trigger] after[i]).kind == before[cursor as int].kind;
    assert(wanted(after[i]));
    let place = position(after, wanted, 0);
    row_keys_tell_rows_apart(after[place].kind, before[cursor as int].kind);
}

fn is_newer(left: &&Mission, right: &&Mission) -> (yes: bool)
    ensures
        yes == newer()(**left, **right),
{
    if is_before(&right.created_at, &left.created_at) {
        return true;
    }
    same_text(&right.created_at, &left.created_at) && is_before(&right.id, &left.id)
}

/// What missions are referred to.
pub open spec fn referred<'a>(missions: Seq<&'a Mission>) -> Seq<Mission> {
    missions.map_values(|mission: &'a Mission| *mission)
}

fn sort_missions<'a>(missions: Vec<&'a Mission>) -> (list: Vec<&'a Mission>)
    ensures
        referred(list@) == sorted(referred(missions@), newer()),
{
    let ghost before = |left: &'a Mission, right: &'a Mission| newer()(*left, *right);
    let ghost image = |mission: &'a Mission| *mission;
    proof {
        sorting_commutes_with_looking(missions@, image, before, newer());
    }
    sort(missions, is_newer, Ghost(before))
}

fn agent_row(agent: &Agent) -> (row: Row)
    ensures
        row@ == agent_view(*agent),
{
    let row = Row {
        label: concat4("      └ ", &agent.name, " · ", &agent.task),
        detail: String::new(),
        state: status_label(&agent.state).to_owned(),
        kind: RowKind::Agent(agent.id.clone()),
        date: None,
    };
    assert(row.detail@ =~= seq![]);
    row
}

fn new_mission_row(mission: &Mission, open: bool, date: Option<String>) -> (row: Row)
    ensures
        row@ == mission_row(*mission, open, optional(date)),
{
    let mut label = started_label(&mission.created_at);
    label.append(" ");
    label.append(if open { "▾" } else { "▸" });
    label.append(" #");
    label.append(&decimal(mission.number));
    label.append(" ");
    label.append(&mission.name);
    let count = decimal(mission.agent_ids.len() as u64);
    let detail = match &mission.attention {
        Some(attention) => concat3(&count, " agents · ", attention),
        None => concat2(&count, " agents"),
    };
    Row {
        label,
        detail,
        state: status_label(&mission.state).to_owned(),
        kind: RowKind::Mission(mission.id.clone()),
        date,
    }
}

fn push_row(rows: &mut Vec<Row>, row: Row)
    ensures
        row_views(final(rows)@) == row_views(old(rows)@).push(row@),
{
    rows.push(row);
    assert(row_views(rows@) =~= row_views(old(rows)@).push(row@));
}

fn push_agents(rows: &mut Vec<Row>, agents: &Vec<Agent>, mission_id: &str)
    ensures
        row_views(final(rows)@) == row_views(old(rows)@) + agent_rows(agents@, mission_id@),
{
    let ghost wanted = works_on(mission_id@);
    let ghost image = |agent: Agent| agent_view(agent);
    let mut at: usize = 0;
    proof {
        reveal(Seq::filter);
        assert(row_views(rows@) =~= row_views(old(rows)@) + agents@.take(0).filter(
            wanted,
        ).map_values(image));
    }
    while at < agents.len()
        invariant
            at <= agents@.len(),
            wanted == works_on(mission_id@),
            image == (|agent: Agent| agent_view(agent)),
            row_views(rows@) == row_views(old(rows)@) + agents@.take(at as int).filter(
                wanted,
            ).map_values(image),
        decreases agents@.len() - at,
    {
        let agent = &agents[at];
        let ghost now = agents@.take(at + 1);
        let ghost before = agents@.take(at as int);
        assert(now.drop_last() =~= before);
        assert(now.last() == *agent);
        proof {
            reveal(Seq::filter);
        }
        if same_text(&agent.mission_id, mission_id) {
            push_row(rows, agent_row(agent));
            assert(now.filter(wanted) =~= before.filter(wanted).push(*agent));
            assert(now.filter(wanted).map_values(image) =~= before.filter(wanted).map_values(
                image,
            ).push(agent_view(*agent)));
            assert(row_views(rows@) =~= row_views(old(rows)@) + now.filter(wanted).map_values(
                image,
            ));
        } else {
            assert(now.filter(wanted) =~= before.filter(wanted));
        }
        at = at + 1;
    }
    assert(agents@.take(at as int) =~= agents@);
}

fn push_archives(
    rows: &mut Vec<Row>,
    archives: &Vec<ArchivedConversation>,
    workspace_id: &Option<String>,
)
    ensures
        row_views(final(rows)@) == row_views(old(rows)@) + archive_rows(
            archives@,
            optional(*workspace_id),
        ),
{
    let ghost wanted = archived_in(optional(*workspace_id));
    let ghost image = |archive: ArchivedConversation| archive_row(archive);
    let mut at: usize = 0;
    proof {
        reveal(Seq::filter);
        assert(row_views(rows@) =~= row_views(old(rows)@) + archives@.take(0).filter(
            wanted,
        ).map_values(image));
    }
    while at < archives.len()
        invariant
            at <= archives@.len(),
            wanted == archived_in(optional(*workspace_id)),
            image == (|archive: ArchivedConversation| archive_row(archive)),
            row_views(rows@) == row_views(old(rows)@) + archives@.take(at as int).filter(
                wanted,
            ).map_values(image),
        decreases archives@.len() - at,
    {
        let archive = &archives[at];
        let ghost now = archives@.take(at + 1);
        let ghost before = archives@.take(at as int);
        assert(now.drop_last() =~= before);
        assert(now.last() == *archive);
        proof {
            reveal(Seq::filter);
        }
        let here: bool = match workspace_id {
            Some(id) => same_text(id, &archive.workspace_id),
            None => false,
        };
        if here {
            let row = Row {
                label: concat4(
                    "      └ ",
                    &archive.agent_name,
                    " · ",
                    &archive.mission_name,
                ),
                detail: archive.task.clone(),
                state: "ARCHIVED".to_owned(),
                kind: RowKind::ArchivedAgent(archive.agent_id.clone()),
                date: None,
            };
            push_row(rows, row);
            assert(now.filter(wanted) =~= before.filter(wanted).push(*archive));
            assert(now.filter(wanted).map_values(image) =~= before.filter(wanted).map_values(
                image,
            ).push(archive_row(*archive)));
            assert(row_views(rows@) =~= row_views(old(rows)@) + now.filter(wanted).map_values(
                image,
            ));
        } else {
            assert(now.filter(wanted) =~= before.filter(wanted));
        }
        at = at + 1;
    }
    assert(archives@.take(at as int) =~= archives@);
}

fn push_missions(
    rows: &mut Vec<Row>,
    missions: &Vec<&Mission>,
    expanded: &Vec<String>,
    agents: &Vec<Agent>,
)
    ensures
        row_views(final(rows)@) == row_views(old(rows)@) + mission_rows(
            referred(missions@),
            expanded@,
            agents@,
        ),
{
    let ghost all = referred(missions@);
    let ghost start = row_views(rows@);
    let mut prior: Option<String> = None;
    let mut at: usize = 0;
    assert(start + mission_rows(all.take(0), expanded@, agents@) =~= start);
    while at < missions.len()
        invariant
            at <= missions@.len(),
            all == referred(missions@),
            optional(prior) == (if at == 0 {
                None
            } else {
                Some(day_of(all[at - 1].created_at@))
            }),
            row_views(rows@) == start + mission_rows(all.take(at as int), expanded@, agents@),
        decreases missions@.len() - at,
    {
        let mission: &Mission = missions[at];
        let ghost now = all.take(at + 1);
        assert(now.drop_last() =~= all.take(at as int));
        assert(now.last() == *mission);
        let open: bool = has_text(expanded, &mission.id);
        let date = day(&mission.created_at);
        let same_day: bool = match &prior {
            Some(prior) => same_text(prior, &date),
            None => false,
        };
        let shown_date: Option<String> = if same_day {
            None
        } else {
            Some(date.clone())
        };
        let ghost before = row_views(rows@);
        push_row(rows, new_mission_row(mission, open, shown_date));
        if open {
            push_agents(rows, agents, &mission.id);
        }
        let ghost group = mission_group(
            *mission,
            if now.len() > 1 {
                Some(day_of(now[now.len() - 2].created_at@))
            } else {
                None
            },
            expanded@,
            agents@,
        );
        assert(row_views(rows@) =~= before + group);
        assert(row_views(rows@) =~= start + mission_rows(now, expanded@, agents@));
        prior = Some(date);
        at = at + 1;
    }
    assert(all.take(at as int) =~= all);
}

/// The rows of the spine: the leader, the missions with their agents, and the archive. Without a
/// snapshot there is none.
#[verifier::opaque]
pub open spec fn spine_of(
    snapshot: Option<Snapshot>,
    filter: StatusFilter,
    workspace: Option<Seq<char>>,
    expanded: Seq<String>,
    shows_archives: bool,
    archives: Seq<ArchivedConversation>,
    more_archives: bool,
) -> Seq<RowView> {
    match snapshot {
        None => seq![],
        Some(snapshot) => seq![leader_row()] + mission_rows(
            spine_missions(snapshot.missions@, filter, workspace),
            expanded,
            snapshot.agents@,
        ) + seq![archive_group_row(shows_archives)] + (if shows_archives {
            archive_rows(archives, workspace) + (if more_archives {
                seq![older_row()]
            } else {
                seq![]
            })
        } else {
            seq![]
        }),
    }
}

impl App {
    /// Whether the archive is folded open.
    pub open spec fn shows_archives(self) -> bool {
        match self.status_filter {
            StatusFilter::All => self.archived_expanded,
            StatusFilter::Archived => true,
            _ => false,
        }
    }

    /// The rows of the spine.
    pub open spec fn spine(self) -> Seq<RowView> {
        spine_of(
            self.snapshot,
            self.status_filter,
            self.workspace(),
            self.expanded@,
            self.shows_archives(),
            self.archives@,
            self.archive_next_cursor is Some,
        )
    }

    fn shown_missions<'a>(&self, missions: &'a Vec<Mission>) -> (list: Vec<&'a Mission>)
        ensures
            referred(list@) == missions@.filter(shown(self.status_filter, self.workspace())),
    {
        let ghost wanted = shown(self.status_filter, self.workspace());
        let mut list: Vec<&'a Mission> = Vec::new();
        let mut at: usize = 0;
        proof {
            reveal(Seq::filter);
            assert(referred(list@) =~= missions@.take(0).filter(wanted));
        }
        while at < missions.len()
            invariant
                at <= missions@.len(),
                wanted == shown(self.status_filter, self.workspace()),
                referred(list@) == missions@.take(at as int).filter(wanted),
            decreases missions@.len() - at,
        {
            let mission = &missions[at];
            let ghost now = missions@.take(at + 1);
            assert(now.drop_last() =~= missions@.take(at as int));
            assert(now.last() == *mission);
            proof {
                reveal(Seq::filter);
            }
            let passes: bool = match self.status_filter {
                StatusFilter::All => true,
                StatusFilter::Running => same_text(&mission.state, "running"),
                StatusFilter::NeedsYou => needs_person(&mission.state),
                StatusFilter::Archived => false,
            };
            if self.in_workspace(&mission.workspace_id) && passes {
                let ghost before = list@;
                list.push(mission);
                assert(referred(list@) =~= referred(before).push(*mission));
            }
            at = at + 1;
        }
        assert(missions@.take(at as int) =~= missions@);
        list
    }

    /// The rows of the spine.
    pub fn rows(&self) -> (rows: Vec<Row>)
        ensures
            row_views(rows@) == self.spine(),
    {
        let mut rows: Vec<Row> = Vec::new();
        proof {
            reveal(spine_of);
        }
        assert(row_views(rows@) =~= seq![]);
        let snapshot = match &self.snapshot {
            Some(snapshot) => snapshot,
            None => return rows,
        };
        let missions = sort_missions(self.shown_missions(&snapshot.missions));
        push_row(
            &mut rows,
            Row {
                label: "● NOW · workspace leader".to_owned(),
                detail: "0 jumps here".to_owned(),
                state: "LIVE".to_owned(),
                kind: RowKind::Leader,
                date: None,
            },
        );
        assert(row_views(rows@) =~= seq![leader_row()]);
        push_missions(&mut rows, &missions, &self.expanded, &snapshot.agents);
        let show_archives: bool = match self.status_filter {
            StatusFilter::All => self.archived_expanded,
            StatusFilter::Archived => true,
            _ => false,
        };
        let group = Row {
            label: concat2(
                if show_archives { "▾" } else { "▸" },
                " ARCHIVED · saved conversations",
            ),
            detail: String::new(),
            state: "SAVED".to_owned(),
            kind: RowKind::ArchiveGroup,
            date: None,
        };
        assert(group@ =~= archive_group_row(show_archives));
        push_row(&mut rows, group);
        if show_archives {
            push_archives(&mut rows, &self.archives, &self.workspace_id);
            if self.archive_next_cursor.is_some() {
                let older = Row {
                    label: "      more archived missions…".to_owned(),
                    detail: String::new(),
                    state: "SAVED".to_owned(),
                    kind: RowKind::OlderArchives,
                    date: None,
                };
                assert(older@ =~= older_row());
                push_row(&mut rows, older);
            }
        }
        assert(row_views(rows@) =~= self.spine());
        rows
    }

    /// The number of rows of the spine.
    pub fn rows_len(&self) -> (length: usize)
        ensures
            length == self.spine().len(),
    {
        let rows = self.rows();
        assert(row_views(rows@).len() == rows@.len());
        rows.len()
    }
}

} // verus!
