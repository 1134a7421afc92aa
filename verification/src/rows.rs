//! What the rows of the spine show: the leader, the missions of the workspace from new to old, below an
//! unfolded mission the agents that work on it, and the archive.

use vstd::prelude::*;
use vstd::string::*;

use crate::app::{lists_text, App, ArchivedConversation, StatusFilter};
use crate::order::text_before;
use crate::protocol::{label_of, Agent, Mission};
use crate::spine::{
    agent_rows, agent_view, archive_rows, archived_in, day_of, mission_group, mission_rows, newer,
    shown, spine_missions, spine_of, the_spine_runs_from_new_to_old, works_on, RowKindView, RowView,
};

verus! {

/// Where the elements stand that a list is reduced to.
spec fn kept_places<T>(list: Seq<T>, wanted: spec_fn(T) -> bool) -> Seq<int>
    decreases list.len(),
{
    if list.len() == 0 {
        seq![]
    } else if wanted(list.last()) {
        kept_places(list.drop_last(), wanted).push(list.len() - 1)
    } else {
        kept_places(list.drop_last(), wanted)
    }
}

/// Whether places of a list go upwards, and are all those that meet a condition.
pub open spec fn goes_through<T>(places: Seq<int>, list: Seq<T>, wanted: spec_fn(T) -> bool) -> bool {
    &&& forall|k: int, l: int|
        #![trigger places[k], places[l]]
        0 <= k < l < places.len() ==> places[k] < places[l]
    &&& forall|k: int|
        0 <= k < places.len() ==> 0 <= #[trigger] places[k] < list.len() && wanted(list[places[k]])
    &&& forall|i: int|
        0 <= i < list.len() && wanted(#[trigger] list[i]) ==> exists|k: int|
            0 <= k < places.len() && #[trigger] places[k] == i
}

proof fn lemma_kept_places<T>(list: Seq<T>, wanted: spec_fn(T) -> bool)
    ensures
        goes_through(kept_places(list, wanted), list, wanted),
        list.filter(wanted).len() == kept_places(list, wanted).len(),
        forall|k: int|
            0 <= k < kept_places(list, wanted).len() ==> #[trigger] list.filter(wanted)[k]
                == list[kept_places(list, wanted)[k]],
    decreases list.len(),
{
    reveal(Seq::filter);
    if list.len() > 0 {
        let before = list.drop_last();
        lemma_kept_places(before, wanted);
        let places = kept_places(list, wanted);
        let earlier = kept_places(before, wanted);
        assert forall|i: int| 0 <= i < list.len() && wanted(#[trigger] list[i]) implies exists|k: int|
            0 <= k < places.len() && #[trigger] places[k] == i by {
            if i < before.len() {
                assert(wanted(before[i]));
                let k = choose|k: int| 0 <= k < earlier.len() && #[trigger] earlier[k] == i;
                assert(places[k] == i);
            } else {
                assert(places[places.len() - 1] == i);
            }
        }
        assert forall|k: int| 0 <= k < places.len() implies 0 <= #[trigger] places[k] < list.len()
            && wanted(list[places[k]]) && list.filter(wanted)[k] == list[places[k]] by {
            if k < earlier.len() {
                assert(places[k] == earlier[k]);
                assert(wanted(before[earlier[k]]));
                assert(before.filter(wanted)[k] == before[earlier[k]]);
            }
        }
    }
}

/// The number of agent rows that stand one below the other from a place on.
pub open spec fn agents_from(rows: Seq<RowView>, at: int) -> nat
    decreases rows.len() - at,
{
    if 0 <= at < rows.len() && rows[at].kind is Agent {
        1 + agents_from(rows, at + 1)
    } else {
        0
    }
}

proof fn lemma_agents_from(rows: Seq<RowView>, at: int, count: int)
    requires
        0 <= at,
        0 <= count,
        at + count <= rows.len(),
        forall|i: int| at <= i < at + count ==> (#[trigger] rows[i]).kind is Agent,
        at + count == rows.len() || !(rows[at + count].kind is Agent),
    ensures
        agents_from(rows, at) == count,
    decreases count,
{
    if count > 0 {
        assert(rows[at].kind is Agent);
        lemma_agents_from(rows, at + 1, count - 1);
    }
}

proof fn lemma_rows_prefix(
    missions: Seq<Mission>,
    expanded: Seq<String>,
    agents: Seq<Agent>,
    count: int,
)
    requires
        0 <= count <= missions.len(),
    ensures
        mission_rows(missions.take(count), expanded, agents).len() <= mission_rows(
            missions,
            expanded,
            agents,
        ).len(),
        mission_rows(missions, expanded, agents).take(
            mission_rows(missions.take(count), expanded, agents).len() as int,
        ) == mission_rows(missions.take(count), expanded, agents),
    decreases missions.len(),
{
    let all = mission_rows(missions, expanded, agents);
    let some = mission_rows(missions.take(count), expanded, agents);
    if count == missions.len() {
        assert(missions.take(count) =~= missions);
        assert(all.take(some.len() as int) =~= some);
    } else {
        let before = missions.drop_last();
        lemma_rows_prefix(before, expanded, agents, count);
        assert(before.take(count) =~= missions.take(count));
        assert(all.take(some.len() as int) =~= mission_rows(before, expanded, agents).take(
            some.len() as int,
        ));
    }
}

/// Where the rows of a mission start among the rows of all missions.
spec fn group_start(
    missions: Seq<Mission>,
    expanded: Seq<String>,
    agents: Seq<Agent>,
    p: int,
) -> int {
    mission_rows(missions.take(p), expanded, agents).len() as int
}

spec fn prior_day(missions: Seq<Mission>, p: int) -> Option<Seq<char>> {
    if p > 0 {
        Some(day_of(missions[p - 1].created_at@))
    } else {
        None
    }
}

spec fn group_of(missions: Seq<Mission>, expanded: Seq<String>, agents: Seq<Agent>, p: int) -> Seq<
    RowView,
> {
    mission_group(missions[p], prior_day(missions, p), expanded, agents)
}

proof fn lemma_group(missions: Seq<Mission>, expanded: Seq<String>, agents: Seq<Agent>, p: int)
    requires
        0 <= p < missions.len(),
    ensures
        group_start(missions, expanded, agents, p) + group_of(missions, expanded, agents, p).len()
            == group_start(missions, expanded, agents, p + 1),
        0 <= group_start(missions, expanded, agents, p),
        group_start(missions, expanded, agents, p + 1) <= mission_rows(
            missions,
            expanded,
            agents,
        ).len(),
        forall|k: int|
            0 <= k < group_of(missions, expanded, agents, p).len() ==> mission_rows(
                missions,
                expanded,
                agents,
            )[group_start(missions, expanded, agents, p) + k] == #[trigger] group_of(
                missions,
                expanded,
                agents,
                p,
            )[k],
{
    let with = missions.take(p + 1);
    let all = mission_rows(missions, expanded, agents);
    let now = mission_rows(with, expanded, agents);
    lemma_rows_prefix(missions, expanded, agents, p + 1);
    assert(with.drop_last() =~= missions.take(p));
    assert(with.last() == missions[p]);
    if p > 0 {
        assert(with[p - 1] == missions[p - 1]);
    }
    let start = group_start(missions, expanded, agents, p);
    let group = group_of(missions, expanded, agents, p);
    assert(now == mission_rows(missions.take(p), expanded, agents) + group);
    assert forall|k: int| 0 <= k < group.len() implies all[start + k] == #[trigger] group[k] by {
        assert(all.take(now.len() as int)[start + k] == now[start + k]);
    }
}

/// The group in which a row stands.
proof fn lemma_group_at(
    missions: Seq<Mission>,
    expanded: Seq<String>,
    agents: Seq<Agent>,
    at: int,
) -> (p: int)
    requires
        0 <= at < mission_rows(missions, expanded, agents).len(),
    ensures
        0 <= p < missions.len(),
        group_start(missions, expanded, agents, p) <= at < group_start(
            missions,
            expanded,
            agents,
            p + 1,
        ),
    decreases missions.len(),
{
    let before = missions.drop_last();
    assert(missions.take(missions.len() as int) =~= missions);
    assert(missions.take(missions.len() - 1) =~= before);
    if at < mission_rows(before, expanded, agents).len() {
        let p = lemma_group_at(before, expanded, agents, at);
        assert(before.take(p) =~= missions.take(p));
        assert(before.take(p + 1) =~= missions.take(p + 1));
        p
    } else {
        missions.len() - 1
    }
}

impl App {
    /// The missions that the spine shows.
    pub open spec fn missions_shown(self) -> Seq<Mission> {
        spine_missions(self.snapshot->0.missions@, self.status_filter, self.workspace())
    }
}

proof fn lemma_parts(app: App)
    requires
        app.snapshot is Some,
    ensures
        ({
            let middle = mission_rows(
                app.missions_shown(),
                app.expanded@,
                app.snapshot->0.agents@,
            );
            let rows = app.spine();
            &&& rows.len() > 1 + middle.len()
            &&& rows[0].kind is Leader
            &&& forall|k: int|
                0 <= k < middle.len() ==> (#[trigger] rows[1 + k]) == middle[k]
            &&& forall|k: int| 0 <= k < middle.len() ==> rows[1 + k] == #[trigger] middle[k]
            &&& rows[1 + middle.len() as int].kind is ArchiveGroup
            &&& forall|i: int|
                1 + middle.len() < i < rows.len() ==> (#[trigger] rows[i]).kind is ArchivedAgent
                    || rows[i].kind is OlderArchives
            &&& rows.skip(2 + middle.len() as int) == if app.shows_archives() {
                archive_rows(app.archives@, app.workspace()) + (if app.archive_next_cursor is Some {
                    seq![crate::spine::older_row()]
                } else {
                    seq![]
                })
            } else {
                seq![]
            }
        }),
{
    reveal(spine_of);
    let middle = mission_rows(app.missions_shown(), app.expanded@, app.snapshot->0.agents@);
    let rows = app.spine();
    let saved = archive_rows(app.archives@, app.workspace());
    let rest = if app.shows_archives() {
        saved + (if app.archive_next_cursor is Some {
            seq![crate::spine::older_row()]
        } else {
            seq![]
        })
    } else {
        seq![]
    };
    assert(rows.skip(2 + middle.len() as int) =~= rest);
    assert forall|i: int| 1 + middle.len() < i < rows.len() implies (#[trigger] rows[i]).kind is ArchivedAgent
        || rows[i].kind is OlderArchives by {
        assert(rows[i] == rest[i - 2 - middle.len()]);
    }
}

proof fn lemma_spine_group(app: App, at: int) -> (p: int)
    requires
        app.snapshot is Some,
        0 <= at < app.spine().len(),
        app.spine()[at].kind is Mission || app.spine()[at].kind is Agent,
    ensures
        ({
            let missions = app.missions_shown();
            let agents = app.snapshot->0.agents@;
            let start = 1 + group_start(missions, app.expanded@, agents, p);
            let group = group_of(missions, app.expanded@, agents, p);
            &&& 0 <= p < missions.len()
            &&& start <= at < start + group.len()
            &&& start + group.len() < app.spine().len()
            &&& forall|k: int|
                0 <= k < group.len() ==> app.spine()[start + k] == #[trigger] group[k]
            &&& !(app.spine()[start + group.len() as int].kind is Agent)
            &&& app.spine()[at].kind is Mission ==> at == start
            &&& agents_from(app.spine(), start + 1) == group.len() - 1
        }),
{
    lemma_parts(app);
    let missions = app.missions_shown();
    let agents = app.snapshot->0.agents@;
    let middle = mission_rows(missions, app.expanded@, agents);
    assert(1 <= at < 1 + middle.len());
    let p = lemma_group_at(missions, app.expanded@, agents, at - 1);
    lemma_group(missions, app.expanded@, agents, p);
    let start = 1 + group_start(missions, app.expanded@, agents, p);
    let group = group_of(missions, app.expanded@, agents, p);
    assert forall|k: int| 0 <= k < group.len() implies app.spine()[start + k] == #[trigger] group[k] by {
        assert(middle[start - 1 + k] == group[k]);
        assert(app.spine()[1 + (start - 1 + k)] == middle[start - 1 + k]);
    }
    let end = start + group.len() as int;
    if p + 1 < missions.len() {
        lemma_group(missions, app.expanded@, agents, p + 1);
        let following = group_of(missions, app.expanded@, agents, p + 1);
        assert(following[0].kind is Mission);
        assert(app.spine()[1 + (end - 1)] == middle[end - 1]);
    } else {
        assert(missions.take(p + 1) =~= missions);
        assert(end == 1 + middle.len());
    }
    assert forall|k: int| 1 <= k < group.len() implies (#[trigger] group[k]).kind is Agent by {}
    assert(group[0].kind is Mission);
    if app.spine()[at].kind is Mission {
        assert(app.spine()[start + (at - start)] == group[at - start]);
    }
    assert forall|i: int| start + 1 <= i < end implies (#[trigger] app.spine()[i]).kind is Agent by {
        assert(app.spine()[start + (i - start)] == group[i - start]);
    }
    lemma_agents_from(app.spine(), start + 1, group.len() - 1);
    p
}

/// Below the row of a mission that is folded open stand the agents of that mission, all of them, in the
/// order in which the snapshot has them, and no other; below one that is folded stands none.
pub proof fn agents_stand_below_their_own_mission(app: App, at: int) -> (places: Seq<int>)
    requires
        app.snapshot is Some,
        0 <= at < app.spine().len(),
        app.spine()[at].kind is Mission,
    ensures
        ({
            let mission = app.spine()[at].kind->Mission_0;
            let agents = app.snapshot->0.agents@;
            let open = exists|i: int|
                0 <= i < app.expanded@.len() && (#[trigger] app.expanded@[i])@ == mission;
            &&& open ==> goes_through(places, agents, |agent: Agent| agent.mission_id@ == mission)
            &&& !open ==> places.len() == 0
            &&& agents_from(app.spine(), at + 1) == places.len()
            &&& at + places.len() < app.spine().len()
            &&& forall|k: int|
                0 <= k < places.len() ==> app.spine()[at + 1 + k].kind == RowKindView::Agent(
                    agents[#[trigger] places[k]].id@,
                )
        }),
{
    let p = lemma_spine_group(app, at);
    let missions = app.missions_shown();
    let agents = app.snapshot->0.agents@;
    let mission = missions[p];
    let group = group_of(missions, app.expanded@, agents, p);
    assert(app.spine()[at + 0] == group[0]);
    let wanted = works_on(mission.id@);
    assert(wanted =~= (|agent: Agent| agent.mission_id@ == mission.id@));
    lemma_kept_places(agents, wanted);
    let places = kept_places(agents, wanted);
    if lists_text(app.expanded@, mission.id@) {
        let below = agent_rows(agents, mission.id@);
        assert forall|k: int| 0 <= k < places.len() implies app.spine()[at + 1 + k].kind
            == RowKindView::Agent(agents[#[trigger] places[k]].id@) by {
            assert(app.spine()[at + (k + 1)] == group[k + 1]);
            assert(group[k + 1] == below[k]);
            assert(below[k] == agent_view(agents.filter(wanted)[k]));
        }
        places
    } else {
        seq![]
    }
}

/// Every agent row stands below the row of the mission that the agent works on, with nothing but other
/// agents between them, and shows that agent's name, task and state.
pub proof fn an_agent_row_belongs_to_the_mission_above(app: App, at: int) -> (origin: (int, int))
    requires
        app.snapshot is Some,
        0 <= at < app.spine().len(),
        app.spine()[at].kind is Agent,
    ensures
        ({
            let (above, place) = origin;
            let agent = app.snapshot->0.agents@[place];
            let row = app.spine()[at];
            &&& 0 <= above < at <= above + agents_from(app.spine(), above + 1)
            &&& 0 <= place < app.snapshot->0.agents@.len()
            &&& app.spine()[above].kind == RowKindView::Mission(agent.mission_id@)
            &&& row.kind == RowKindView::Agent(agent.id@)
            &&& (agent.name@ + " · "@ + agent.task@).is_suffix_of(row.label)
            &&& row.state == label_of(agent.state@)
        }),
{
    let p = lemma_spine_group(app, at);
    let missions = app.missions_shown();
    let agents = app.snapshot->0.agents@;
    let group = group_of(missions, app.expanded@, agents, p);
    let above = 1 + group_start(missions, app.expanded@, agents, p);
    assert(app.spine()[above + 0] == group[0]);
    assert(app.spine()[above + (at - above)] == group[at - above]);
    let wanted = works_on(missions[p].id@);
    lemma_kept_places(agents, wanted);
    let k = at - above - 1;
    let place = kept_places(agents, wanted)[k];
    assert(group[k + 1] == agent_rows(agents, missions[p].id@)[k]);
    assert(agents.filter(wanted)[k] == agents[place]);
    let agent = agents[place];
    let words = agent.name@ + " · "@ + agent.task@;
    let label = app.spine()[at].label;
    assert(label =~= "      └ "@ + words);
    assert(label.skip(label.len() - words.len()) =~= words);
    assert(words.is_suffix_of(label));
    (above, place)
}

/// Whether a filter lets a mission through, by its state.
pub open spec fn lets_through(filter: StatusFilter, state: Seq<char>) -> bool {
    match filter {
        StatusFilter::All => true,
        StatusFilter::Running => state == "running"@,
        StatusFilter::NeedsYou => state == "blocked"@ || state == "failed"@ || state
            == "readyToClose"@ || state == "mergedNotClosed"@,
        StatusFilter::Archived => false,
    }
}

/// Every mission row stands for a mission of the workspace that is shown, which the filter lets
/// through, and shows its name, its state, and whether it is folded open.
pub proof fn a_mission_row_belongs_to_the_workspace(app: App, at: int) -> (place: int)
    requires
        app.snapshot is Some,
        0 <= at < app.spine().len(),
        app.spine()[at].kind is Mission,
    ensures
        ({
            let mission = app.snapshot->0.missions@[place];
            let row = app.spine()[at];
            let open = exists|i: int|
                0 <= i < app.expanded@.len() && (#[trigger] app.expanded@[i])@ == mission.id@;
            &&& 0 <= place < app.snapshot->0.missions@.len()
            &&& row.kind == RowKindView::Mission(mission.id@)
            &&& app.workspace() == Some(mission.workspace_id@)
            &&& lets_through(app.status_filter, mission.state@)
            &&& (" "@ + mission.name@).is_suffix_of(row.label)
            &&& row.state == label_of(mission.state@)
            &&& row.label.contains(if open {
                '▾'
            } else {
                '▸'
            })
        }),
{
    let p = lemma_spine_group(app, at);
    let missions = app.missions_shown();
    let agents = app.snapshot->0.agents@;
    let group = group_of(missions, app.expanded@, agents, p);
    assert(app.spine()[at + 0] == group[0]);
    let mission = missions[p];
    let source = app.snapshot->0.missions@;
    let wanted = shown(app.status_filter, app.workspace());
    the_spine_runs_from_new_to_old(source, app.status_filter, app.workspace());
    lemma_kept_places(source, wanted);
    broadcast use vstd::seq_lib::group_to_multiset_ensures;

    assert(missions.contains(mission));
    assert(missions.to_multiset().count(mission) > 0);
    assert(source.filter(wanted).contains(mission));
    let k = choose|k: int|
        0 <= k < source.filter(wanted).len() && source.filter(wanted)[k] == mission;
    let place = kept_places(source, wanted)[k];
    assert(source.filter(wanted)[k] == source[place]);
    let label = app.spine()[at].label;
    let words = " "@ + mission.name@;
    assert(label.skip(label.len() - words.len()) =~= words);
    assert(words.is_suffix_of(label));
    let open = lists_text(app.expanded@, mission.id@);
    reveal_strlit("▾");
    reveal_strlit("▸");
    let sign = crate::spine::fold_sign(open);
    let time = crate::protocol::started_of(mission.created_at@) + " "@;
    assert(sign.len() == 1);
    assert(label[time.len() as int] == sign[0]);
    place
}

/// Every mission of the workspace that is shown has a row, where the filter lets it through.
pub proof fn every_mission_of_the_workspace_has_a_row(app: App, place: int) -> (at: int)
    requires
        app.snapshot is Some,
        0 <= place < app.snapshot->0.missions@.len(),
        app.workspace() == Some(app.snapshot->0.missions@[place].workspace_id@),
        lets_through(app.status_filter, app.snapshot->0.missions@[place].state@),
    ensures
        0 <= at < app.spine().len(),
        app.spine()[at].kind == RowKindView::Mission(app.snapshot->0.missions@[place].id@),
{
    let source = app.snapshot->0.missions@;
    let mission = source[place];
    let missions = app.missions_shown();
    let agents = app.snapshot->0.agents@;
    let wanted = shown(app.status_filter, app.workspace());
    assert(wanted(mission));
    the_spine_runs_from_new_to_old(source, app.status_filter, app.workspace());
    lemma_kept_places(source, wanted);
    let k = choose|k: int|
        0 <= k < kept_places(source, wanted).len() && #[trigger] kept_places(source, wanted)[k]
            == place;
    broadcast use vstd::seq_lib::group_to_multiset_ensures;

    assert(source.filter(wanted)[k] == mission);
    assert(source.filter(wanted).contains(mission));
    assert(source.filter(wanted).to_multiset().count(mission) > 0);
    assert(missions.contains(mission));
    let p = choose|p: int| 0 <= p < missions.len() && missions[p] == mission;
    lemma_parts(app);
    lemma_group(missions, app.expanded@, agents, p);
    let start = group_start(missions, app.expanded@, agents, p);
    let group = group_of(missions, app.expanded@, agents, p);
    let middle = mission_rows(missions, app.expanded@, agents);
    assert(middle[start + 0] == group[0]);
    assert(app.spine()[1 + start] == middle[start]);
    1 + start
}

/// Missions stand from the newest to the oldest: one whose row stands above another's was not created
/// before it.
pub proof fn newer_missions_stand_above_older_ones(app: App, upper: int, lower: int) -> (places: (
    int,
    int,
))
    requires
        app.snapshot is Some,
        0 <= upper < lower < app.spine().len(),
        app.spine()[upper].kind is Mission,
        app.spine()[lower].kind is Mission,
    ensures
        ({
            let one = app.missions_shown()[places.0];
            let other = app.missions_shown()[places.1];
            &&& 0 <= places.0 < places.1 < app.missions_shown().len()
            &&& app.spine()[upper].kind == RowKindView::Mission(one.id@)
            &&& app.spine()[lower].kind == RowKindView::Mission(other.id@)
            &&& !text_before(one.created_at@, other.created_at@)
            &&& one.created_at@ == other.created_at@ ==> !text_before(one.id@, other.id@)
        }),
{
    let p = lemma_spine_group(app, upper);
    let q = lemma_spine_group(app, lower);
    let missions = app.missions_shown();
    let agents = app.snapshot->0.agents@;
    assert(app.spine()[upper + 0] == group_of(missions, app.expanded@, agents, p)[0]);
    assert(app.spine()[lower + 0] == group_of(missions, app.expanded@, agents, q)[0]);
    if q < p {
        lemma_rows_prefix(missions.take(p), app.expanded@, agents, q);
        assert(missions.take(p).take(q) =~= missions.take(q));
    }
    the_spine_runs_from_new_to_old(
        app.snapshot->0.missions@,
        app.status_filter,
        app.workspace(),
    );
    assert(!newer()(missions[q], missions[p]));
    (p, q)
}

/// A day is named above its first mission, and nowhere else: above the first row of a mission, and
/// above each whose day is not that of the mission before it.
pub proof fn a_day_is_named_where_it_starts(app: App, p: int) -> (at: int)
    requires
        app.snapshot is Some,
        0 <= p < app.missions_shown().len(),
    ensures
        0 <= at < app.spine().len(),
        app.spine()[at].kind == RowKindView::Mission(app.missions_shown()[p].id@),
        app.spine()[at].date is Some <==> p == 0 || day_of(app.missions_shown()[p - 1].created_at@)
            != day_of(app.missions_shown()[p].created_at@),
        app.spine()[at].date is Some ==> app.spine()[at].date == Some(
            day_of(app.missions_shown()[p].created_at@),
        ),
{
    let missions = app.missions_shown();
    let agents = app.snapshot->0.agents@;
    lemma_parts(app);
    lemma_group(missions, app.expanded@, agents, p);
    let start = group_start(missions, app.expanded@, agents, p);
    let middle = mission_rows(missions, app.expanded@, agents);
    assert(middle[start + 0] == group_of(missions, app.expanded@, agents, p)[0]);
    assert(app.spine()[1 + start] == middle[start]);
    1 + start
}

/// The leader's row stands first and nowhere else, and the row of the archive below every mission and
/// agent.
pub proof fn the_leader_stands_first_and_the_archive_last(app: App) -> (archive: int)
    requires
        app.snapshot is Some,
    ensures
        0 < archive < app.spine().len(),
        app.spine()[0].kind is Leader,
        app.spine()[archive].kind is ArchiveGroup,
        forall|i: int|
            0 < i < archive ==> (#[trigger] app.spine()[i]).kind is Mission
                || app.spine()[i].kind is Agent,
        forall|i: int|
            archive < i < app.spine().len() ==> (#[trigger] app.spine()[i]).kind is ArchivedAgent
                || app.spine()[i].kind is OlderArchives,
{
    lemma_parts(app);
    let missions = app.missions_shown();
    let agents = app.snapshot->0.agents@;
    let middle = mission_rows(missions, app.expanded@, agents);
    assert forall|i: int| 0 < i < 1 + middle.len() implies (#[trigger] app.spine()[i]).kind is Mission
        || app.spine()[i].kind is Agent by {
        let p = lemma_group_at(missions, app.expanded@, agents, i - 1);
        lemma_group(missions, app.expanded@, agents, p);
        let start = group_start(missions, app.expanded@, agents, p);
        let group = group_of(missions, app.expanded@, agents, p);
        assert(middle[start + (i - 1 - start)] == group[i - 1 - start]);
        assert(app.spine()[1 + (i - 1)] == middle[i - 1]);
    }
    let archive = 1 + middle.len() as int;
    archive
}

/// Where the archive is folded open, below its row stand the saved conversations of the workspace that
/// is shown, all of them and in their order, and then, where there are more to load, the row for that;
/// where it is folded nothing stands below it. It is folded open by hand among all missions, and always
/// where only the archive is shown.
pub proof fn the_archive_lists_the_conversations_of_the_workspace(app: App) -> (found: (
    int,
    Seq<int>,
))
    requires
        app.snapshot is Some,
    ensures
        ({
            let (archive, places) = found;
            let rows = app.spine();
            let open = app.status_filter is Archived || (app.status_filter is All
                && app.archived_expanded);
            let more: int = if app.archive_next_cursor is Some {
                1
            } else {
                0
            };
            &&& 0 < archive < rows.len()
            &&& rows[archive].kind is ArchiveGroup
            &&& !open ==> rows.len() == archive + 1
            &&& open ==> {
                &&& goes_through(
                    places,
                    app.archives@,
                    |archive: ArchivedConversation| app.workspace() == Some(archive.workspace_id@),
                )
                &&& rows.len() == archive + 1 + places.len() + more
                &&& forall|k: int|
                    0 <= k < places.len() ==> rows[archive + 1 + k].kind
                        == RowKindView::ArchivedAgent(
                        app.archives@[#[trigger] places[k]].agent_id@,
                    )
                &&& more == 1 ==> rows.last().kind is OlderArchives
            }
        }),
{
    lemma_parts(app);
    let middle = mission_rows(app.missions_shown(), app.expanded@, app.snapshot->0.agents@);
    let archive = 1 + middle.len() as int;
    let rest = app.spine().skip(archive + 1);
    let wanted = archived_in(app.workspace());
    assert(wanted =~= (|archive: ArchivedConversation|
        app.workspace() == Some(archive.workspace_id@)));
    lemma_kept_places(app.archives@, wanted);
    let places = kept_places(app.archives@, wanted);
    if app.shows_archives() {
        let saved = archive_rows(app.archives@, app.workspace());
        assert forall|k: int| 0 <= k < places.len() implies app.spine()[archive + 1 + k].kind
            == RowKindView::ArchivedAgent(app.archives@[#[trigger] places[k]].agent_id@) by {
            assert(app.spine()[archive + 1 + k] == rest[k]);
            assert(rest[k] == saved[k]);
            assert(app.archives@.filter(wanted)[k] == app.archives@[places[k]]);
        }
        if app.archive_next_cursor is Some {
            assert(app.spine().last() == rest.last());
        }
    }
    (archive, places)
}

} // verus!
