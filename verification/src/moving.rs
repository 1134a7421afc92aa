//! Moving about: over the rows of the spine, between the tabs, and in the pickers, and what choosing
//! one of them leads to.

use vstd::prelude::*;
use vstd::string::*;

use crate::app::{lists_text, moved, App, StatusFilter, WorkspaceChoice};
use crate::geometry::Rect;
use crate::hosts::{ScopedTarget, ScopedView};
use crate::navigation::{
    agent_of_session, leads_session, of_agent, optional_scoped, other_than, scope, toggled,
};
use crate::picker::offered;
use crate::protocol::{Snapshot, TargetView};
use crate::seqs::{find, first_is_position, position, position_is_first};
use crate::spine::RowKindView;
use crate::tabs::{at_point, hit, tab_with, tabs_differ};
use crate::text::{holds, lower_case, stands_at, texts};

verus! {

/// A cursor goes as far as it is asked to, between the first place and the last, and a step back undoes
/// a step that was not held up.
pub proof fn a_cursor_goes_where_it_is_asked_to(cursor: usize, delta: isize, last: usize)
    requires
        cursor <= last,
    ensures
        moved(cursor, delta, last) <= last,
        0 <= cursor + delta <= last ==> moved(cursor, delta, last) == cursor + delta,
        cursor + delta < 0 ==> moved(cursor, delta, last) == 0,
        cursor + delta > last ==> moved(cursor, delta, last) == last,
        moved(cursor, 0, last) == cursor,
        0 <= cursor + delta <= last && delta > isize::MIN ==> moved(
            moved(cursor, delta, last),
            (-delta) as isize,
            last,
        ) == cursor,
{
}

/// The cursor of the spine goes over its rows, stays on one of them, and nothing else changes.
pub proof fn the_cursor_stays_on_the_spine(app: App, delta: isize)
    requires
        app.spine().len() > 0,
        app.spine().len() <= usize::MAX,
        app.cursor < app.spine().len(),
    ensures
        app.moved_cursor(delta).cursor < app.spine().len(),
        0 <= app.cursor + delta < app.spine().len() ==> app.moved_cursor(delta).cursor == app.cursor
            + delta,
        app.moved_cursor(delta).spine() == app.spine(),
        app.ended_cursor().cursor == app.spine().len() - 1,
        app.ended_cursor().spine() == app.spine(),
        app.moved_cursor(delta).pending_target == app.pending_target,
{
    reveal(crate::spine::spine_of);
}

/// A page of the spine is as many rows as can be seen, and one at least.
pub proof fn a_page_is_what_can_be_seen(app: App, forward: bool)
    requires
        app.visible_selectable_rows <= isize::MAX,
    ensures
        ({
            let rows = if app.visible_selectable_rows == 0 {
                1
            } else {
                app.visible_selectable_rows as int
            };
            &&& forward ==> app.paged_cursor(1) == app.moved_cursor(rows as isize)
            &&& !forward ==> app.paged_cursor((-1) as isize) == app.moved_cursor((-rows) as isize)
        }),
{
}

/// The filters follow one another in a fixed order: all missions, those that run, those that need
/// somebody, and the archive.
pub proof fn the_filters_follow_in_their_order()
    ensures
        StatusFilter::All.following() == StatusFilter::Running,
        StatusFilter::Running.following() == StatusFilter::NeedsYou,
        StatusFilter::NeedsYou.following() == StatusFilter::Archived,
        StatusFilter::Archived.following() == StatusFilter::All,
{
}

/// What is opened on a machine belongs to that machine, and is the session that was asked for; a session
/// without ids is not opened.
pub proof fn a_target_belongs_to_its_machine(host: Seq<char>, target: Option<TargetView>)
    ensures
        scope(host, target) is Some <==> target is Some && target->0.workspace_id.len() > 0
            && target->0.session_id.len() > 0,
        scope(host, target) matches Some(scoped) ==> {
            &&& scoped.target == target->0
            &&& scoped.key.host == host
            &&& scoped.key.workspace == target->0.workspace_id
            &&& scoped.key.session == target->0.session_id
        },
{
}

/// Choosing the row of an agent asks for that agent, on the machine that is shown, and hands the keys to
/// the pane; what is shown does not change.
pub proof fn choosing_an_agent_asks_for_it(app: App, after: App, id: Seq<char>)
    requires
        app.cursor < app.spine().len(),
        app.spine()[app.cursor as int].kind == RowKindView::Agent(id),
        app.activated_row(after),
        app.snapshot is Some,
    ensures
        ({
            let target = app.snapshot->0.agent_of(id);
            &&& after.pending_target is Some <==> target is Some && target->0.workspace_id.len() > 0
                && target->0.session_id.len() > 0
            &&& after.pending_target matches Some(asked) ==> asked@.target == target->0
                && asked@.key.host == app.selected_host@ && asked@.key.session
                == target->0.session_id
            &&& !after.nav_focused
            &&& after.expanded == app.expanded
            &&& after.active_target == app.active_target
        }),
{
}

/// Choosing the row of the leader asks for the leader of the workspace that is shown, on the machine
/// that is shown.
pub proof fn choosing_the_leader_asks_for_it(app: App, after: App)
    requires
        app.cursor < app.spine().len(),
        app.spine()[app.cursor as int].kind is Leader,
        app.activated_row(after),
        app.snapshot is Some,
        app.workspace() is Some,
    ensures
        ({
            let target = app.snapshot->0.leader_of(app.workspace()->0);
            &&& after.pending_target is Some <==> target is Some && target->0.workspace_id.len() > 0
                && target->0.session_id.len() > 0
            &&& after.pending_target matches Some(asked) ==> asked@.target == target->0
                && asked@.key.host == app.selected_host@
            &&& !after.nav_focused
        }),
{
}

proof fn lemma_without(list: Seq<String>, text: Seq<char>, other: Seq<char>)
    ensures
        !lists_text(list.filter(other_than(text)), text),
        other != text ==> lists_text(list.filter(other_than(text)), other) == lists_text(list, other),
    decreases list.len(),
{
    reveal(Seq::filter);
    if list.len() > 0 {
        let before = list.drop_last();
        let wanted = other_than(text);
        lemma_without(before, text, other);
        let kept = list.filter(wanted);
        let earlier = before.filter(wanted);
        assert(kept == if wanted(list.last()) {
            earlier.push(list.last())
        } else {
            earlier
        });
        if lists_text(kept, text) {
            let i = choose|i: int| 0 <= i < kept.len() && (#[trigger] kept[i])@ == text;
            assert(i < earlier.len() ==> earlier[i] == kept[i]);
            assert(lists_text(earlier, text));
        }
        if other != text {
            if lists_text(kept, other) {
                let i = choose|i: int| 0 <= i < kept.len() && (#[trigger] kept[i])@ == other;
                if i < earlier.len() {
                    assert(earlier[i] == kept[i]);
                    assert(lists_text(before, other));
                    let j = choose|j: int| 0 <= j < before.len() && (#[trigger] before[j])@ == other;
                    assert(list[j] == before[j]);
                } else {
                    assert(list[list.len() - 1]@ == other);
                }
            }
            if lists_text(list, other) {
                let i = choose|i: int| 0 <= i < list.len() && (#[trigger] list[i])@ == other;
                if i < before.len() {
                    assert(before[i] == list[i]);
                    assert(lists_text(earlier, other));
                    let j = choose|j: int| 0 <= j < earlier.len() && (#[trigger] earlier[j])@ == other;
                    assert(kept[j] == earlier[j]);
                } else {
                    assert(kept[kept.len() - 1]@ == other);
                }
            }
        }
    }
}

proof fn lemma_pushed(before: Seq<String>, after: Seq<String>, text: Seq<char>, other: Seq<char>)
    requires
        texts(after) == texts(before).push(text),
    ensures
        lists_text(after, text),
        other != text ==> lists_text(after, other) == lists_text(before, other),
{
    assert(texts(after).len() == after.len());
    assert(texts(after)[before.len() as int] == text);
    assert(after[before.len() as int]@ == text);
    assert forall|i: int| 0 <= i < before.len() implies (#[trigger] after[i])@ == before[i]@ by {
        assert(texts(after)[i] == texts(before)[i]);
    }
    if lists_text(after, other) && other != text {
        let i = choose|i: int| 0 <= i < after.len() && (#[trigger] after[i])@ == other;
        assert(before[i]@ == other);
    }
    if lists_text(before, other) {
        let i = choose|i: int| 0 <= i < before.len() && (#[trigger] before[i])@ == other;
        assert(after[i]@ == other);
    }
}

/// Choosing the row of a mission folds that mission open, or shut where it was open, and no other; and
/// asks for whoever leads it, on the machine that is shown.
pub proof fn choosing_a_mission_folds_it(app: App, after: App, id: Seq<char>, other: Seq<char>)
    requires
        app.cursor < app.spine().len(),
        app.spine()[app.cursor as int].kind == RowKindView::Mission(id),
        app.activated_row(after),
        app.snapshot is Some,
        other != id,
    ensures
        lists_text(after.expanded@, id) == !lists_text(app.expanded@, id),
        lists_text(after.expanded@, other) == lists_text(app.expanded@, other),
        ({
            let target = app.snapshot->0.mission_lead_of(id);
            &&& after.pending_target is Some <==> target is Some && target->0.workspace_id.len() > 0
                && target->0.session_id.len() > 0
            &&& after.pending_target matches Some(asked) ==> asked@.target == target->0
                && asked@.key.host == app.selected_host@
            &&& after.nav_focused ==> app.nav_focused && after.pending_target is None
        }),
{
    reveal(App::mission_lead);
    reveal(toggled);
    if lists_text(app.expanded@, id) {
        lemma_without(app.expanded@, id, other);
    } else {
        lemma_pushed(app.expanded@, after.expanded@, id, other);
    }
}

/// Folding open leaves the mission at the cursor open, folding shut leaves it shut, and every other
/// mission stays as it is. Nothing is asked for.
pub proof fn folding_changes_the_mission_at_the_cursor(
    app: App,
    after: App,
    expand: bool,
    other: Seq<char>,
)
    requires
        app.cursor < app.spine().len(),
        app.folded_row(after, expand),
    ensures
        after.pending_target == app.pending_target,
        match app.spine()[app.cursor as int].kind {
            RowKindView::Mission(id) => lists_text(after.expanded@, id) == expand && (other != id
                ==> lists_text(after.expanded@, other) == lists_text(app.expanded@, other)),
            _ => after == app,
        },
{
    match app.spine()[app.cursor as int].kind {
        RowKindView::Mission(id) => {
            lemma_without(app.expanded@, id, other);
            if expand && !lists_text(app.expanded@, id) {
                lemma_pushed(app.expanded@, after.expanded@, id, other);
            }
        },
        _ => {},
    }
}

/// Choosing the row of a saved conversation asks for its newest page, under a number of its own, in the
/// place of anything that was read or asked for.
pub proof fn choosing_a_conversation_asks_for_its_newest_page(app: App, after: App, at: int)
    requires
        app.cursor < app.spine().len(),
        0 <= at < app.archives@.len(),
        forall|k: int|
            0 <= k < at ==> (#[trigger] app.archives@[k]).agent_id@ != app.archives@[at].agent_id@,
        app.spine()[app.cursor as int].kind == RowKindView::ArchivedAgent(
            app.archives@[at].agent_id@,
        ),
        app.activated_row(after),
    ensures
        after.pending_archive is Some,
        after.pending_archive->0.archive == app.archives@[at],
        after.pending_archive->0.cursor is None,
        after.active_archive_request == Some(after.pending_archive->0.id),
        after.active_archive_request != Some(app.next_archive_request),
        after.archive_loading,
        after.saved_transcript is None,
        after.pending_target is None,
        !after.nav_focused,
        app.workspace() == Some(app.archives@[at].workspace_id@) ==> after.awaits_page(
            after.pending_archive->0.id,
            app.archives@[at],
            false,
        ),
{
    let wanted = of_agent(app.archives@[at].agent_id@);
    assert forall|i: int| 0 <= i < at implies !#[trigger] wanted(app.archives@[i]) by {
        assert(app.archives@[i].agent_id@ != app.archives@[at].agent_id@);
    }
    first_is_position(app.archives@, wanted, 0, at);
}

/// Choosing the row of the archive folds it, and asks for its first page where it is folded open with
/// nothing in it; choosing the row for more asks for the next page.
pub proof fn choosing_the_archive_folds_and_loads_it(app: App, after: App)
    requires
        app.cursor < app.spine().len(),
        app.activated_row(after),
    ensures
        app.spine()[app.cursor as int].kind is ArchiveGroup ==> {
            &&& after.archived_expanded == !app.archived_expanded
            &&& after.archived_expanded && app.archives@.len() == 0 ==> after.archive_load_requested
            &&& !(after.archived_expanded && app.archives@.len() == 0)
                ==> after.archive_load_requested == app.archive_load_requested
            &&& after.archives == app.archives
        },
        app.spine()[app.cursor as int].kind is OlderArchives ==> after.archive_load_requested
            && after.archived_expanded == app.archived_expanded,
{
}

/// When a new snapshot gives the place of the session that is shown to another session, that one is
/// asked for: on the same machine, in the same workspace, and never the session that is shown already.
/// A snapshot of another machine asks for nothing.
pub proof fn a_session_is_followed_on_its_own_machine(
    app: App,
    host: Seq<char>,
    next: Snapshot,
)
    requires
        app.rebound(host, next) is Some,
    ensures
        ({
            let target = app.rebound(host, next)->0;
            &&& app.active_target is Some
            &&& app.active_target->0@.key.host == host
            &&& target.key.host == host
            &&& target.key != app.active_target->0@.key
            &&& target.target.workspace_id == app.active_target->0@.target.workspace_id
        }),
{
    let active = app.active_target->0@;
    let workspace = active.target.workspace_id;
    if find(
        app.snapshot->0.leaders@,
        leads_session(workspace, active.target.session_id),
    ) is Some {
        reveal(Snapshot::leader_of);
    }
}

/// The session of a leader is followed to the leader of the same workspace, and the session of an agent
/// to the agent with the same id.
pub proof fn a_session_is_followed_to_its_own_successor(
    current: Snapshot,
    next: Snapshot,
    active: ScopedView,
    at: int,
)
    requires
        0 <= at,
    ensures
        ({
            let workspace = active.target.workspace_id;
            let session = active.target.session_id;
            let after = crate::navigation::successor(current, next, active);
            let led = exists|i: int|
                0 <= i < current.leaders@.len() && (#[trigger] current.leaders@[i]).workspace_id@
                    == workspace && current.leaders@[i].session_id@ == session;
            let own = at < current.agents@.len() && current.agents@[at].session_id@ == session
                && crate::navigation::mission_in(
                current.missions@,
                current.agents@[at].mission_id@,
                workspace,
            ) && forall|k: int|
                0 <= k < at ==> !((#[trigger] current.agents@[k]).session_id@ == session);
            &&& led && after is Some ==> Some(after->0.target) == next.leader_of(workspace)
            &&& !led && own && after is Some ==> Some(after->0.target) == next.agent_of(
                current.agents@[at].id@,
            )
            &&& led ==> (next.leader_of(workspace) matches Some(target) ==> target.workspace_id.len()
                > 0 && target.session_id.len() > 0 ==> after is Some)
            &&& !led && own ==> (next.agent_of(current.agents@[at].id@) matches Some(target)
                ==> target.workspace_id == workspace && workspace.len() > 0
                && target.session_id.len() > 0 ==> after is Some)
            &&& after is Some ==> after->0.key.host == active.key.host
        }),
{
    let workspace = active.target.workspace_id;
    let session = active.target.session_id;
    let leads = leads_session(workspace, session);
    position_is_first(current.leaders@, leads, 0);
    let p = position(current.leaders@, leads, 0);
    if p < current.leaders@.len() {
        assert(current.leaders@[p].workspace_id@ == workspace);
    } else {
        assert forall|i: int| 0 <= i < current.leaders@.len() implies !(
        (#[trigger] current.leaders@[i]).workspace_id@ == workspace
            && current.leaders@[i].session_id@ == session) by {
            assert(!leads(current.leaders@[i]));
        }
    }
    if at < current.agents@.len() && current.agents@[at].session_id@ == session
        && crate::navigation::mission_in(
        current.missions@,
        current.agents@[at].mission_id@,
        workspace,
    ) && forall|k: int| 0 <= k < at ==> !((#[trigger] current.agents@[k]).session_id@ == session) {
        let wanted = agent_of_session(current.missions@, workspace, session);
        assert forall|i: int| 0 <= i < at implies !#[trigger] wanted(current.agents@[i]) by {
            assert(current.agents@[i].session_id@ != session);
        }
        first_is_position(current.agents@, wanted, 0, at);
    }
}

/// A new snapshot takes the place of the old one; the cursor stays where its row is, and the tab that is
/// shown stays shown.
pub proof fn a_new_snapshot_takes_the_place_of_the_old(
    app: App,
    after: App,
    host: crate::hosts::HostId,
    snapshot: Snapshot,
)
    requires
        app.replaced_snapshot(after, host, snapshot),
    ensures
        after.snapshot == Some(snapshot),
        after.snapshot_host == Some(host),
        after.active_target == app.active_target,
        after.tabs == app.tabs,
        after.workspace_id == app.workspace_id,
        after.selected_host == app.selected_host,
        app.rebound(host@, snapshot) is None ==> after.pending_target == app.pending_target,
        app.rebound(host@, snapshot) is Some ==> optional_scoped(after.pending_target)
            == app.rebound(host@, snapshot),
{
}

/// Opening a session shows it, with its workspace and its machine; it has a tab then, and the tabs that
/// were there stay where they are.
pub proof fn an_opened_session_is_shown_in_a_tab(app: App, after: App, target: ScopedTarget)
    requires
        app.joined_tab(after, target),
    ensures
        after.active_target == Some(target),
        after.workspace() == Some(target.target.workspace_id@),
        after.selected_host == target.key.host_id,
        app.tabs@.is_prefix_of(after.tabs@),
        exists|i: int| 0 <= i < after.tabs@.len() && (#[trigger] after.tabs@[i]).key@ == target.key@,
        (exists|i: int|
            0 <= i < app.tabs@.len() && (#[trigger] app.tabs@[i]).key@ == target.key@)
            ==> after.tabs@ == app.tabs@,
        !(exists|i: int|
            0 <= i < app.tabs@.len() && (#[trigger] app.tabs@[i]).key@ == target.key@)
            ==> after.tabs@ == app.tabs@.push(target),
        !after.reads_archive(),
{
    let wanted = tab_with(target.key@);
    position_is_first(app.tabs@, wanted, 0);
    let at = position(app.tabs@, wanted, 0);
    if at < app.tabs@.len() {
        assert(after.tabs@[at].key@ == target.key@);
        assert(app.tabs@[at].key@ == target.key@);
    } else {
        assert forall|i: int| 0 <= i < app.tabs@.len() implies (#[trigger] app.tabs@[i]).key@
            != target.key@ by {
            assert(!wanted(app.tabs@[i]));
        }
        assert(after.tabs@[app.tabs@.len() as int].key@ == target.key@);
    }
    assert(after.tabs@.take(app.tabs@.len() as int) =~= app.tabs@);
}

/// Choosing a tab shows its session, with its workspace and its machine, and asks for it; the tabs stay
/// as they are. What was read of a saved conversation is left.
pub proof fn a_chosen_tab_is_shown(app: App, at: int)
    requires
        tabs_differ(app.tabs@),
        0 <= at < app.tabs@.len(),
    ensures
        ({
            let tab = app.tabs@[at];
            let after = app.selected_tab(tab.key@);
            &&& after.active_target == Some(tab)
            &&& after.pending_target == Some(tab)
            &&& after.workspace() == Some(tab.target.workspace_id@)
            &&& after.selected_host == tab.key.host_id
            &&& after.tabs == app.tabs
            &&& !after.tab_overflow_open
            &&& !after.reads_archive()
        }),
{
    let wanted = tab_with(app.tabs@[at].key@);
    assert forall|i: int| 0 <= i < at implies !#[trigger] wanted(app.tabs@[i]) by {
        assert(app.tabs@[i].key@ != app.tabs@[at].key@);
    }
    first_is_position(app.tabs@, wanted, 0, at);
}

/// The next tab is the one to the right, from the last back to the first; the one before it is the one
/// to the left, from the first back to the last.
pub proof fn tabs_are_stepped_through_in_their_order(app: App, at: int)
    requires
        tabs_differ(app.tabs@),
        0 <= at < app.tabs@.len(),
        app.active_target is Some,
        app.active_target->0.key@ == app.tabs@[at].key@,
    ensures
        ({
            let last = app.tabs@.len() - 1;
            let right = if at == last {
                0
            } else {
                at + 1
            };
            let left = if at == 0 {
                last
            } else {
                at - 1
            };
            &&& app.selected_next_tab(1).active_target == Some(app.tabs@[right])
            &&& app.selected_next_tab((-1) as isize).active_target == Some(app.tabs@[left])
        }),
{
    let wanted = tab_with(app.tabs@[at].key@);
    assert forall|i: int| 0 <= i < at implies !#[trigger] wanted(app.tabs@[i]) by {
        assert(app.tabs@[i].key@ != app.tabs@[at].key@);
    }
    first_is_position(app.tabs@, wanted, 0, at);
    let count = app.tabs@.len() as int;
    let right = if at == count - 1 {
        0
    } else {
        at + 1
    };
    let left = if at == 0 {
        count - 1
    } else {
        at - 1
    };
    if at == count - 1 {
        assert((at + 1) % count == 0) by (nonlinear_arith)
            requires
                at == count - 1,
                count > 0,
        ;
    } else {
        vstd::arithmetic::div_mod::lemma_small_mod((at + 1) as nat, count as nat);
    }
    if at == 0 {
        assert((at - 1) % count == count - 1) by (nonlinear_arith)
            requires
                at == 0,
                count > 0,
        ;
    } else {
        vstd::arithmetic::div_mod::lemma_small_mod((at - 1) as nat, count as nat);
    }
    assert(app.next_tab(1) == Some(app.tabs@[right].key));
    assert(app.next_tab((-1) as isize) == Some(app.tabs@[left].key));
    a_chosen_tab_is_shown(app, right);
    a_chosen_tab_is_shown(app, left);
}

/// Closing a tab takes it away and leaves the others in their order. Where it was shown, the tab that
/// takes its place is shown, or the last one where it stood last; where none is left, the spine has the
/// keys and the leader of the workspace is asked for. Any other tab that was shown stays shown.
pub proof fn closing_a_tab_shows_its_neighbour(app: App, after: App, at: int)
    requires
        tabs_differ(app.tabs@),
        0 <= at < app.tabs@.len(),
        app.closed_tab(after, app.tabs@[at].key@),
    ensures
        ({
            let shown = app.active_target is Some && app.active_target->0.key@ == app.tabs@[at].key@;
            let count = after.tabs@.len();
            &&& count == app.tabs@.len() - 1
            &&& forall|i: int| 0 <= i < at ==> #[trigger] after.tabs@[i] == app.tabs@[i]
            &&& forall|i: int| at <= i < count ==> #[trigger] after.tabs@[i] == app.tabs@[i + 1]
            &&& !shown ==> after.active_target == app.active_target && after.pending_target
                == app.pending_target
            &&& shown && at < count ==> after.active_target == Some(app.tabs@[at + 1])
                && after.pending_target == Some(app.tabs@[at + 1])
            &&& shown && at == count && count > 0 ==> after.active_target == Some(app.tabs@[at - 1])
                && after.pending_target == Some(app.tabs@[at - 1])
            &&& shown && count == 0 ==> after.nav_focused && optional_scoped(after.active_target)
                == app.leader()
        }),
{
    let wanted = tab_with(app.tabs@[at].key@);
    assert forall|i: int| 0 <= i < at implies !#[trigger] wanted(app.tabs@[i]) by {
        assert(app.tabs@[i].key@ != app.tabs@[at].key@);
    }
    first_is_position(app.tabs@, wanted, 0, at);
}

/// A rectangle holds the points of its cells, and no others.
pub proof fn a_rectangle_holds_its_cells(area: Rect, point: (u16, u16))
    requires
        area.x + area.width <= u16::MAX,
        area.y + area.height <= u16::MAX,
    ensures
        area.holds(point) <==> area.x <= point.0 && point.0 < area.x + area.width && area.y
            <= point.1 && point.1 < area.y + area.height,
{
}

/// What is hit at a point is what stands there: the first place that holds the point.
pub proof fn a_point_hits_what_stands_there<T>(places: Seq<(Rect, T)>, point: (u16, u16), at: int)
    ensures
        0 <= at < places.len() && places[at].0.holds(point) && (forall|k: int|
            0 <= k < at ==> !(#[trigger] places[k]).0.holds(point)) ==> hit(places, point) == Some(
            places[at].1,
        ),
        (forall|k: int| 0 <= k < places.len() ==> !(#[trigger] places[k]).0.holds(point)) ==> hit(
            places,
            point,
        ) is None,
{
    let wanted = at_point::<T>(point);
    position_is_first(places, wanted, 0);
    let p = position(places, wanted, 0);
    if p < places.len() {
        assert(places[p].0.holds(point));
    }
    if 0 <= at < places.len() && places[at].0.holds(point) && (forall|k: int|
        0 <= k < at ==> !(#[trigger] places[k]).0.holds(point)) {
        assert forall|i: int| 0 <= i < at implies !#[trigger] wanted(places[i]) by {
            assert(!places[i].0.holds(point));
        }
        assert(wanted(places[at]));
        first_is_position(places, wanted, 0, at);
    }
}

/// The picker offers the workspaces whose name, path or machine holds what was typed, whatever the case;
/// all of them where nothing was typed, and none where a path is typed.
pub proof fn the_picker_offers_what_was_typed(
    choices: Seq<WorkspaceChoice>,
    query: Seq<char>,
    choice: WorkspaceChoice,
)
    ensures
        offered(choices, true, query).len() == 0,
        offered(choices, false, query).contains(choice) <==> choices.contains(choice) && (holds(
            lower_case(choice.name@),
            lower_case(query),
        ) || holds(lower_case(choice.path@), lower_case(query)) || holds(
            lower_case(choice.host_label@),
            lower_case(query),
        )),
        lower_case(query).len() == 0 ==> offered(choices, false, query) == choices,
    decreases choices.len(),
{
    reveal(Seq::filter);
    let all = offered(choices, false, query);
    if choices.len() > 0 {
        let before = choices.drop_last();
        let last = choices.last();
        the_picker_offers_what_was_typed(before, query, choice);
        let earlier = offered(before, false, query);
        let passes = crate::picker::answers(last, query);
        assert(all == if passes {
            earlier.push(last)
        } else {
            earlier
        });
        assert(choices =~= before.push(last));
        if all.contains(choice) {
            let i = choose|i: int| 0 <= i < all.len() && all[i] == choice;
            if i < earlier.len() {
                assert(earlier[i] == choice);
                assert(earlier.contains(choice));
                let j = choose|j: int| 0 <= j < before.len() && before[j] == choice;
                assert(choices[j] == choice);
            } else {
                assert(choices[choices.len() - 1] == choice);
            }
        }
        if choices.contains(choice) {
            let i = choose|i: int| 0 <= i < choices.len() && choices[i] == choice;
            if i < before.len() {
                assert(before[i] == choice);
                assert(before.contains(choice));
                if earlier.contains(choice) {
                    let j = choose|j: int| 0 <= j < earlier.len() && earlier[j] == choice;
                    assert(all[j] == choice);
                }
            } else if passes {
                assert(all[all.len() - 1] == choice);
            }
        }
        if lower_case(query).len() == 0 {
            let name = lower_case(last.name@);
            assert(name.subrange(0, 0) =~= lower_case(query));
            assert(stands_at(name, lower_case(query), 0));
            assert(all =~= choices);
        }
    } else {
        assert(all =~= choices);
    }
}

/// Choosing in the picker takes the workspace at the cursor, out of those that are offered.
pub proof fn the_workspace_at_the_cursor_is_chosen(app: App)
    ensures
        !app.picker_path_mode && app.picker_cursor < app.offers().len()
            ==> app.chosen_workspace().pending_workspace == Some(
            app.offers()[app.picker_cursor as int],
        ),
        !app.picker_path_mode && app.picker_cursor >= app.offers().len()
            ==> app.chosen_workspace().pending_workspace is None,
        app.picker_path_mode ==> app.chosen_workspace() == app,
{
}

/// The cursor of a picker stays on what is offered: on a workspace, or, among machines, on one of them
/// or on the row for a new one below them.
pub proof fn the_cursor_stays_in_the_picker(app: App, delta: isize)
    requires
        app.hosts@.len() <= usize::MAX,
        app.offers().len() <= usize::MAX,
    ensures
        ({
            let after = app.moved_picker(delta);
            let last = if app.host_picker {
                app.hosts@.len() as int
            } else if app.offers().len() == 0 {
                0
            } else {
                app.offers().len() - 1
            };
            &&& app.host_picker || !app.picker_path_mode ==> {
                &&& after.picker_cursor <= last
                &&& 0 <= app.picker_cursor + delta <= last ==> after.picker_cursor
                    == app.picker_cursor + delta
            }
            &&& !app.host_picker && app.picker_path_mode ==> after == app
        }),
{
}

/// A saved machine at the cursor can be edited and forgotten; this machine can not. It is forgotten only
/// once that was confirmed, and it is the machine of which it was asked.
pub proof fn only_saved_machines_are_edited_or_forgotten(app: App)
    ensures
        ({
            let at = app.picker_cursor as int;
            let saved = at < app.hosts@.len() && app.hosts@[at].id@ != "local"@;
            &&& saved ==> app.asked_edit().pending_edit_host == Some(app.hosts@[at].id)
            &&& saved ==> app.asked_remove().remove_host_confirmation == Some(app.hosts@[at])
            &&& saved ==> app.asked_remove().pending_remove_host == app.pending_remove_host
            &&& saved ==> app.asked_remove().confirmed_remove().pending_remove_host == Some(
                app.hosts@[at].id,
            )
            &&& !saved ==> app.asked_edit() == app && app.asked_remove() == app
            &&& app.confirmed_remove().remove_host_confirmation is None
        }),
{
}

} // verus!
