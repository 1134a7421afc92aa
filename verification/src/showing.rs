//! What holds of the screen: of its parts, of the tabs and the rows on it, and of what is written
//! there.

use vstd::prelude::*;
use vstd::string::*;

use crate::app::{App, HostChoice, StatusFilter, WorkspaceChoice};
use crate::canvas::{
    blank_cell, painted, stepped, CellView, Look, PaintView, TextLineView, AMBER, MUTED, TEXT,
};
use crate::drawing::{bare, whole};
use crate::geometry::{below_tabs, ends, laid_out, middle_of, minus, percent, Rect, ScreenLayout};
use crate::hosts::ScopedTarget;
use crate::popups::{
    counts_line, field_label, followup_lines, form_lines, host_lines, pointer, transcript_lines, workspace_lines,
    workspaces_lines,
};
use crate::protocol::started_of;
use crate::seqs::{position, position_is_first};
use crate::sheet::cut;
use crate::sidebar::{
    empty_words, is_content, notice, row_height, row_lines, row_look, rows_area, rows_height, rows_scroll,
};
use crate::spine::{archive_row, mission_row, RowView};
use crate::strip::{
    column, menu_height, menu_place, menu_places, menu_start, more_label, shown_count,
    wanted_widths, width_at,
};
use crate::tabs::tab_with;
use crate::text::decimal_of;

verus! {

/// The header, the body and the status lines fill the screen from above to below, and the spine and the
/// pane fill the body from left to right, without a gap.
pub proof fn the_parts_fill_the_screen(layout: ScreenLayout, area: Rect, nav_focused: bool)
    requires
        laid_out(layout, area, nav_focused),
        ends(area),
    ensures
        layout.header.y == area.y,
        layout.pane.y == layout.header.y + layout.header.height,
        layout.status.y == layout.pane.y + layout.pane.height,
        layout.status.y + layout.status.height == area.y + area.height,
        layout.sidebar.x == area.x,
        layout.pane.x == layout.sidebar.x + layout.sidebar.width,
        layout.pane.x + layout.pane.width == area.x + area.width,
        area.height >= 13 ==> layout.header.height == 3 && layout.status.height == 2,
        area.height >= 8 ==> layout.pane.height >= 8,
{
}

/// On a narrow screen the side that has the keys gets all of it. On a wide one both are there: the
/// spine has between 24 and 44 columns, and the pane has at least 20.
pub proof fn a_narrow_screen_shows_one_side(layout: ScreenLayout, area: Rect, nav_focused: bool)
    requires
        laid_out(layout, area, nav_focused),
        ends(area),
    ensures
        area.width < 80 && nav_focused ==> layout.sidebar.width == area.width && layout.pane.width
            == 0,
        area.width < 80 && !nav_focused ==> layout.pane.width == area.width && layout.sidebar.width
            == 0,
        area.width >= 80 ==> 24 <= layout.sidebar.width <= 44 && layout.pane.width >= 20,
        area.width >= 80 ==> layout.sidebar.width == 24 || layout.sidebar.width == 44 || (27
            * area.width - 100 < 100 * layout.sidebar.width <= 27 * area.width),
{
    let quarter: int = area.width * 27 / 100;
    assert(100 * quarter <= area.width * 27 < 100 * quarter + 100);
}

proof fn lemma_percent(share: int, length: u16)
    requires
        0 <= share <= 100,
    ensures
        share * length - 50 <= 100 * percent(share, length) <= share * length + 50,
        0 <= percent(share, length) <= length,
{
    let product = share * length;
    assert(0 <= product <= 100 * length) by (nonlinear_arith)
        requires
            0 <= share <= 100,
            0 <= length,
            product == share * length,
    ;
}

/// What opens in the middle stays in what it opens over, and takes its share of it up to a cell.
pub proof fn what_opens_stays_in_the_middle(width: u16, height: u16, area: Rect)
    requires
        width <= 100,
        height <= 100,
        ends(area),
    ensures
        ({
            let middle = middle_of(width, height, area);
            &&& area.x <= middle.x
            &&& area.y <= middle.y
            &&& middle.x + middle.width <= area.x + area.width
            &&& middle.y + middle.height <= area.y + area.height
            &&& width * area.width - 100 <= 100 * middle.width <= width * area.width + 100
            &&& height * area.height - 100 <= 100 * middle.height <= height * area.height + 100
        }),
{
    let above: int = ((100 - height) / 2) as int;
    let beside: int = ((100 - width) / 2) as int;
    lemma_percent(above, area.height);
    lemma_percent(above + height, area.height);
    lemma_percent(beside, area.width);
    lemma_percent(beside + width, area.width);
    assert((beside + width) * area.width == beside * area.width + width * area.width)
        by (nonlinear_arith);
    assert((above + height) * area.height == above * area.height + height * area.height)
        by (nonlinear_arith);
}

/// What is inside a frame touches none of its edges.
pub proof fn the_inside_touches_no_edge(area: Rect, point: (u16, u16))
    requires
        ends(area),
    ensures
        area.inside().holds(point) <==> area.x < point.0 && point.0 + 1 < area.x + area.width
            && area.y < point.1 && point.1 + 1 < area.y + area.height,
        below_tabs(area).holds(point) ==> area.inside().holds(point) && point.1 > area.y + 1,
        area.inside().holds(point) && point.1 > area.y + 1 ==> below_tabs(area).holds(point),
{
}

proof fn lemma_shown_count(app: App, tabs: Seq<ScopedTarget>, area: Rect, from: int)
    requires
        0 <= from <= tabs.len(),
    ensures
        from <= shown_count(app, tabs, area, from) <= tabs.len(),
        forall|i: int|
            from <= i < shown_count(app, tabs, area, from) ==> width_at(
                app,
                tabs[i],
                area,
                #[trigger] column(app, tabs, area, i),
            ) >= 8,
    decreases tabs.len() - from,
{
    if from < tabs.len() && !crate::strip::squeezed(app, tabs, area, from) {
        lemma_shown_count(app, tabs, area, from + 1);
    }
}

proof fn lemma_column(app: App, tabs: Seq<ScopedTarget>, area: Rect, at: int)
    requires
        ends(area),
        area.width >= 5,
        0 <= at <= tabs.len(),
    ensures
        area.x < column(app, tabs, area, at),
        column(app, tabs, area, at) <= area.x + area.width - 4,
    decreases at,
{
    if at > 0 {
        lemma_column(app, tabs, area, at - 1);
    }
}

/// The tabs stand one behind the other, each at least eight columns wide, and leave room at the end
/// of the line. On each of them the sign to close it stands behind the place where it is chosen, and
/// both are of the same tab.
pub proof fn tabs_stand_one_behind_the_other(app: App, area: Rect, at: int)
    requires
        ends(area),
        area.width >= 5,
        0 <= at < app.tab_places(area).len(),
    ensures
        app.tab_close_places(area).len() == app.tab_places(area).len(),
        ({
            let (choose, key) = app.tab_places(area)[at];
            let (close, other) = app.tab_close_places(area)[at];
            &&& key == other
            &&& key == app.ordered_tabs(area)[at].key
            &&& choose.y == area.y && close.y == area.y
            &&& choose.width >= 6 && close.width == 2
            &&& close.x == choose.x + choose.width
            &&& close.x + close.width <= area.x + area.width - 4
            &&& at == 0 ==> choose.x == area.x + 1
            &&& at + 1 < app.tab_places(area).len() ==> app.tab_places(area)[at + 1].0.x == close.x
                + close.width
        }),
{
    let tabs = app.ordered_tabs(area);
    lemma_shown_count(app, tabs, area, 0);
    lemma_column(app, tabs, area, at);
    lemma_column(app, tabs, area, at + 1);
    let x = column(app, tabs, area, at);
    let width = width_at(app, tabs[at], area, x);
    assert(width >= 8);
    assert(x + width <= area.x + area.width - 4);
    assert(column(app, tabs, area, at + 1) == x + width);
}

/// Every tab is either shown or one of those that there is no room for: the keys of the ones that are
/// shown, and behind them those of the others, are the keys of all tabs in the order of drawing.
pub proof fn every_tab_is_shown_or_listed(app: App, area: Rect, at: int)
    requires
        0 <= at < app.tabs@.len(),
    ensures
        app.tab_places(area).len() + app.hidden_keys(area).len() == app.tabs@.len(),
        (exists|i: int|
            0 <= i < app.tab_places(area).len() && (#[trigger] app.tab_places(area)[i]).1
                == app.tabs@[at].key) || app.hidden_keys(area).contains(app.tabs@[at].key),
{
    let tabs = app.ordered_tabs(area);
    lemma_shown_count(app, tabs, area, 0);
    let count = app.shown_tabs(area);
    let i = lemma_ordered(app, area, at);
    if i < count {
        assert(app.tab_places(area)[i].1 == app.tabs@[at].key);
    } else {
        assert(app.hidden_keys(area)[i - count] == app.tabs@[at].key);
    }
}

proof fn lemma_ordered(app: App, area: Rect, at: int) -> (place: int)
    requires
        0 <= at < app.tabs@.len(),
    ensures
        app.ordered_tabs(area).len() == app.tabs@.len(),
        0 <= place < app.tabs@.len(),
        app.ordered_tabs(area)[place] == app.tabs@[at],
{
    match app.active_target {
        Some(active) => {
            position_is_first(app.tabs@, tab_with(active.key@), 0);
            let first = position(app.tabs@, tab_with(active.key@), 0);
            if first < app.tabs@.len() && wanted_widths(app, app.tabs@.take(first + 1)) > minus(
                area.width,
                5,
            ) {
                if at >= first {
                    at - first
                } else {
                    app.tabs@.len() - first + at
                }
            } else {
                at
            }
        },
        None => at,
    }
}

/// The tab that is shown in the pane comes first in the line, unless there is room for it behind the
/// tabs before it.
pub proof fn the_chosen_tab_has_room(app: App, area: Rect, at: int)
    requires
        0 <= at < app.tabs@.len(),
        app.active_target is Some,
        app.tabs@[at].key@ == app.active_target->0.key@,
        forall|i: int| 0 <= i < at ==> (#[trigger] app.tabs@[i]).key@ != app.active_target->0.key@,
    ensures
        app.ordered_tabs(area)[0] == app.tabs@[at] || (app.ordered_tabs(area) == app.tabs@
            && wanted_widths(app, app.tabs@.take(at + 1)) <= minus(area.width, 5)),
{
    crate::seqs::first_is_position(app.tabs@, tab_with(app.active_target->0.key@), 0, at);
}

/// A tab asks for as many columns as its name has characters, and four more; tabs ask for the sum.
pub proof fn tabs_ask_for_their_names(app: App, tabs: Seq<ScopedTarget>, tab: ScopedTarget)
    ensures
        wanted_widths(app, tabs.push(tab)) == wanted_widths(app, tabs) + app.tab_name(tab@).len()
            + 4,
        wanted_widths(app, seq![]) == 0,
{
    assert(tabs.push(tab).drop_last() =~= tabs);
}

/// In the list of more tabs the cursor is always in view, and each row stands for its own tab: the
/// rows follow the tabs in their order, one below the other, inside the frame.
pub proof fn the_cursor_is_in_view(tabs: Seq<ScopedTarget>, area: Rect, cursor: usize, row: int)
    requires
        ends(area),
        area.height >= 6,
        area.width >= 7,
        tabs.len() <= usize::MAX,
        cursor < tabs.len(),
        0 <= row < menu_places(tabs, area, cursor).len(),
    ensures
        ({
            let first = menu_start(cursor, menu_height(tabs.len(), area));
            let places = menu_places(tabs, area, cursor);
            let menu = menu_place(tabs.len(), area);
            &&& first <= cursor < first + places.len()
            &&& first + places.len() <= tabs.len()
            &&& places[row].1 == tabs[first + row].key
            &&& places[row].0.y == menu.y + 1 + row
            &&& places[row].0.y + 1 < menu.y + menu.height
            &&& places[row].0.height == 1
            &&& menu.y == area.y + 1
            &&& menu.y + menu.height <= area.y + area.height
            &&& places.len() <= 6
        }),
{
}

/// The sign for more tabs says how many there is no room for.
pub proof fn the_sign_counts_the_hidden_tabs(count: nat)
    ensures
        more_label(count).len() == decimal_of(count).len() + 3,
        more_label(count).subrange(2, more_label(count).len() - 1) == decimal_of(count),
        more_label(count)[1] == '+',
{
    reveal_strlit(" +");
    reveal_strlit(" ");
    assert(more_label(count).subrange(2, more_label(count).len() - 1) =~= decimal_of(count));
}

/// The row at the cursor is in view, where nothing stands above the rows and there is room for a row.
pub proof fn the_row_at_the_cursor_is_in_view(rows: Seq<RowView>, cursor: usize, inner: Rect)
    requires
        cursor < rows.len(),
        inner.height >= 5,
        rows_height(rows.take(cursor as int)) <= usize::MAX,
    ensures
        ({
            let scroll = rows_scroll(rows, cursor, inner);
            let above = rows_height(rows.take(cursor as int));
            &&& scroll <= above
            &&& above + 2 <= scroll + inner.height - 2
            &&& scroll > 0 ==> above + 4 == scroll + inner.height
        }),
{
}

/// A row takes two lines, and a third where a day starts; the first two lines of the spine are kept for
/// its heading.
pub proof fn a_row_takes_its_lines(rows: Seq<RowView>, row: RowView, inner: Rect)
    ensures
        rows_height(rows.push(row)) == rows_height(rows) + 2 + (if row.date is Some {
            1int
        } else {
            0int
        }),
        ends(inner) && inner.height >= 2 ==> rows_area(inner).y == inner.y + 2
            && rows_area(inner).height == inner.height - 2 && rows_area(inner).x == inner.x
            && rows_area(inner).width == inner.width,
{
    assert(rows.push(row).drop_last() =~= rows);
}

/// The row at the cursor has a ground of its own; of the others, those that need a person are in amber,
/// and no other is.
pub proof fn what_needs_a_person_stands_out(row: RowView)
    ensures
        row_look(row, true).bg is Some,
        row_look(row, false).bg is None,
        row_look(row, false).fg == Some(AMBER) <==> row.state == "NEEDS YOU"@,
{
}

/// Something is said above the rows exactly where none of them is a mission or a conversation.
pub proof fn an_empty_spine_says_so(rows: Seq<RowView>, filter: StatusFilter)
    ensures
        notice(rows, filter).len() == 0 <==> exists|i: int|
            0 <= i < rows.len() && ((#[trigger] rows[i]).kind is Mission || rows[i].kind is ArchivedAgent),
        notice(rows, filter).len() > 0 ==> notice(rows, filter)[0] == whole(
            empty_words(filter),
            Look::ink(MUTED),
        ),
{
    if exists|i: int|
        0 <= i < rows.len() && ((#[trigger] rows[i]).kind is Mission || rows[i].kind is ArchivedAgent) {
        let i = choose|i: int|
            0 <= i < rows.len() && ((#[trigger] rows[i]).kind is Mission || rows[i].kind is ArchivedAgent);
        assert(is_content(rows[i].kind));
    }
}

/// The spine says of the machine that is shown whether it is connected, and how many machines are.
pub proof fn the_spine_says_what_is_connected(app: App)
    ensures
        app.connection_line()[0] == (if crate::app::lists_host(
            app.live_hosts@,
            app.selected_host@,
        ) {
            'C'
        } else {
            'O'
        }),
        app.snapshot matches Some(snapshot) ==> app.spine_machine() == snapshot.machine.name@,
{
    reveal_strlit("CONNECTED · ");
    reveal_strlit("OFFLINE · ");
}

/// In the list of machines every machine has a line, and the line behind them adds one; the sign
/// stands before the one at the cursor only.
pub proof fn every_machine_has_a_line(hosts: Seq<HostChoice>, cursor: usize, at: int)
    requires
        0 <= at < hosts.len(),
    ensures
        host_lines(hosts, cursor).len() == hosts.len() + 1,
        at == cursor ==> host_lines(hosts, cursor)[at] == whole(
            "> "@ + hosts[at].label@,
            Look::ink(AMBER),
        ),
        at != cursor ==> host_lines(hosts, cursor)[at] == whole(
            "  "@ + hosts[at].label@,
            Look::ink(TEXT),
        ),
{
    reveal_strlit("> ");
    reveal_strlit("  ");
    reveal_strlit(">");
    reveal_strlit(" ");
    assert(">"@ + " "@ =~= "> "@);
    assert(" "@ + " "@ =~= "  "@);
}

/// In the list of workspaces each has two lines, in their order: the one that is written first names it
/// and its machine, the other its directory.
pub proof fn every_workspace_has_two_lines(
    offers: Seq<WorkspaceChoice>,
    cursor: usize,
    at: int,
)
    requires
        0 <= at < offers.len(),
    ensures
        workspaces_lines(offers, cursor).len() == 2 * offers.len(),
        workspaces_lines(offers, cursor)[2 * at] == workspace_lines(offers[at], at == cursor)[0],
        workspaces_lines(offers, cursor)[2 * at + 1] == whole(
            "    "@ + offers[at].path@,
            Look::ink(MUTED),
        ),
    decreases offers.len(),
{
    let rest = offers.drop_last();
    lemma_workspaces_len(rest, cursor);
    if at < offers.len() - 1 {
        every_workspace_has_two_lines(rest, cursor, at);
        assert(rest[at] == offers[at]);
    }
}

proof fn lemma_workspaces_len(offers: Seq<WorkspaceChoice>, cursor: usize)
    ensures
        workspaces_lines(offers, cursor).len() == 2 * offers.len(),
    decreases offers.len(),
{
    if offers.len() > 0 {
        lemma_workspaces_len(offers.drop_last(), cursor);
    }
}

/// A saved conversation is read below three lines of heading, with a line for each block in its order.
pub proof fn every_block_has_a_line(saved: crate::app::SavedTranscript, at: int)
    requires
        0 <= at < saved.blocks@.len(),
    ensures
        transcript_lines(saved).len() == saved.blocks@.len() + 3,
        transcript_lines(saved)[at + 3] == whole(
            crate::archive::block_text(saved.blocks@[at]),
            Look::ink(
                if saved.blocks@[at].kind@ == "tool"@ {
                    AMBER
                } else {
                    TEXT
                },
            ),
        ),
{
}

/// The counts are told in the order running, waiting.
pub proof fn the_counts_are_told_in_turn(running: nat, waiting: nat)
    ensures
        decimal_of(running).is_prefix_of(counts_line(running, waiting)),
        (decimal_of(waiting) + " needs you"@).is_suffix_of(counts_line(running, waiting)),
{
    let line = counts_line(running, waiting);
    assert(decimal_of(running) =~= line.take(decimal_of(running).len() as int));
    let tail = decimal_of(waiting) + " needs you"@;
    assert(tail =~= line.skip(line.len() - tail.len()));
}

/// An error is told before anything else; where there is none, it is told that the keys go to the pane
/// exactly where nothing else has them and its machine is there.
pub proof fn the_status_says_who_has_the_keys(app: App, width: u16)
    ensures
        app.error matches Some(error) ==> app.status_line(width) == crate::labels::clipped(
            error@,
            minus(width, 2) as nat,
        ),
        app.error is None ==> (app.status_line(width) == " PI FOCUSED · keys go to Pi"@ <==> {
            &&& !app.picker
            &&& !app.help
            &&& app.fixed_preview is None
            &&& app.diagnostics_export_path is None
            &&& !app.diagnostics_exporting
            &&& app.export_path is None
            &&& !app.tab_overflow_open
            &&& !app.reads_archive()
            &&& !app.nav_focused
            &&& !app.offline()
        }),
{
    reveal_strlit(" PI FOCUSED · keys go to Pi");
    reveal_strlit(" ADD MACHINE · input is captured");
    reveal_strlit(" MACHINE PICKER · input captured");
    reveal_strlit(" MACHINE PICKER · input is captured");
    reveal_strlit(" PROJECT PATH · input captured");
    reveal_strlit(" PROJECT PATH · input is captured");
    reveal_strlit(" WORKSPACE PICKER · input captured");
    reveal_strlit(" WORKSPACE PICKER · input is captured");
    reveal_strlit(" HELP OPEN · Esc closes help");
    reveal_strlit(" FOLLOW-UP · Enter send · Esc cancel");
    reveal_strlit(" FOLLOW-UP PREVIEW · Enter sends · Esc cancels");
    reveal_strlit(" DIAGNOSTICS EXPORT · path input is captured");
    reveal_strlit(" DIAGNOSTICS EXPORT · collecting machines in background");
    reveal_strlit(" ARCHIVE EXPORT · path input captured");
    reveal_strlit(" ARCHIVE EXPORT · path input is captured");
    reveal_strlit(" TAB PICKER · ↑↓ select · Enter opens");
    reveal_strlit(" ARCHIVE READ-ONLY · ↑↓ scroll");
    reveal_strlit(" NAVIGATION · keys navigate");
    reveal_strlit(" NAVIGATION FOCUSED · keys navigate spine");
    reveal_strlit(" MACHINE OFFLINE · Pi input paused");
    assert(" PI FOCUSED · keys go to Pi"@[1] == 'P' && " PI FOCUSED · keys go to Pi"@[2] == 'I');
    assert(" ADD MACHINE · input is captured"@[1] == 'A' && " ADD MACHINE · input is captured"@[2] == 'D');
    assert(" MACHINE PICKER · input captured"@[1] == 'M' && " MACHINE PICKER · input captured"@[2] == 'A');
    assert(" MACHINE PICKER · input is captured"@[1] == 'M' && " MACHINE PICKER · input is captured"@[2] == 'A');
    assert(" PROJECT PATH · input captured"@[1] == 'P' && " PROJECT PATH · input captured"@[2] == 'R');
    assert(" PROJECT PATH · input is captured"@[1] == 'P' && " PROJECT PATH · input is captured"@[2] == 'R');
    assert(" WORKSPACE PICKER · input captured"@[1] == 'W' && " WORKSPACE PICKER · input captured"@[2] == 'O');
    assert(" WORKSPACE PICKER · input is captured"@[1] == 'W' && " WORKSPACE PICKER · input is captured"@[2] == 'O');
    assert(" HELP OPEN · Esc closes help"@[1] == 'H' && " HELP OPEN · Esc closes help"@[2] == 'E');
    assert(" FOLLOW-UP · Enter send · Esc cancel"@[1] == 'F' && " FOLLOW-UP · Enter send · Esc cancel"@[2] == 'O');
    assert(" FOLLOW-UP PREVIEW · Enter sends · Esc cancels"@[1] == 'F' && " FOLLOW-UP PREVIEW · Enter sends · Esc cancels"@[2] == 'O');
    assert(" DIAGNOSTICS EXPORT · path input is captured"@[1] == 'D' && " DIAGNOSTICS EXPORT · path input is captured"@[2] == 'I');
    assert(" DIAGNOSTICS EXPORT · collecting machines in background"@[1] == 'D' && " DIAGNOSTICS EXPORT · collecting machines in background"@[2] == 'I');
    assert(" ARCHIVE EXPORT · path input captured"@[1] == 'A' && " ARCHIVE EXPORT · path input captured"@[2] == 'R');
    assert(" ARCHIVE EXPORT · path input is captured"@[1] == 'A' && " ARCHIVE EXPORT · path input is captured"@[2] == 'R');
    assert(" TAB PICKER · ↑↓ select · Enter opens"@[1] == 'T' && " TAB PICKER · ↑↓ select · Enter opens"@[2] == 'A');
    assert(" ARCHIVE READ-ONLY · ↑↓ scroll"@[1] == 'A' && " ARCHIVE READ-ONLY · ↑↓ scroll"@[2] == 'R');
    assert(" NAVIGATION · keys navigate"@[1] == 'N' && " NAVIGATION · keys navigate"@[2] == 'A');
    assert(" NAVIGATION FOCUSED · keys navigate spine"@[1] == 'N' && " NAVIGATION FOCUSED · keys navigate spine"@[2] == 'A');
    assert(" MACHINE OFFLINE · Pi input paused"@[1] == 'M' && " MACHINE OFFLINE · Pi input paused"@[2] == 'A');
}

/// The copy view shows the pane on the whole screen and nothing else; otherwise the ground is drawn
/// first, and what opens over everything is drawn last.
#[verifier::spinoff_prover]
#[verifier::rlimit(60)]
pub proof fn the_screen_is_drawn_from_the_ground_up(app: App, layout: ScreenLayout)
    ensures
        app.copy_view ==> app.screen_drawn(layout) == seq![
            crate::screen::ground_drawn(layout.screen),
            PaintView::Pane { area: layout.screen },
        ],
        !app.copy_view ==> seq![crate::screen::ground_drawn(layout.screen)].is_prefix_of(
            app.screen_drawn(layout),
        ) && app.overlays_drawn(layout).is_suffix_of(app.screen_drawn(layout)),
{
    if !app.copy_view {
        lemma_layers(
            seq![crate::screen::ground_drawn(layout.screen)],
            app.header_drawn(layout.header),
            app.spine_drawn(layout.sidebar),
            app.body(layout).paints,
            seq![app.status_drawn(layout.status, layout.screen.width)],
            app.overlays_drawn(layout),
        );
    }
}

proof fn lemma_layers(
    a: Seq<PaintView>,
    b: Seq<PaintView>,
    c: Seq<PaintView>,
    d: Seq<PaintView>,
    e: Seq<PaintView>,
    f: Seq<PaintView>,
)
    ensures
        a.is_prefix_of(a + b + c + d + e + f),
        f.is_suffix_of(a + b + c + d + e + f),
{
    lemma_ends(a + b + c + d + e, f);
    lemma_ends(a, b + c + d + e + f);
    assert(a + (b + c + d + e + f) =~= a + b + c + d + e + f);
}

/// Of what opens over everything else, the help is drawn last.
#[verifier::spinoff_prover]
#[verifier::rlimit(60)]
pub proof fn the_help_is_drawn_over_everything(app: App, layout: ScreenLayout)
    ensures
        app.help ==> app.help_drawn(layout).is_suffix_of(app.overlays_drawn(layout)),
        app.picker ==> app.picker_drawn(layout).is_prefix_of(app.overlays_drawn(layout)),
        !app.help && !app.picker && app.diagnostics_export_path is None ==> app.overlays_drawn(
            layout,
        ).len() == 0,
{
    let picker = if app.picker {
        app.picker_drawn(layout)
    } else {
        seq![]
    };
    let question = if app.diagnostics_export_path is Some {
        app.diagnostics_drawn(layout.screen)
    } else {
        seq![]
    };
    let help = if app.help {
        app.help_drawn(layout)
    } else {
        seq![]
    };
    lemma_three_layers(picker, question, help);
}

proof fn lemma_three_layers(a: Seq<PaintView>, b: Seq<PaintView>, c: Seq<PaintView>)
    ensures
        a.is_prefix_of(a + b + c),
        c.is_suffix_of(a + b + c),
{
    lemma_ends(a + b, c);
    lemma_ends(a, b + c);
    assert(a + (b + c) =~= a + b + c);
}

proof fn lemma_ends(front: Seq<PaintView>, back: Seq<PaintView>)
    ensures
        back.is_suffix_of(front + back),
        front.is_prefix_of(front + back),
{
    assert(back =~= (front + back).skip(front.len() as int));
    assert(front =~= (front + back).take(front.len() as int));
}

/// Steps are drawn one over the other: what is drawn later is drawn on what was drawn before.
pub proof fn later_steps_are_drawn_over_earlier_ones(
    before: Map<(u16, u16), CellView>,
    canvas: Rect,
    first: Seq<PaintView>,
    second: Seq<PaintView>,
    pane: Seq<Seq<char>>,
)
    ensures
        painted(before, canvas, first + second, pane) == painted(
            painted(before, canvas, first, pane),
            canvas,
            second,
            pane,
        ),
    decreases second.len(),
{
    if second.len() == 0 {
        assert(first + second =~= first);
    } else {
        let all = first + second;
        assert(all.drop_last() =~= first + second.drop_last());
        assert(all.last() == second.last());
        later_steps_are_drawn_over_earlier_ones(before, canvas, first, second.drop_last(), pane);
    }
}

/// What is cleared is blank, and nothing outside is touched.
pub proof fn what_is_cleared_is_blank(
    before: Map<(u16, u16), CellView>,
    canvas: Rect,
    area: Rect,
    pane: Seq<Seq<char>>,
    place: (u16, u16),
)
    requires
        before.contains_key(place),
    ensures
        ({
            let after = stepped(before, canvas, PaintView::Clear { area }, pane);
            &&& after.contains_key(place)
            &&& area.holds(place) ==> after[place].symbol == " "@ && after[place] == blank_cell()
            &&& !area.holds(place) ==> after[place] == before[place]
        }),
{
}

/// A text that is drawn in an area changes nothing above it, below it or left of it; a line that is not
/// wrapped changes nothing right of it either.
pub proof fn texts_stay_in_their_area(
    before: Map<(u16, u16), CellView>,
    canvas: Rect,
    area: Rect,
    lines: Seq<TextLineView>,
    ground: Look,
    wrap: bool,
    scroll: u16,
    pane: Seq<Seq<char>>,
    place: (u16, u16),
)
    requires
        before.contains_key(place),
        place.0 < area.x || place.1 < area.y || place.1 >= area.y + area.height || (!wrap
            && place.0 >= area.x + area.width),
    ensures
        stepped(
            before,
            canvas,
            PaintView::Text { area, lines, ground, wrap, scroll },
            pane,
        )[place] == before[place],
{
}

/// A long part of a line is drawn in pieces that make it up, each with its look.
pub proof fn long_parts_are_drawn_in_pieces(text: Seq<char>, look: Look, limit: u32)
    requires
        limit > 0,
    ensures
        cut(text, look, limit).map_values(|part: (Seq<char>, Look)| part.0).flatten() == text,
        forall|i: int|
            0 <= i < cut(text, look, limit).len() ==> (#[trigger] cut(text, look, limit)[i]).1 == look
                && cut(text, look, limit)[i].0.len() <= limit,
    decreases text.len(),
{
    let all = cut(text, look, limit);
    let words = all.map_values(|part: (Seq<char>, Look)| part.0);
    if text.len() <= limit {
        assert(words =~= seq![text]);
        assert(words.drop_first() =~= seq![]);
        reveal_with_fuel(Seq::flatten, 2);
        assert(words.flatten() =~= text);
    } else {
        let rest = text.skip(limit as int);
        long_parts_are_drawn_in_pieces(rest, look, limit);
        let more = cut(rest, look, limit);
        assert(words.drop_first() =~= more.map_values(|part: (Seq<char>, Look)| part.0));
        assert(words[0] == text.take(limit as int));
        assert(words.flatten() =~= text.take(limit as int) + rest);
        assert(text =~= text.take(limit as int) + rest);
        assert forall|i: int| 0 <= i < all.len() implies (#[trigger] all[i]).1 == look
            && all[i].0.len() <= limit by {
            if i > 0 {
                assert(all[i] == more[i - 1]);
            }
        }
    }
}

/// The form names its fields in their order, and marks the one that is being filled in.
pub proof fn the_form_names_its_fields(app: App, count: int)
    requires
        0 < count <= 6,
        !app.points_at_saved_host(),
    ensures
        form_lines(app, count).len() == count,
        form_lines(app, count)[count - 1] == whole(
            pointer(count - 1 == app.add_host_field) + " "@ + field_label(count - 1) + ": "@
                + app.add_host_fields@[count - 1]@,
            Look::ink(
                if count - 1 == app.add_host_field {
                    AMBER
                } else {
                    TEXT
                },
            ),
        ),
        pointer(true) == ">"@,
        pointer(false) == " "@,
    decreases count,
{
    assert(form_lines(app, 0).len() == 0);
    if count > 1 {
        the_form_names_its_fields(app, count - 1);
    }
}

/// A row is written in two lines, its label above its state and its detail; where a day starts, that
/// stands above both.
pub proof fn a_row_is_written_below_its_day(row: RowView, chosen: bool)
    ensures
        row_lines(row, chosen).len() == row_height(row),
        row.date is None ==> row_lines(row, chosen)[0] == whole(row.label, row_look(row, chosen)),
        row.date matches Some(date) ==> row_lines(row, chosen)[0] == whole(
            "── "@ + date + " UTC ──"@,
            Look::ink(MUTED),
        ) && row_lines(row, chosen)[1] == whole(row.label, row_look(row, chosen)),
        row.detail.len() == 0 ==> row_lines(row, chosen).last() == whole(
            "      │ "@ + row.state,
            Look::ink(
                if row.state == "NEEDS YOU"@ {
                    AMBER
                } else {
                    MUTED
                },
            ),
        ),
        row.detail.len() > 0 ==> row_lines(row, chosen).last().parts == whole(
            "      │ "@ + (row.state + " · "@ + row.detail),
            Look::plain(),
        ).parts,
{
}

/// The row of a mission starts with the time at which it was started, and says its number and how many
/// agents it has; what asks for attention follows.
pub proof fn a_mission_row_tells_its_mission(
    mission: crate::protocol::Mission,
    open: bool,
    date: Option<Seq<char>>,
)
    ensures
        ({
            let row = mission_row(mission, open, date);
            let agents = decimal_of(mission.agent_ids@.len()) + " agents"@;
            &&& started_of(mission.created_at@).is_prefix_of(row.label)
            &&& (" #"@ + decimal_of(mission.number as nat) + " "@ + mission.name@).is_suffix_of(
                row.label,
            )
            &&& agents.is_prefix_of(row.detail)
            &&& mission.attention is None ==> row.detail == agents
            &&& mission.attention matches Some(words) ==> words@.is_suffix_of(row.detail)
            &&& row.date == date
        }),
{
    let row = mission_row(mission, open, date);
    let time = started_of(mission.created_at@);
    assert(time =~= row.label.take(time.len() as int));
    let tail = " #"@ + decimal_of(mission.number as nat) + " "@ + mission.name@;
    assert(tail =~= row.label.skip(row.label.len() - tail.len()));
    reveal_strlit(" agents");
    reveal_strlit(" agents · ");
    let agents = decimal_of(mission.agent_ids@.len()) + " agents"@;
    if let Some(words) = mission.attention {
        assert(" agents · "@.take(7) =~= " agents"@);
        assert(agents =~= row.detail.take(agents.len() as int)) by {
            let number = decimal_of(mission.agent_ids@.len());
            assert forall|i: int| 0 <= i < 7 implies " agents · "@[i] == " agents"@[i] by {
                assert(" agents · "@.take(7)[i] == " agents · "@[i]);
            }
        }
        assert(words@ =~= row.detail.skip(row.detail.len() - words@.len()));
    }
}

/// The row of a saved conversation names its agent and its mission, and what was worked on.
pub proof fn an_archive_row_tells_its_conversation(archive: crate::app::ArchivedConversation)
    ensures
        (archive.agent_name@ + " · "@ + archive.mission_name@).is_suffix_of(
            archive_row(archive).label,
        ),
        archive_row(archive).detail == archive.task@,
{
    let label = archive_row(archive).label;
    let tail = archive.agent_name@ + " · "@ + archive.mission_name@;
    assert(tail =~= label.skip(label.len() - tail.len()));
}

/// What a follow-up quotes is shown before it is sent: its mission, and its objective once that is
/// known.
pub proof fn a_followup_is_shown_before_it_is_sent(preview: crate::app::FollowupPreview)
    ensures
        followup_lines(preview)[1] == bare(" Source mission: "@ + preview.archive.mission_id@),
        preview.objective matches Some(objective) ==> followup_lines(preview)[3] == whole(
            objective@,
            Look::ink(TEXT),
        ),
{
}

/// Of the picker, what was typed stands in its second line and the last error in its last one; what
/// can be chosen stands between them.
pub proof fn the_picker_shows_what_was_typed(app: App)
    ensures
        app.picker_lines().len() == 3 + app.picker_choices().len() + (if app.error is Some {
            1int
        } else {
            0int
        }),
        app.picker_lines()[1] == whole("> "@ + app.picker_input@, Look::ink(TEXT)),
        app.error matches Some(error) ==> app.picker_lines().last() == whole(
            error@,
            Look::ink(AMBER),
        ),
        forall|i: int|
            0 <= i < app.picker_choices().len() ==> #[trigger] app.picker_lines()[3 + i]
                == app.picker_choices()[i],
        app.host_picker && !app.add_host_form ==> app.picker_choices().len() == app.hosts@.len()
            + 1,
        !app.host_picker && !app.picker_path_mode ==> app.picker_choices().len() == 2
            * app.offers().len(),
        !app.host_picker && app.picker_path_mode ==> app.picker_choices().len() == 0,
{
    lemma_workspaces_len(app.offers(), app.picker_cursor);
}

/// A saved conversation takes the place of the pane; while none has come yet, it is said that it is
/// loaded. What is asked for its export opens over it.
pub proof fn a_saved_conversation_takes_the_place_of_the_pane(app: App, layout: ScreenLayout)
    ensures
        app.saved_transcript matches Some(saved) ==> app.transcript_drawn(layout).len() >= 2
            && app.transcript_drawn(layout)[1] == (PaintView::Text {
            area: layout.pane.inside(),
            lines: transcript_lines(saved),
            ground: Look::ground(crate::canvas::GROUND),
            wrap: true,
            scroll: app.saved_scroll,
        }),
        app.export_path is Some ==> app.export_popup_drawn(layout)[0] == (PaintView::Clear {
            area: layout.export_popup,
        }),
        app.export_path is None && app.error is None ==> app.export_popup_drawn(layout).len() == 0,
        app.fixed_preview is None ==> app.followup_popup_drawn(layout).len() == 0,
        app.fixed_preview is Some ==> app.followup_popup_drawn(layout)[0] == (PaintView::Clear {
            area: layout.followup_popup,
        }),
{
}

} // verus!
