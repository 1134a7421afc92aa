//! Drawing the spine, and the places of its rows on the screen.

use vstd::prelude::*;
use vstd::string::*;

use crate::app::{App, StatusFilter};
use crate::canvas::{
    line_views, paint_views, Caption, Look, Paint, PaintView, Sides, TextLine, TextLineView, AMBER,
    MUTED, RULE, SHADE, TEXT,
};
use crate::drawing::{new_text, push_line, push_paint, text_in, whole};
use crate::geometry::{difference, minus, plus, rect, sum, Rect};
use crate::labels::{clip_label, clipped};
use crate::spine::{row_views, Row, RowKind, RowKindView, RowView};
use crate::text::{concat2, concat3, concat4, decimal, decimal_of, same_text, to_upper_case, upper_case};
use crate::titles::{find_host, host_with};
use crate::seqs::find;

verus! {

/// The number of lines that a row takes: two, and one more above it where a day starts.
pub open spec fn row_height(row: RowView) -> nat {
    if row.date is Some {
        3
    } else {
        2
    }
}

/// The number of lines that rows take.
pub open spec fn rows_height(rows: Seq<RowView>) -> nat
    decreases rows.len(),
{
    if rows.len() == 0 {
        0
    } else {
        rows_height(rows.drop_last()) + row_height(rows.last())
    }
}

/// The line at which the last of the rows starts, below its day.
pub open spec fn last_top(rows: Seq<RowView>) -> nat {
    rows_height(rows.drop_last()) + if rows.last().date is Some {
        1nat
    } else {
        0nat
    }
}

/// A number, or the largest that fits.
pub open spec fn fitted(number: nat) -> u16 {
    if number > u16::MAX {
        u16::MAX
    } else {
        number as u16
    }
}

fn fit(number: u128) -> (fitting: u16)
    ensures
        fitting == fitted(number as nat),
{
    if number > 65535 {
        u16::MAX
    } else {
        number as u16
    }
}

/// The part of the spine below its heading.
pub open spec fn rows_area(inner: Rect) -> Rect {
    rect(inner.x, plus(inner.y, 2), inner.width, minus(inner.height, 2))
}

/// By how many lines the spine is scrolled: so far that the row at the cursor would be the last in
/// view, were there nothing above the rows.
pub open spec fn rows_scroll(rows: Seq<RowView>, cursor: usize, inner: Rect) -> usize {
    let before = rows_height(
        rows.take(
            if cursor < rows.len() {
                cursor as int
            } else {
                rows.len() as int
            },
        ),
    );
    let room = minus(minus(inner.height, 2), 2);
    if before <= room {
        0
    } else if before - room > usize::MAX {
        usize::MAX
    } else {
        (before - room) as usize
    }
}

/// Whether a line is in view.
pub open spec fn in_view(top: nat, scroll: usize, inner: Rect) -> bool {
    scroll <= top < scroll + minus(inner.height, 2)
}

/// The place on the screen of the two lines of a row, as far as they are in view.
pub open spec fn row_place(top: nat, scroll: usize, inner: Rect) -> Rect {
    let area = rows_area(inner);
    let view = minus(inner.height, 2);
    let start = area.y + (top - scroll);
    let shown = if top + 2 < scroll + view {
        2
    } else {
        scroll + view - top
    };
    let end = if start + shown < area.y + area.height {
        start + shown
    } else {
        (area.y + area.height) as int
    };
    rect(
        inner.x,
        fitted(start as nat),
        inner.width,
        if end < start {
            0
        } else {
            fitted((end - start) as nat)
        },
    )
}

fn place_row(top: u128, scroll: usize, inner: Rect) -> (place: Rect)
    requires
        in_view(top as nat, scroll, inner),
    ensures
        place == row_place(top as nat, scroll, inner),
{
    let area = Rect::new(inner.x, sum(inner.y, 2), inner.width, difference(inner.height, 2));
    let view: u128 = difference(inner.height, 2) as u128;
    let start: u128 = area.y as u128 + (top - scroll as u128);
    let left: u128 = scroll as u128 + view - top;
    let shown: u128 = if left > 2 {
        2
    } else {
        left
    };
    let bottom: u128 = area.y as u128 + area.height as u128;
    let end: u128 = if start + shown < bottom {
        start + shown
    } else {
        bottom
    };
    let height: u16 = if end < start {
        0
    } else {
        fit(end - start)
    };
    Rect::new(inner.x, fit(start), inner.width, height)
}

/// The places of the rows that are in view. Above the rows stand some other lines.
pub open spec fn row_places(rows: Seq<RowView>, above: nat, scroll: usize, inner: Rect) -> Seq<
    (Rect, usize),
>
    decreases rows.len(),
{
    if rows.len() == 0 {
        seq![]
    } else {
        let before = row_places(rows.drop_last(), above, scroll, inner);
        let top = above + last_top(rows);
        if in_view(top, scroll, inner) {
            before.push((row_place(top, scroll, inner), (rows.len() - 1) as usize))
        } else {
            before
        }
    }
}

/// How the lines of a row look.
pub open spec fn row_look(row: RowView, chosen: bool) -> Look {
    if chosen {
        Look::both(AMBER, SHADE)
    } else if row.state == "NEEDS YOU"@ {
        Look::ink(AMBER)
    } else {
        Look::ink(TEXT)
    }
}

/// The lines of a row: its day where that starts, its label, its state and its detail.
pub open spec fn row_lines(row: RowView, chosen: bool) -> Seq<TextLineView> {
    let suffix = if row.detail.len() == 0 {
        row.state
    } else {
        row.state + " · "@ + row.detail
    };
    let lines = seq![
        whole(row.label, row_look(row, chosen)),
        whole(
            "      │ "@ + suffix,
            Look::ink(
                if row.state == "NEEDS YOU"@ {
                    AMBER
                } else {
                    MUTED
                },
            ),
        ),
    ];
    match row.date {
        Some(date) => seq![whole("── "@ + date + " UTC ──"@, Look::ink(MUTED))] + lines,
        None => lines,
    }
}

/// The lines of rows. The row at the cursor is marked where the spine has the keys.
pub open spec fn rows_lines(rows: Seq<RowView>, cursor: usize, nav_focused: bool) -> Seq<
    TextLineView,
>
    decreases rows.len(),
{
    if rows.len() == 0 {
        seq![]
    } else {
        rows_lines(rows.drop_last(), cursor, nav_focused) + row_lines(
            rows.last(),
            rows.len() - 1 == cursor && nav_focused,
        )
    }
}

/// Whether a row stands for a mission or for an archived conversation.
pub open spec fn is_content(kind: RowKindView) -> bool {
    kind is Mission || kind is ArchivedAgent
}

/// Whether one of the rows stands for a mission or for an archived conversation.
pub open spec fn has_content(rows: Seq<RowView>) -> bool {
    exists|i: int| 0 <= i < rows.len() && is_content((#[trigger] rows[i]).kind)
}

/// What is said where there is nothing to show.
pub open spec fn empty_words(filter: StatusFilter) -> Seq<char> {
    match filter {
        StatusFilter::All => "No missions yet"@,
        StatusFilter::Running => "No running missions"@,
        StatusFilter::NeedsYou => "No missions need you"@,
        StatusFilter::Archived => "No archived conversations"@,
    }
}

/// The lines where there is nothing to show, and what can be done about it.
pub open spec fn empty_lines(filter: StatusFilter) -> Seq<TextLineView> {
    let first = seq![whole(empty_words(filter), Look::ink(MUTED))];
    let second = if filter == StatusFilter::All {
        first
    } else {
        first.push(whole("Press s to cycle statuses"@, Look::ink(AMBER)))
    };
    second.push(whole("Open project  Ctrl+K"@, Look::ink(AMBER)))
}

/// The lines that stand above the rows: what is said where there is nothing to show.
pub open spec fn notice(rows: Seq<RowView>, filter: StatusFilter) -> Seq<TextLineView> {
    if has_content(rows) {
        seq![]
    } else {
        empty_lines(filter)
    }
}

/// The lines of the spine.
pub open spec fn spine_lines(
    rows: Seq<RowView>,
    filter: StatusFilter,
    cursor: usize,
    nav_focused: bool,
) -> Seq<TextLineView> {
    notice(rows, filter) + rows_lines(rows, cursor, nav_focused)
}

fn holds_content(rows: &Vec<Row>) -> (yes: bool)
    ensures
        yes == has_content(row_views(rows@)),
{
    let ghost views = row_views(rows@);
    let mut at: usize = 0;
    while at < rows.len()
        invariant
            at <= rows@.len() == views.len(),
            views == row_views(rows@),
            forall|i: int| 0 <= i < at ==> !is_content((#[trigger] views[i]).kind),
        decreases rows@.len() - at,
    {
        assert(views[at as int] == rows@[at as int]@);
        let found: bool = match &rows[at].kind {
            RowKind::Mission(_) => true,
            RowKind::ArchivedAgent(_) => true,
            _ => false,
        };
        if found {
            assert(is_content(views[at as int].kind));
            return true;
        }
        at = at + 1;
    }
    false
}

fn notice_height(rows: &Vec<Row>, filter: StatusFilter) -> (height: u128)
    ensures
        height == notice(row_views(rows@), filter).len(),
        height <= 3,
{
    if holds_content(rows) {
        0
    } else if filter == StatusFilter::All {
        2
    } else {
        3
    }
}

fn push_empty(lines: &mut Vec<TextLine>, filter: StatusFilter)
    requires
        old(lines)@.len() == 0,
    ensures
        line_views(final(lines)@) == empty_lines(filter),
{
    let words: &str = match filter {
        StatusFilter::All => "No missions yet",
        StatusFilter::Running => "No running missions",
        StatusFilter::NeedsYou => "No missions need you",
        StatusFilter::Archived => "No archived conversations",
    };
    assert(line_views(lines@) =~= seq![]);
    push_line(lines, words.to_owned(), Look::new_ink(MUTED));
    assert(line_views(lines@) =~= seq![whole(empty_words(filter), Look::ink(MUTED))]);
    if filter != StatusFilter::All {
        push_line(lines, "Press s to cycle statuses".to_owned(), Look::new_ink(AMBER));
    }
    push_line(lines, "Open project  Ctrl+K".to_owned(), Look::new_ink(AMBER));
}

fn push_row_lines(lines: &mut Vec<TextLine>, row: &Row, chosen: bool)
    ensures
        line_views(final(lines)@) == line_views(old(lines)@) + row_lines(row@, chosen),
{
    let ghost before = line_views(lines@);
    if let Some(date) = &row.date {
        push_line(lines, concat3("── ", date, " UTC ──"), Look::new_ink(MUTED));
    }
    let needs: bool = same_text(&row.state, "NEEDS YOU");
    let look = if chosen {
        Look::new_both(AMBER, SHADE)
    } else if needs {
        Look::new_ink(AMBER)
    } else {
        Look::new_ink(TEXT)
    };
    push_line(lines, row.label.clone(), look);
    let suffix = if row.detail.as_str().unicode_len() == 0 {
        row.state.clone()
    } else {
        concat3(&row.state, " · ", &row.detail)
    };
    let second = Look::new_ink(
        if needs {
            AMBER
        } else {
            MUTED
        },
    );
    push_line(lines, concat2("      │ ", &suffix), second);
    assert(line_views(lines@) =~= before + row_lines(row@, chosen));
}

fn height_of(row: &Row) -> (height: u128)
    ensures
        height == row_height(row@),
        height <= 3,
{
    match &row.date {
        Some(_) => 3,
        None => 2,
    }
}

fn height_before(rows: &Vec<Row>, cursor: usize) -> (height: u128)
    ensures
        height == rows_height(
            row_views(rows@).take(
                if cursor < rows@.len() {
                    cursor as int
                } else {
                    rows@.len() as int
                },
            ),
        ),
{
    let ghost views = row_views(rows@);
    let mut height: u128 = 0;
    let mut at: usize = 0;
    while at < rows.len() && at < cursor
        invariant
            at <= rows@.len() == views.len(),
            at <= cursor,
            views == row_views(rows@),
            height == rows_height(views.take(at as int)),
            height <= 3 * at,
        decreases rows@.len() - at,
    {
        let ghost now = views.take(at + 1);
        assert(now.drop_last() =~= views.take(at as int));
        assert(now.last() == rows@[at as int]@);
        height = height + height_of(&rows[at]);
        at = at + 1;
    }
    height
}

fn find_scroll(rows: &Vec<Row>, cursor: usize, inner: Rect) -> (scroll: usize)
    ensures
        scroll == rows_scroll(row_views(rows@), cursor, inner),
{
    assert(row_views(rows@).len() == rows@.len());
    let before: u128 = height_before(rows, cursor);
    let room: u128 = difference(difference(inner.height, 2), 2) as u128;
    if before <= room {
        0
    } else if before - room > usize::MAX as u128 {
        usize::MAX
    } else {
        (before - room) as usize
    }
}

fn find_places(rows: &Vec<Row>, above: u128, scroll: usize, inner: Rect) -> (places: Vec<
    (Rect, usize),
>)
    requires
        above <= 3,
    ensures
        places@ == row_places(row_views(rows@), above as nat, scroll, inner),
{
    let ghost views = row_views(rows@);
    let mut places: Vec<(Rect, usize)> = Vec::new();
    let mut height: u128 = above;
    let mut at: usize = 0;
    let bottom: u128 = scroll as u128 + difference(inner.height, 2) as u128;
    while at < rows.len()
        invariant
            at <= rows@.len() == views.len(),
            views == row_views(rows@),
            height == above + rows_height(views.take(at as int)),
            height <= 3 * at + 3,
            bottom == scroll + minus(inner.height, 2),
            places@ == row_places(views.take(at as int), above as nat, scroll, inner),
        decreases rows@.len() - at,
    {
        let ghost now = views.take(at + 1);
        assert(now.drop_last() =~= views.take(at as int));
        assert(now.last() == rows@[at as int]@);
        let next: u128 = height + height_of(&rows[at]);
        let top: u128 = next - 2;
        assert(top == above + last_top(now));
        if top >= scroll as u128 && top < bottom {
            places.push((place_row(top, scroll, inner), at));
        }
        height = next;
        at = at + 1;
    }
    assert(views.take(at as int) =~= views);
    places
}

fn write_lines(rows: &Vec<Row>, filter: StatusFilter, cursor: usize, nav_focused: bool) -> (lines:
    Vec<TextLine>)
    ensures
        line_views(lines@) == spine_lines(row_views(rows@), filter, cursor, nav_focused),
{
    let ghost views = row_views(rows@);
    let mut lines: Vec<TextLine> = Vec::new();
    if !holds_content(rows) {
        push_empty(&mut lines, filter);
    }
    let ghost start = line_views(lines@);
    assert(start =~= notice(views, filter));
    let mut at: usize = 0;
    assert(start + rows_lines(views.take(0), cursor, nav_focused) =~= start);
    while at < rows.len()
        invariant
            at <= rows@.len() == views.len(),
            views == row_views(rows@),
            line_views(lines@) == start + rows_lines(views.take(at as int), cursor, nav_focused),
        decreases rows@.len() - at,
    {
        let ghost now = views.take(at + 1);
        assert(now.drop_last() =~= views.take(at as int));
        assert(now.last() == rows@[at as int]@);
        push_row_lines(&mut lines, &rows[at], at == cursor && nav_focused);
        assert(line_views(lines@) =~= start + rows_lines(now, cursor, nav_focused));
        at = at + 1;
    }
    assert(views.take(at as int) =~= views);
    lines
}

proof fn lemma_rows_lines_len(rows: Seq<RowView>, cursor: usize, nav_focused: bool)
    ensures
        rows_lines(rows, cursor, nav_focused).len() == rows_height(rows),
    decreases rows.len(),
{
    if rows.len() > 0 {
        lemma_rows_lines_len(rows.drop_last(), cursor, nav_focused);
    }
}

/// The line that a row starts with, below its day.
pub open spec fn label_line(rows: Seq<RowView>, at: int, cursor: usize, nav_focused: bool) -> TextLineView {
    whole(rows[at].label, row_look(rows[at], at == cursor && nav_focused))
}

/// Whether a place stands for a row, and starts at the line of the spine at which that row starts.
pub open spec fn stands_on_row(
    place: (Rect, usize),
    rows: Seq<RowView>,
    filter: StatusFilter,
    cursor: usize,
    nav_focused: bool,
    scroll: usize,
    inner: Rect,
) -> bool {
    let lines = spine_lines(rows, filter, cursor, nav_focused);
    let line = scroll + place.0.y - rows_area(inner).y;
    &&& place.1 < rows.len()
    &&& rows_area(inner).y <= place.0.y
    &&& 0 <= line < lines.len()
    &&& lines[line] == label_line(rows, place.1 as int, cursor, nav_focused)
}

proof fn lemma_places_stand(
    rows: Seq<RowView>,
    count: nat,
    filter: StatusFilter,
    cursor: usize,
    nav_focused: bool,
    scroll: usize,
    inner: Rect,
    k: int,
)
    requires
        count <= rows.len() <= usize::MAX,
        inner.y + inner.height <= u16::MAX,
        0 <= k < row_places(rows.take(count as int), notice(rows, filter).len(), scroll, inner).len(),
    ensures
        stands_on_row(
            row_places(rows.take(count as int), notice(rows, filter).len(), scroll, inner)[k],
            rows,
            filter,
            cursor,
            nav_focused,
            scroll,
            inner,
        ),
    decreases count,
{
    let above = notice(rows, filter).len();
    let now = rows.take(count as int);
    if count > 0 {
        let before = rows.take(count - 1);
        assert(now.drop_last() =~= before);
        let places = row_places(before, above, scroll, inner);
        if k < places.len() {
            lemma_places_stand(
                rows,
                (count - 1) as nat,
                filter,
                cursor,
                nav_focused,
                scroll,
                inner,
                k,
            );
        } else {
            let top = above + last_top(now);
            let row = rows[count - 1];
            let chosen = count - 1 == cursor && nav_focused;
            lemma_rows_lines_len(before, cursor, nav_focused);
            assert(in_view(top, scroll, inner));
            lemma_line_of_row(rows, count, cursor, nav_focused);
            let lines = spine_lines(rows, filter, cursor, nav_focused);
            assert(lines[top as int] == rows_lines(rows, cursor, nav_focused)[top - above]);
        }
    }
}

/// The lines of the first rows start with those of fewer.
proof fn lemma_line_of_row(rows: Seq<RowView>, count: nat, cursor: usize, nav_focused: bool)
    requires
        0 < count <= rows.len(),
    ensures
        last_top(rows.take(count as int)) < rows_lines(rows, cursor, nav_focused).len(),
        rows_lines(rows, cursor, nav_focused)[last_top(rows.take(count as int)) as int]
            == label_line(rows, count - 1, cursor, nav_focused),
    decreases rows.len(),
{
    let now = rows.take(count as int);
    assert(now.drop_last() =~= rows.take(count - 1));
    let rest = rows.drop_last();
    lemma_rows_lines_len(rest, cursor, nav_focused);
    lemma_rows_lines_len(rows, cursor, nav_focused);
    if count == rows.len() {
        assert(now =~= rows);
        assert(rows_lines(rows, cursor, nav_focused) == rows_lines(rest, cursor, nav_focused)
            + row_lines(rows.last(), rows.len() - 1 == cursor && nav_focused));
    } else {
        lemma_line_of_row(rest, count, cursor, nav_focused);
        assert(rest.take(count as int) =~= now);
    }
}

/// Every place of a row starts on the line that shows the label of that row, whatever is folded open
/// or filtered out, and whatever is said above the rows; on a screen whose rows can be counted.
pub proof fn places_stand_on_their_rows(app: App, area: Rect, k: int)
    requires
        app.spine().len() <= usize::MAX,
        area.inside().y + area.inside().height <= u16::MAX,
        0 <= k < app.spine_places(area).len(),
    ensures
        stands_on_row(
            app.spine_places(area)[k],
            app.spine(),
            app.status_filter,
            app.cursor,
            app.nav_focused,
            app.spine_scroll(area),
            area.inside(),
        ),
{
    assert(app.spine().take(app.spine().len() as int) =~= app.spine());
    lemma_places_stand(
        app.spine(),
        app.spine().len(),
        app.status_filter,
        app.cursor,
        app.nav_focused,
        app.spine_scroll(area),
        area.inside(),
        k,
    );
}

/// The spine as it is drawn, and the places of its rows.
pub struct SpineDrawing {
    pub paints: Vec<Paint>,
    pub scroll: usize,
    pub places: Vec<(Rect, usize)>,
}

impl App {
    /// The machine whose spine is shown.
    pub open spec fn spine_machine(self) -> Seq<char> {
        match self.snapshot {
            Some(snapshot) => snapshot.machine.name@,
            None => match find(self.hosts@, host_with(self.selected_host@)) {
                Some(host) => host.label@,
                None => "local"@,
            },
        }
    }

    /// The words for the status filter, as there is room for them.
    pub open spec fn filter_words(self, width: u16) -> Seq<char> {
        if width < 42 {
            self.status_filter.short_words()
        } else {
            self.status_filter.words()
        }
    }

    /// The first line above the spine: the status filter and the machine.
    pub open spec fn filter_line(self, width: u16) -> Seq<char> {
        let filter = self.filter_words(width);
        let room = if width <= filter.len() + 3 {
            0
        } else {
            (width - filter.len() - 3) as nat
        };
        filter + " · "@ + clipped(upper_case(self.spine_machine()), room)
    }

    /// The second line above the spine: whether the machine is there, and how many are.
    pub open spec fn connection_line(self) -> Seq<char> {
        let count = decimal_of(self.live_hosts@.len());
        if self.offline() {
            "OFFLINE · "@ + count + " CONNECTED"@
        } else {
            "CONNECTED · "@ + count + " "@ + if self.live_hosts@.len() == 1 {
                "MACHINE"@
            } else {
                "MACHINES"@
            }
        }
    }

    /// By how many lines the spine is scrolled.
    pub open spec fn spine_scroll(self, area: Rect) -> usize {
        rows_scroll(self.spine(), self.cursor, area.inside())
    }

    /// The places of the rows of the spine that are in view.
    pub open spec fn spine_places(self, area: Rect) -> Seq<(Rect, usize)> {
        row_places(
            self.spine(),
            notice(self.spine(), self.status_filter).len(),
            self.spine_scroll(area),
            area.inside(),
        )
    }

    /// The place of the status filter.
    pub open spec fn filter_place(self, area: Rect) -> Rect {
        let inner = area.inside();
        rect(inner.x, inner.y, inner.width, 1)
    }

    /// The spine as it is drawn.
    pub open spec fn spine_drawn(self, area: Rect) -> Seq<PaintView> {
        let inner = area.inside();
        let scroll = self.spine_scroll(area);
        seq![
            PaintView::Frame {
                area,
                sides: Sides::Right,
                caption: Some(
                    if self.nav_focused {
                        Caption::SpineNavigation
                    } else {
                        Caption::Spine
                    },
                ),
                edge: Look::ink(
                    if self.nav_focused {
                        AMBER
                    } else {
                        RULE
                    },
                ),
                ground: Look::plain(),
            },
            text_in(
                rect(inner.x, inner.y, inner.width, 2),
                seq![
                    whole(self.filter_line(inner.width), Look::ink(MUTED)),
                    whole(self.connection_line(), Look::ink(MUTED)),
                ],
                Look::plain(),
            ),
            PaintView::Text {
                area: rows_area(inner),
                lines: spine_lines(self.spine(), self.status_filter, self.cursor, self.nav_focused),
                ground: Look::plain(),
                wrap: false,
                scroll: fitted(scroll as nat),
            },
        ]
    }

    fn write_filter_line(&self, width: u16) -> (line: String)
        ensures
            line@ == self.filter_line(width),
    {
        let machine: &str = match &self.snapshot {
            Some(snapshot) => snapshot.machine.name.as_str(),
            None => match find_host(&self.hosts, &self.selected_host) {
                Some(at) => self.hosts[at].label.as_str(),
                None => "local",
            },
        };
        let filter: &str = if width < 42 {
            self.status_filter.short_label()
        } else {
            self.status_filter.label()
        };
        let length: usize = filter.unicode_len();
        let room: usize = if width as usize <= length || width as usize - length <= 3 {
            0
        } else {
            width as usize - length - 3
        };
        let machine = clip_label(&to_upper_case(machine), room);
        concat3(filter, " · ", &machine)
    }

    fn write_connection_line(&self) -> (line: String)
        ensures
            line@ == self.connection_line(),
    {
        let count = decimal(self.live_hosts.len() as u64);
        if self.selected_host_is_offline() {
            concat3("OFFLINE · ", &count, " CONNECTED")
        } else if self.live_hosts.len() == 1 {
            concat4("CONNECTED · ", &count, " ", "MACHINE")
        } else {
            concat4("CONNECTED · ", &count, " ", "MACHINES")
        }
    }

    /// Draws the spine.
    pub fn draw_spine(&self, area: Rect) -> (drawing: SpineDrawing)
        ensures
            paint_views(drawing.paints@) == self.spine_drawn(area),
            drawing.scroll == self.spine_scroll(area),
            drawing.places@ == self.spine_places(area),
    {
        let inner = area.inner();
        let rows = self.rows();
        let above: u128 = notice_height(&rows, self.status_filter);
        let scroll: usize = find_scroll(&rows, self.cursor, inner);
        let places = find_places(&rows, above, scroll, inner);
        let (caption, edge): (Caption, u32) = if self.nav_focused {
            (Caption::SpineNavigation, AMBER)
        } else {
            (Caption::Spine, RULE)
        };
        let mut heading: Vec<TextLine> = Vec::new();
        push_line(&mut heading, self.write_filter_line(inner.width), Look::new_ink(MUTED));
        push_line(&mut heading, self.write_connection_line(), Look::new_ink(MUTED));
        let ghost heading_lines = seq![
            whole(self.filter_line(inner.width), Look::ink(MUTED)),
            whole(self.connection_line(), Look::ink(MUTED)),
        ];
        assert(line_views(heading@) =~= heading_lines);
        let mut paints: Vec<Paint> = Vec::new();
        push_paint(
            &mut paints,
            Paint::Frame {
                area,
                sides: Sides::Right,
                caption: Some(caption),
                edge: Look::new_ink(edge),
                ground: Look::new_plain(),
            },
        );
        push_paint(
            &mut paints,
            new_text(
                Rect::new(inner.x, inner.y, inner.width, 2),
                heading,
                Look::new_plain(),
            ),
        );
        let lines = write_lines(&rows, self.status_filter, self.cursor, self.nav_focused);
        let body = Rect::new(inner.x, sum(inner.y, 2), inner.width, difference(inner.height, 2));
        push_paint(
            &mut paints,
            Paint::Text {
                area: body,
                lines,
                ground: Look::new_plain(),
                wrap: false,
                scroll: fit(scroll as u128),
            },
        );
        assert(paint_views(paints@) =~= self.spine_drawn(area));
        SpineDrawing { paints, scroll, places }
    }
}

} // verus!
