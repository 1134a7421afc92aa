//! Drawing the tabs, the pane below them, and the list of the tabs that there is no room for.

use vstd::prelude::*;
use vstd::string::*;

use crate::app::App;
use crate::canvas::{paint_views, Caption, Look, Paint, PaintView, AMBER, MUTED, RULE};
use crate::drawing::{
    append_paints, bare_lines, frame_around, new_frame, new_text, push_paint, text_in,
    to_bare_lines,
};
use crate::geometry::{difference, least, minus, plus, rect, smaller, sum, Rect};
use crate::hosts::{KeyView, ScopedTarget, SessionKey};
use crate::labels::{clip_label, clipped};
use crate::picker::last_place;
use crate::seqs::position;
use crate::tabs::{find_tab, tab_with};
use crate::text::{concat3, decimal, decimal_of};

verus! {

/// The columns that a tab would take: its label, and the sign to close it.
pub open spec fn wanted_width(app: App, tab: ScopedTarget) -> nat {
    app.tab_name(tab@).len() + 4
}

/// The columns that tabs would take.
pub open spec fn wanted_widths(app: App, tabs: Seq<ScopedTarget>) -> nat
    decreases tabs.len(),
{
    if tabs.len() == 0 {
        0
    } else {
        wanted_widths(app, tabs.drop_last()) + wanted_width(app, tabs.last())
    }
}

/// The columns that are left for a tab, of which four are kept for the sign for more tabs.
pub open spec fn room_at(area: Rect, x: u16) -> u16 {
    minus(minus(area.width, (x - area.x) as u16), 4)
}

/// The columns that a tab gets.
pub open spec fn width_at(app: App, tab: ScopedTarget, area: Rect, x: u16) -> u16 {
    if wanted_width(app, tab) < room_at(area, x) {
        wanted_width(app, tab) as u16
    } else {
        room_at(area, x)
    }
}

/// The column at which a tab starts: behind the corner of the pane and the tabs before it.
pub open spec fn column(app: App, tabs: Seq<ScopedTarget>, area: Rect, at: int) -> u16
    decreases at,
{
    if at <= 0 {
        plus(area.x, 1)
    } else {
        let x = column(app, tabs, area, at - 1);
        plus(x, width_at(app, tabs[at - 1], area, x))
    }
}

/// Whether there is too little room for a tab.
pub open spec fn squeezed(app: App, tabs: Seq<ScopedTarget>, area: Rect, at: int) -> bool {
    width_at(app, tabs[at], area, column(app, tabs, area, at)) < 8
}

/// The number of tabs that there is room for, where there is room for those before `from`.
pub open spec fn shown_count(app: App, tabs: Seq<ScopedTarget>, area: Rect, from: int) -> int
    decreases tabs.len() - from,
{
    if from >= tabs.len() {
        tabs.len() as int
    } else if squeezed(app, tabs, area, from) {
        from
    } else {
        shown_count(app, tabs, area, from + 1)
    }
}

/// The place of a tab.
pub open spec fn tab_place(app: App, tabs: Seq<ScopedTarget>, area: Rect, at: int) -> Rect {
    let x = column(app, tabs, area, at);
    rect(x, area.y, width_at(app, tabs[at], area, x), 1)
}

/// The place at which a tab is chosen.
pub open spec fn choose_place(app: App, tabs: Seq<ScopedTarget>, area: Rect, at: int) -> (
    Rect,
    SessionKey,
) {
    let place = tab_place(app, tabs, area, at);
    (rect(place.x, place.y, minus(place.width, 2), 1), tabs[at].key)
}

/// The place at which a tab is closed.
pub open spec fn close_place(app: App, tabs: Seq<ScopedTarget>, area: Rect, at: int) -> (
    Rect,
    SessionKey,
) {
    let place = tab_place(app, tabs, area, at);
    (rect(minus(place.end_x(), 2), place.y, 2, 1), tabs[at].key)
}

/// A tab as it is drawn.
pub open spec fn tab_drawn(app: App, tabs: Seq<ScopedTarget>, area: Rect, at: int) -> Seq<
    PaintView,
> {
    let x = column(app, tabs, area, at);
    let width = width_at(app, tabs[at], area, x);
    let label = " "@ + app.short_tab_name(tabs[at]@, minus(width, 3) as nat) + " "@;
    let ink = if app.shows(tabs[at].key@) {
        AMBER
    } else {
        MUTED
    };
    seq![
        text_in(tab_place(app, tabs, area, at), bare_lines(label), Look::ink(ink)),
        text_in(close_place(app, tabs, area, at).0, bare_lines("×"@), Look::ink(MUTED)),
    ]
}

/// The first tabs as they are drawn.
pub open spec fn tabs_drawn(app: App, tabs: Seq<ScopedTarget>, area: Rect, count: int) -> Seq<
    PaintView,
>
    decreases count,
{
    if count <= 0 {
        seq![]
    } else {
        tabs_drawn(app, tabs, area, count - 1) + tab_drawn(app, tabs, area, count - 1)
    }
}

/// The keys of tabs.
pub open spec fn keys_of(tabs: Seq<ScopedTarget>) -> Seq<SessionKey> {
    tabs.map_values(|tab: ScopedTarget| tab.key)
}

/// The sign for more tabs.
pub open spec fn more_label(count: nat) -> Seq<char> {
    " +"@ + decimal_of(count) + " "@
}

/// The place of the sign for more tabs.
pub open spec fn more_place(area: Rect, x: u16, hidden: nat) -> Option<Rect> {
    let room = minus(area.end_x(), x);
    let width = if more_label(hidden).len() < room {
        more_label(hidden).len() as u16
    } else {
        room
    };
    if hidden == 0 || width == 0 {
        None
    } else {
        Some(rect(x, area.y, width, 1))
    }
}

/// Whether a key stands in a list.
pub open spec fn lists_key(keys: Seq<SessionKey>, key: KeyView) -> bool {
    exists|i: int| 0 <= i < keys.len() && (#[trigger] keys[i])@ == key
}

/// The tabs whose keys stand in a list.
pub open spec fn listed_in(keys: Seq<SessionKey>) -> spec_fn(ScopedTarget) -> bool {
    |tab: ScopedTarget| lists_key(keys, tab.key@)
}

/// The rows of the list of more tabs.
pub open spec fn menu_height(count: nat, area: Rect) -> u16 {
    let all = if count > u16::MAX {
        u16::MAX
    } else {
        count as u16
    };
    least(least(all, minus(area.height, 3)), 6)
}

/// The cursor in the list of more tabs, within the list.
pub open spec fn menu_cursor(cursor: usize, count: nat) -> usize {
    if cursor < last_place(count) {
        cursor
    } else {
        last_place(count)
    }
}

/// The first tab that the list of more tabs shows: the cursor is always in view.
pub open spec fn menu_start(cursor: usize, height: u16) -> int {
    let above = minus(height, 1);
    if cursor <= above {
        0
    } else {
        cursor - above
    }
}

/// The place of the list of more tabs.
pub open spec fn menu_place(count: nat, area: Rect) -> Rect {
    rect(
        plus(area.x, 2),
        plus(area.y, 1),
        least(minus(area.width, 4), 38),
        plus(menu_height(count, area), 2),
    )
}

/// The number of rows of the list of more tabs that hold a tab.
pub open spec fn menu_rows(tabs: Seq<ScopedTarget>, area: Rect, cursor: usize) -> int {
    let height = menu_height(tabs.len(), area);
    let left = tabs.len() - menu_start(cursor, height);
    if left < height {
        left
    } else {
        height as int
    }
}

/// The place of a row of the list of more tabs.
pub open spec fn menu_row_place(menu: Rect, row: int) -> Rect {
    rect(plus(menu.x, 1), plus(menu.y, (1 + row) as u16), minus(menu.width, 2), 1)
}

/// The tab in a row of the list of more tabs.
pub open spec fn menu_tab(tabs: Seq<ScopedTarget>, area: Rect, cursor: usize, row: int) -> ScopedTarget {
    tabs[menu_start(cursor, menu_height(tabs.len(), area)) + row]
}

/// The places of the rows of the list of more tabs.
pub open spec fn menu_places(tabs: Seq<ScopedTarget>, area: Rect, cursor: usize) -> Seq<
    (Rect, SessionKey),
> {
    let menu = menu_place(tabs.len(), area);
    Seq::new(
        menu_rows(tabs, area, cursor) as nat,
        |row: int| (menu_row_place(menu, row), menu_tab(tabs, area, cursor, row).key),
    )
}

/// A row of the list of more tabs as it is drawn.
pub open spec fn menu_row_drawn(
    app: App,
    tabs: Seq<ScopedTarget>,
    area: Rect,
    cursor: usize,
    row: int,
) -> PaintView {
    let menu = menu_place(tabs.len(), area);
    let chosen = menu_start(cursor, menu_height(tabs.len(), area)) + row == cursor;
    text_in(
        menu_row_place(menu, row),
        bare_lines(app.listed_tab_name(menu_tab(tabs, area, cursor, row)@)),
        Look::ink(
            if chosen {
                AMBER
            } else {
                MUTED
            },
        ),
    )
}

/// The list of more tabs as it is drawn.
pub open spec fn menu_drawn(app: App, tabs: Seq<ScopedTarget>, area: Rect, cursor: usize) -> Seq<
    PaintView,
> {
    let menu = menu_place(tabs.len(), area);
    seq![
        PaintView::Clear { area: menu },
        frame_around(menu, Some(Caption::Tabs), AMBER, Look::plain()),
    ] + Seq::new(
        menu_rows(tabs, area, cursor) as nat,
        |row: int| menu_row_drawn(app, tabs, area, cursor, row),
    )
}

/// The list of more tabs, drawn.
pub struct Menu {
    pub paints: Vec<Paint>,
    pub places: Vec<(Rect, SessionKey)>,
    pub cursor: usize,
}

/// The tabs, drawn.
pub struct Strip {
    pub paints: Vec<Paint>,
    pub places: Vec<(Rect, SessionKey)>,
    pub closes: Vec<(Rect, SessionKey)>,
    pub hidden: Vec<SessionKey>,
    pub more: Option<Rect>,
}

fn copy_keys(tabs: &Vec<ScopedTarget>, from: usize) -> (keys: Vec<SessionKey>)
    requires
        from <= tabs@.len(),
    ensures
        keys@ == keys_of(tabs@.skip(from as int)),
{
    let mut keys: Vec<SessionKey> = Vec::new();
    let mut at: usize = from;
    let ghost wanted = keys_of(tabs@.skip(from as int));
    while at < tabs.len()
        invariant
            from <= at <= tabs@.len(),
            wanted == keys_of(tabs@.skip(from as int)),
            keys@ == wanted.take(at - from),
        decreases tabs@.len() - at,
    {
        assert(wanted[at - from] == tabs@[at as int].key);
        keys.push(tabs[at].key.clone());
        assert(keys@ =~= wanted.take(at + 1 - from));
        at = at + 1;
    }
    assert(wanted.take(at - from) =~= wanted);
    keys
}

/// Whether a key stands in a list.
pub fn has_key(keys: &Vec<SessionKey>, key: &SessionKey) -> (found: bool)
    ensures
        found == lists_key(keys@, key@),
{
    let mut at: usize = 0;
    while at < keys.len()
        invariant
            at <= keys@.len(),
            forall|i: int| 0 <= i < at ==> (#[trigger] keys@[i])@ != key@,
        decreases keys@.len() - at,
    {
        if keys[at] == *key {
            assert(keys@[at as int]@ == key@);
            return true;
        }
        at = at + 1;
    }
    false
}

fn pick_tabs(tabs: &Vec<ScopedTarget>, keys: &Vec<SessionKey>) -> (list: Vec<ScopedTarget>)
    ensures
        list@ == tabs@.filter(listed_in(keys@)),
{
    let ghost wanted = listed_in(keys@);
    let mut list: Vec<ScopedTarget> = Vec::new();
    let mut at: usize = 0;
    proof {
        reveal(Seq::filter);
        assert(list@ =~= tabs@.take(0).filter(wanted));
    }
    while at < tabs.len()
        invariant
            at <= tabs@.len(),
            wanted == listed_in(keys@),
            list@ == tabs@.take(at as int).filter(wanted),
        decreases tabs@.len() - at,
    {
        let ghost now = tabs@.take(at + 1);
        assert(now.drop_last() =~= tabs@.take(at as int));
        assert(now.last() == tabs@[at as int]);
        proof {
            reveal(Seq::filter);
        }
        if has_key(keys, &tabs[at].key) {
            list.push(tabs[at].clone());
        }
        at = at + 1;
    }
    assert(tabs@.take(at as int) =~= tabs@);
    list
}

/// A list that starts with one of its places and goes on from its end to its start.
pub open spec fn rotated(tabs: Seq<ScopedTarget>, at: int) -> Seq<ScopedTarget> {
    tabs.skip(at) + tabs.take(at)
}

fn rotate(tabs: &Vec<ScopedTarget>, at: usize) -> (list: Vec<ScopedTarget>)
    requires
        at <= tabs@.len(),
    ensures
        list@ == rotated(tabs@, at as int),
{
    let mut list: Vec<ScopedTarget> = Vec::new();
    let mut from: usize = at;
    while from < tabs.len()
        invariant
            at <= from <= tabs@.len(),
            list@ == tabs@.subrange(at as int, from as int),
        decreases tabs@.len() - from,
    {
        list.push(tabs[from].clone());
        from = from + 1;
    }
    let mut from: usize = 0;
    while from < at
        invariant
            from <= at <= tabs@.len(),
            list@ == tabs@.skip(at as int) + tabs@.take(from as int),
        decreases at - from,
    {
        list.push(tabs[from].clone());
        from = from + 1;
    }
    list
}

proof fn lemma_columns(app: App, tabs: Seq<ScopedTarget>, area: Rect, at: int)
    ensures
        column(app, tabs, area, at) >= area.x,
    decreases at,
{
    if at > 0 {
        lemma_columns(app, tabs, area, at - 1);
    }
}

/// The row of the tabs: the first row of the pane.
pub open spec fn tabs_row(area: Rect) -> Rect {
    rect(area.x, area.y, area.width, 1)
}

/// The line below the tabs.
pub open spec fn title_row(area: Rect) -> Rect {
    rect(plus(area.x, 1), plus(area.y, 1), minus(area.width, 2), 1)
}

/// The pane below its title.
pub open spec fn below_title(area: Rect) -> Rect {
    rect(area.x, plus(area.y, 1), area.width, minus(area.height, 1))
}

impl App {
    /// The tabs in the order in which they are drawn: from the one that is shown on, where there is
    /// no room for it behind those before it.
    pub open spec fn ordered_tabs(self, area: Rect) -> Seq<ScopedTarget> {
        match self.active_target {
            Some(active) => {
                let at = position(self.tabs@, tab_with(active.key@), 0);
                if at < self.tabs@.len() && wanted_widths(self, self.tabs@.take(at + 1)) > minus(
                    area.width,
                    5,
                ) {
                    rotated(self.tabs@, at)
                } else {
                    self.tabs@
                }
            },
            None => self.tabs@,
        }
    }

    /// The number of tabs that there is room for.
    pub open spec fn shown_tabs(self, area: Rect) -> int {
        shown_count(self, self.ordered_tabs(area), area, 0)
    }

    /// The keys of the tabs that there is no room for.
    pub open spec fn hidden_keys(self, area: Rect) -> Seq<SessionKey> {
        keys_of(self.ordered_tabs(area).skip(self.shown_tabs(area)))
    }

    /// The place of the sign for more tabs.
    pub open spec fn more_tabs_place(self, area: Rect) -> Option<Rect> {
        more_place(
            area,
            column(self, self.ordered_tabs(area), area, self.shown_tabs(area)),
            self.hidden_keys(area).len(),
        )
    }

    /// The places at which tabs are chosen.
    pub open spec fn tab_places(self, area: Rect) -> Seq<(Rect, SessionKey)> {
        let tabs = self.ordered_tabs(area);
        Seq::new(self.shown_tabs(area) as nat, |at: int| choose_place(self, tabs, area, at))
    }

    /// The places at which tabs are closed.
    pub open spec fn tab_close_places(self, area: Rect) -> Seq<(Rect, SessionKey)> {
        let tabs = self.ordered_tabs(area);
        Seq::new(self.shown_tabs(area) as nat, |at: int| close_place(self, tabs, area, at))
    }

    /// The tabs as they are drawn.
    pub open spec fn strip_drawn(self, area: Rect) -> Seq<PaintView> {
        let tabs = tabs_drawn(self, self.ordered_tabs(area), area, self.shown_tabs(area));
        match self.more_tabs_place(area) {
            Some(place) => tabs.push(
                text_in(
                    place,
                    bare_lines(more_label(self.hidden_keys(area).len())),
                    Look::ink(AMBER),
                ),
            ),
            None => tabs,
        }
    }

    fn count_widths(&self, until: usize, limit: u16) -> (more: bool)
        requires
            until < self.tabs@.len(),
        ensures
            more == (wanted_widths(*self, self.tabs@.take(until + 1)) > limit),
    {
        let all: usize = self.tabs.len();
        assert(until < all);
        let count: usize = until + 1;
        let mut total: u32 = 0;
        let mut at: usize = 0;
        while at < count
            invariant
                at <= count <= self.tabs@.len(),
                total <= 70_000,
                total == 70_000 ==> wanted_widths(*self, self.tabs@.take(at as int)) >= 70_000,
                total < 70_000 ==> total == wanted_widths(*self, self.tabs@.take(at as int)),
            decreases count - at,
        {
            let ghost now = self.tabs@.take(at + 1);
            assert(now.drop_last() =~= self.tabs@.take(at as int));
            assert(now.last() == self.tabs@[at as int]);
            let length: usize = self.tab_label(&self.tabs[at]).as_str().unicode_len();
            total = if length > 70_000 || total + length as u32 + 4 > 70_000 {
                70_000
            } else {
                total + length as u32 + 4
            };
            at = at + 1;
        }
        total > limit as u32
    }

    fn order_tabs(&self, area: Rect) -> (tabs: Vec<ScopedTarget>)
        ensures
            tabs@ == self.ordered_tabs(area),
    {
        if let Some(active) = &self.active_target {
            if let Some(at) = find_tab(&self.tabs, &active.key) {
                if self.count_widths(at, difference(area.width, 5)) {
                    return rotate(&self.tabs, at);
                }
            }
        }
        let tabs = rotate(&self.tabs, 0);
        assert(tabs@ =~= self.tabs@);
        tabs
    }

    fn find_width(&self, tab: &ScopedTarget, area: Rect, x: u16) -> (width: u16)
        requires
            area.x <= x,
        ensures
            width == width_at(*self, *tab, area, x),
    {
        let room: u16 = difference(difference(area.width, x - area.x), 4);
        let length: usize = self.tab_label(tab).as_str().unicode_len();
        if (length as u128) + 4 < room as u128 {
            (length + 4) as u16
        } else {
            room
        }
    }

    fn draw_tab(&self, tab: &ScopedTarget, area: Rect, x: u16, width: u16) -> (paints: Vec<Paint>)
        ensures
            ({
                let place = rect(x, area.y, width, 1);
                let label = " "@ + self.short_tab_name(tab@, minus(width, 3) as nat) + " "@;
                let ink = if self.shows(tab.key@) {
                    AMBER
                } else {
                    MUTED
                };
                paint_views(paints@) == seq![
                    text_in(place, bare_lines(label), Look::ink(ink)),
                    text_in(
                        rect(minus(place.end_x(), 2), place.y, 2, 1),
                        bare_lines("×"@),
                        Look::ink(MUTED),
                    ),
                ]
            }),
    {
        let place = Rect::new(x, area.y, width, 1);
        let close = Rect::new(difference(place.right(), 2), place.y, 2, 1);
        let shown: bool = match &self.active_target {
            Some(active) => active.key == tab.key,
            None => false,
        };
        let name = self.tab_label_for_width(tab, difference(width, 3) as usize);
        let label = concat3(" ", &name, " ");
        let ink: u32 = if shown {
            AMBER
        } else {
            MUTED
        };
        let mut paints: Vec<Paint> = Vec::new();
        push_paint(&mut paints, new_text(place, to_bare_lines(&label), Look::new_ink(ink)));
        push_paint(&mut paints, new_text(close, to_bare_lines("×"), Look::new_ink(MUTED)));
        assert(paint_views(paints@) =~= seq![
            text_in(place, bare_lines(label@), Look::ink(ink)),
            text_in(close, bare_lines("×"@), Look::ink(MUTED)),
        ]);
        paints
    }

    /// Draws the tabs.
    pub fn draw_strip(&self, area: Rect) -> (strip: Strip)
        ensures
            paint_views(strip.paints@) == self.strip_drawn(area),
            strip.places@ == self.tab_places(area),
            strip.closes@ == self.tab_close_places(area),
            strip.hidden@ == self.hidden_keys(area),
            strip.more == self.more_tabs_place(area),
    {
        let tabs = self.order_tabs(area);
        let mut paints: Vec<Paint> = Vec::new();
        let mut places: Vec<(Rect, SessionKey)> = Vec::new();
        let mut closes: Vec<(Rect, SessionKey)> = Vec::new();
        let mut x: u16 = sum(area.x, 1);
        let mut at: usize = 0;
        assert(paint_views(paints@) =~= tabs_drawn(*self, tabs@, area, 0));
        while at < tabs.len()
            invariant_except_break
                shown_count(*self, tabs@, area, at as int) == self.shown_tabs(area),
            invariant
                at <= tabs@.len(),
                tabs@ == self.ordered_tabs(area),
                x == column(*self, tabs@, area, at as int),
                places@ == Seq::new(at as nat, |i: int| choose_place(*self, tabs@, area, i)),
                closes@ == Seq::new(at as nat, |i: int| close_place(*self, tabs@, area, i)),
                paint_views(paints@) == tabs_drawn(*self, tabs@, area, at as int),
            ensures
                at == self.shown_tabs(area),
            decreases tabs@.len() - at,
        {
            proof {
                lemma_columns(*self, tabs@, area, at as int);
            }
            let width: u16 = self.find_width(&tabs[at], area, x);
            if width < 8 {
                break;
            }
            let place = Rect::new(x, area.y, width, 1);
            let choose = Rect::new(place.x, place.y, difference(place.width, 2), 1);
            let close = Rect::new(difference(place.right(), 2), place.y, 2, 1);
            places.push((choose, tabs[at].key.clone()));
            closes.push((close, tabs[at].key.clone()));
            assert(places@ =~= Seq::new(
                (at + 1) as nat,
                |i: int| choose_place(*self, tabs@, area, i),
            ));
            assert(closes@ =~= Seq::new(
                (at + 1) as nat,
                |i: int| close_place(*self, tabs@, area, i),
            ));
            let drawn = self.draw_tab(&tabs[at], area, x, width);
            append_paints(&mut paints, drawn);
            x = sum(x, width);
            at = at + 1;
        }
        let hidden = copy_keys(&tabs, at);
        assert(hidden@.len() == tabs@.len() - at);
        let count: usize = hidden.len();
        let label = concat3(" +", &decimal(count as u64), " ");
        let room: u16 = difference(area.right(), x);
        let length: usize = label.as_str().unicode_len();
        let width: u16 = if length < room as usize {
            length as u16
        } else {
            room
        };
        let mut more: Option<Rect> = None;
        if count > 0 && width > 0 {
            let place = Rect::new(x, area.y, width, 1);
            more = Some(place);
            push_paint(&mut paints, new_text(place, to_bare_lines(&label), Look::new_ink(AMBER)));
        }
        Strip { paints, places, closes, hidden, more }
    }

    /// Draws the list of more tabs.
    pub fn draw_menu(&self, tabs: &Vec<ScopedTarget>, area: Rect) -> (menu: Menu)
        ensures
            menu.cursor == menu_cursor(self.tab_overflow_cursor, tabs@.len()),
            paint_views(menu.paints@) == menu_drawn(*self, tabs@, area, menu.cursor),
            menu.places@ == menu_places(tabs@, area, menu.cursor),
    {
        let last: usize = if tabs.len() == 0 {
            0
        } else {
            tabs.len() - 1
        };
        let cursor: usize = if self.tab_overflow_cursor < last {
            self.tab_overflow_cursor
        } else {
            last
        };
        let all: u16 = if tabs.len() > 65535 {
            u16::MAX
        } else {
            tabs.len() as u16
        };
        let height: u16 = smaller(smaller(all, difference(area.height, 3)), 6);
        let above: usize = difference(height, 1) as usize;
        let start: usize = if cursor <= above {
            0
        } else {
            cursor - above
        };
        let place = Rect::new(
            sum(area.x, 2),
            sum(area.y, 1),
            smaller(difference(area.width, 4), 38),
            sum(height, 2),
        );
        let left: usize = tabs.len() - start;
        let rows: u16 = if left < height as usize {
            left as u16
        } else {
            height
        };
        assert(rows == menu_rows(tabs@, area, cursor));
        let mut paints: Vec<Paint> = Vec::new();
        push_paint(&mut paints, Paint::Clear { area: place });
        push_paint(
            &mut paints,
            new_frame(place, Some(Caption::Tabs), AMBER, Look::new_plain()),
        );
        let ghost head = seq![
            PaintView::Clear { area: place },
            frame_around(place, Some(Caption::Tabs), AMBER, Look::plain()),
        ];
        assert(paint_views(paints@) =~= head + Seq::new(
            0,
            |i: int| menu_row_drawn(*self, tabs@, area, cursor, i),
        ));
        let mut places: Vec<(Rect, SessionKey)> = Vec::new();
        let mut row: u16 = 0;
        while row < rows
            invariant
                row <= rows <= 6,
                rows == menu_rows(tabs@, area, cursor),
                start == menu_start(cursor, menu_height(tabs@.len(), area)),
                start + rows <= tabs@.len(),
                place == menu_place(tabs@.len(), area),
                paint_views(paints@) == head + Seq::new(
                    row as nat,
                    |i: int| menu_row_drawn(*self, tabs@, area, cursor, i),
                ),
                places@ == Seq::new(
                    row as nat,
                    |i: int| (menu_row_place(place, i), menu_tab(tabs@, area, cursor, i).key),
                ),
            decreases rows - row,
        {
            let at: usize = start + row as usize;
            let spot = Rect::new(
                sum(place.x, 1),
                sum(place.y, 1 + row),
                difference(place.width, 2),
                1,
            );
            let ink: u32 = if at == cursor {
                AMBER
            } else {
                MUTED
            };
            let label = self.overflow_tab_label(&tabs[at]);
            places.push((spot, tabs[at].key.clone()));
            push_paint(&mut paints, new_text(spot, to_bare_lines(&label), Look::new_ink(ink)));
            assert(paint_views(paints@) =~= head + Seq::new(
                (row + 1) as nat,
                |i: int| menu_row_drawn(*self, tabs@, area, cursor, i),
            ));
            assert(places@ =~= Seq::new(
                (row + 1) as nat,
                |i: int| (menu_row_place(place, i), menu_tab(tabs@, area, cursor, i).key),
            ));
            row = row + 1;
        }
        assert(paint_views(paints@) =~= menu_drawn(*self, tabs@, area, cursor));
        assert(places@ =~= menu_places(tabs@, area, cursor));
        Menu { paints, places, cursor }
    }

    /// The pane with its tabs and its title as it is drawn, without the list of more tabs.
    pub open spec fn pane_drawn(self, area: Rect, pane_area: Rect) -> Seq<PaintView> {
        seq![
            frame_around(
                area,
                None,
                if self.nav_focused {
                    RULE
                } else {
                    AMBER
                },
                Look::plain(),
            ),
        ] + self.strip_drawn(tabs_row(area)) + seq![
            text_in(
                title_row(area),
                bare_lines(clipped(self.title(area.width), title_row(area).width as nat)),
                Look::ink(MUTED),
            ),
            PaintView::Pane { area: below_title(pane_area) },
        ]
    }

    /// Draws the pane with its tabs and its title.
    pub fn draw_pane(&self, area: Rect, pane_area: Rect) -> (strip: Strip)
        ensures
            paint_views(strip.paints@) == self.pane_drawn(area, pane_area),
            strip.places@ == self.tab_places(tabs_row(area)),
            strip.closes@ == self.tab_close_places(tabs_row(area)),
            strip.hidden@ == self.hidden_keys(tabs_row(area)),
            strip.more == self.more_tabs_place(tabs_row(area)),
    {
        let edge: u32 = if self.nav_focused {
            RULE
        } else {
            AMBER
        };
        let mut paints: Vec<Paint> = Vec::new();
        push_paint(&mut paints, new_frame(area, None, edge, Look::new_plain()));
        let strip = self.draw_strip(Rect::new(area.x, area.y, area.width, 1));
        append_paints(&mut paints, strip.paints);
        let row = Rect::new(sum(area.x, 1), sum(area.y, 1), difference(area.width, 2), 1);
        let title = clip_label(&self.pane_title(area.width), row.width as usize);
        push_paint(&mut paints, new_text(row, to_bare_lines(&title), Look::new_ink(MUTED)));
        let below = Rect::new(
            pane_area.x,
            sum(pane_area.y, 1),
            pane_area.width,
            difference(pane_area.height, 1),
        );
        push_paint(&mut paints, Paint::Pane { area: below });
        assert(paint_views(paints@) =~= self.pane_drawn(area, pane_area));
        Strip {
            paints,
            places: strip.places,
            closes: strip.closes,
            hidden: strip.hidden,
            more: strip.more,
        }
    }

    /// The tabs in the list of more tabs.
    pub open spec fn menu_tabs(self, hidden: Seq<SessionKey>) -> Seq<ScopedTarget> {
        self.tabs@.filter(listed_in(hidden))
    }

    /// The tabs in the list of more tabs.
    pub fn tabs_in_menu(&self, hidden: &Vec<SessionKey>) -> (tabs: Vec<ScopedTarget>)
        ensures
            tabs@ == self.menu_tabs(hidden@),
    {
        pick_tabs(&self.tabs, hidden)
    }

    /// The keys of all tabs.
    pub fn tab_keys(&self) -> (keys: Vec<SessionKey>)
        ensures
            keys@ == keys_of(self.tabs@),
    {
        let keys = copy_keys(&self.tabs, 0);
        assert(self.tabs@.skip(0) =~= self.tabs@);
        keys
    }
}

} // verus!
