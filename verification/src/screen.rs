//! Drawing the whole screen.

use ratatui::buffer::Buffer;
use ratatui_rmux::PaneState;
use vstd::prelude::*;

use crate::app::App;
use crate::canvas::{
    blank_cells, cells, paint_views, painted, pane_cells, Canvas, Look, Paint, PaintView, Sides,
    GROUND,
};
use crate::drawing::{append_paints, push_paint};
use crate::geometry::{difference, laid_out, screen_layout, sum, Rect, ScreenLayout};
use crate::hosts::SessionKey;
use crate::strip::{below_title, keys_of, menu_cursor, menu_drawn, menu_places, tabs_row};

verus! {

/// The body of the screen, drawn, and what it puts where.
pub struct Body {
    pub paints: Vec<Paint>,
    pub pane_area: Rect,
    pub places: Vec<(Rect, SessionKey)>,
    pub closes: Vec<(Rect, SessionKey)>,
    pub listed: Vec<(Rect, SessionKey)>,
    pub more: Option<Rect>,
    pub hidden: Vec<SessionKey>,
    pub cursor: usize,
}

/// What the body of the screen puts where.
#[verifier::ext_equal]
pub struct BodyView {
    pub paints: Seq<PaintView>,
    pub pane_area: Rect,
    pub places: Seq<(Rect, SessionKey)>,
    pub closes: Seq<(Rect, SessionKey)>,
    pub listed: Seq<(Rect, SessionKey)>,
    pub more: Option<Rect>,
    pub hidden: Seq<SessionKey>,
    pub cursor: usize,
}

impl View for Body {
    type V = BodyView;

    open spec fn view(&self) -> BodyView {
        BodyView {
            paints: paint_views(self.paints@),
            pane_area: self.pane_area,
            places: self.places@,
            closes: self.closes@,
            listed: self.listed@,
            more: self.more,
            hidden: self.hidden@,
            cursor: self.cursor,
        }
    }
}

fn copy_places(places: &Vec<(Rect, SessionKey)>) -> (copy: Vec<(Rect, SessionKey)>)
    ensures
        copy@ == places@,
{
    let mut copy: Vec<(Rect, SessionKey)> = Vec::new();
    let mut at: usize = 0;
    while at < places.len()
        invariant
            at <= places@.len(),
            copy@ == places@.take(at as int),
        decreases places@.len() - at,
    {
        copy.push((places[at].0, places[at].1.clone()));
        at = at + 1;
    }
    assert(places@.take(at as int) =~= places@);
    copy
}

fn copy_session_keys(keys: &Vec<SessionKey>) -> (copy: Vec<SessionKey>)
    ensures
        copy@ == keys@,
{
    let mut copy: Vec<SessionKey> = Vec::new();
    let mut at: usize = 0;
    while at < keys.len()
        invariant
            at <= keys@.len(),
            copy@ == keys@.take(at as int),
        decreases keys@.len() - at,
    {
        copy.push(keys[at].clone());
        at = at + 1;
    }
    assert(keys@.take(at as int) =~= keys@);
    copy
}

/// The ground of the screen.
pub open spec fn ground_drawn(screen: Rect) -> PaintView {
    PaintView::Frame {
        area: screen,
        sides: Sides::Nowhere,
        caption: None,
        edge: Look::plain(),
        ground: Look::ground(GROUND),
    }
}

fn draw_ground(screen: Rect) -> (paint: Paint)
    ensures
        paint@ == ground_drawn(screen),
{
    Paint::Frame {
        area: screen,
        sides: Sides::Nowhere,
        caption: None,
        edge: Look::new_plain(),
        ground: Look::new_ground(GROUND),
    }
}

impl App {
    /// The body where a saved conversation is shown. The tabs are not drawn; where there is no room
    /// for the pane, they have no places either.
    pub open spec fn archive_body(self, layout: ScreenLayout) -> BodyView {
        let bare = layout.pane.bare();
        BodyView {
            paints: self.transcript_drawn(layout),
            pane_area: layout.pane.inside(),
            places: if bare {
                seq![]
            } else {
                self.tab_hitboxes@
            },
            closes: if bare {
                seq![]
            } else {
                self.tab_close_hitboxes@
            },
            listed: if bare {
                seq![]
            } else {
                self.overflow_tab_hitboxes@
            },
            more: if bare {
                None
            } else {
                self.overflow_hitbox
            },
            hidden: if bare {
                seq![]
            } else {
                self.hidden_tab_ids@
            },
            cursor: self.tab_overflow_cursor,
        }
    }

    /// The body where the pane of a session is shown.
    pub open spec fn pane_body(self, layout: ScreenLayout) -> BodyView {
        let area = layout.pane;
        let inner = area.inside();
        let row = tabs_row(area);
        let hidden = self.hidden_keys(row);
        let listed = self.menu_tabs(hidden);
        let cursor = menu_cursor(self.tab_overflow_cursor, listed.len());
        let base = BodyView {
            paints: self.pane_drawn(area, inner),
            pane_area: below_title(inner),
            places: self.tab_places(row),
            closes: self.tab_close_places(row),
            listed: seq![],
            more: self.more_tabs_place(row),
            hidden,
            cursor: self.tab_overflow_cursor,
        };
        if self.tab_overflow_open {
            BodyView {
                paints: base.paints + menu_drawn(self, listed, area, cursor),
                listed: menu_places(listed, area, cursor),
                cursor,
                ..base
            }
        } else {
            base
        }
    }

    /// The body where there is only room for the spine. All tabs are hidden then, and the list of
    /// more tabs, where it is open, holds them all.
    pub open spec fn spine_body(self, layout: ScreenLayout) -> BodyView {
        let cursor = menu_cursor(self.tab_overflow_cursor, self.tabs@.len());
        let base = BodyView {
            paints: seq![],
            pane_area: layout.pane.inside(),
            places: seq![],
            closes: seq![],
            listed: seq![],
            more: None,
            hidden: seq![],
            cursor: self.tab_overflow_cursor,
        };
        if self.tab_overflow_open {
            BodyView {
                paints: menu_drawn(self, self.tabs@, layout.sidebar, cursor),
                listed: menu_places(self.tabs@, layout.sidebar, cursor),
                hidden: keys_of(self.tabs@),
                cursor,
                ..base
            }
        } else {
            base
        }
    }

    /// The body of the screen.
    pub open spec fn body(self, layout: ScreenLayout) -> BodyView {
        if self.reads_archive() {
            self.archive_body(layout)
        } else if !layout.pane.bare() {
            self.pane_body(layout)
        } else {
            self.spine_body(layout)
        }
    }

    fn draw_archive_body(&self, layout: &ScreenLayout) -> (body: Body)
        ensures
            body@ == self.archive_body(*layout),
    {
        let bare: bool = layout.pane.width == 0 || layout.pane.height == 0;
        let paints = self.draw_saved_transcript(layout);
        let pane_area = layout.pane.inner();
        let cursor: usize = self.tab_overflow_cursor;
        let body = if bare {
            Body {
                paints,
                pane_area,
                places: Vec::new(),
                closes: Vec::new(),
                listed: Vec::new(),
                more: None,
                hidden: Vec::new(),
                cursor,
            }
        } else {
            Body {
                paints,
                pane_area,
                places: copy_places(&self.tab_hitboxes),
                closes: copy_places(&self.tab_close_hitboxes),
                listed: copy_places(&self.overflow_tab_hitboxes),
                more: self.overflow_hitbox,
                hidden: copy_session_keys(&self.hidden_tab_ids),
                cursor,
            }
        };
        assert(body@ =~= self.archive_body(*layout));
        body
    }

    fn draw_pane_body(&self, layout: &ScreenLayout) -> (body: Body)
        ensures
            body@ == self.pane_body(*layout),
    {
        let inner = layout.pane.inner();
        let strip = self.draw_pane(layout.pane, inner);
        let pane_area = Rect::new(
            inner.x,
            sum(inner.y, 1),
            inner.width,
            difference(inner.height, 1),
        );
        let mut paints = strip.paints;
        let mut listed: Vec<(Rect, SessionKey)> = Vec::new();
        let mut cursor: usize = self.tab_overflow_cursor;
        if self.tab_overflow_open {
            let tabs = self.tabs_in_menu(&strip.hidden);
            let menu = self.draw_menu(&tabs, layout.pane);
            append_paints(&mut paints, menu.paints);
            listed = menu.places;
            cursor = menu.cursor;
        }
        let body = Body {
            paints,
            pane_area,
            places: strip.places,
            closes: strip.closes,
            listed,
            more: strip.more,
            hidden: strip.hidden,
            cursor,
        };
        assert(body@ =~= self.pane_body(*layout));
        body
    }

    fn draw_spine_body(&self, layout: &ScreenLayout) -> (body: Body)
        ensures
            body@ == self.spine_body(*layout),
    {
        let mut paints: Vec<Paint> = Vec::new();
        let mut listed: Vec<(Rect, SessionKey)> = Vec::new();
        let mut hidden: Vec<SessionKey> = Vec::new();
        let mut cursor: usize = self.tab_overflow_cursor;
        if self.tab_overflow_open {
            let menu = self.draw_menu(&self.tabs, layout.sidebar);
            hidden = self.tab_keys();
            paints = menu.paints;
            listed = menu.places;
            cursor = menu.cursor;
        }
        let body = Body {
            paints,
            pane_area: layout.pane.inner(),
            places: Vec::new(),
            closes: Vec::new(),
            listed,
            more: None,
            hidden,
            cursor,
        };
        assert(body@ =~= self.spine_body(*layout));
        body
    }

    fn draw_body(&self, layout: &ScreenLayout) -> (body: Body)
        ensures
            body@ == self.body(*layout),
    {
        if self.is_read_only_archive() {
            self.draw_archive_body(layout)
        } else if layout.pane.width > 0 && layout.pane.height > 0 {
            self.draw_pane_body(layout)
        } else {
            self.draw_spine_body(layout)
        }
    }

    /// What opens over everything else.
    pub open spec fn overlays_drawn(self, layout: ScreenLayout) -> Seq<PaintView> {
        (if self.picker {
            self.picker_drawn(layout)
        } else {
            seq![]
        }) + (if self.diagnostics_export_path is Some {
            self.diagnostics_drawn(layout.screen)
        } else {
            seq![]
        }) + (if self.help {
            self.help_drawn(layout)
        } else {
            seq![]
        })
    }

    fn draw_overlays(&self, layout: &ScreenLayout) -> (paints: Vec<Paint>)
        ensures
            paint_views(paints@) == self.overlays_drawn(*layout),
    {
        let mut paints: Vec<Paint> = Vec::new();
        if self.picker {
            append_paints(&mut paints, self.draw_picker(layout));
        }
        if self.diagnostics_export_path.is_some() {
            append_paints(&mut paints, self.draw_diagnostics_export(layout.screen));
        }
        if self.help {
            append_paints(&mut paints, self.draw_help(layout));
        }
        assert(paint_views(paints@) =~= self.overlays_drawn(*layout));
        paints
    }

    /// The steps in which the screen is drawn, from the ground up.
    pub open spec fn screen_drawn(self, layout: ScreenLayout) -> Seq<PaintView> {
        if self.copy_view {
            seq![ground_drawn(layout.screen), PaintView::Pane { area: layout.screen }]
        } else {
            seq![ground_drawn(layout.screen)] + self.header_drawn(layout.header)
                + self.spine_drawn(layout.sidebar) + self.body(layout).paints + seq![
                self.status_drawn(layout.status, layout.screen.width),
            ] + self.overlays_drawn(layout)
        }
    }

    /// What drawing the copy view leaves behind: the pane has the whole screen, and nothing but the
    /// pane has a place.
    pub open spec fn copied(self, after: App, screen: Rect) -> bool {
        (App { pane_area: screen, ..self }).cleared_places(after)
    }

    /// What drawing the screen leaves behind: the places of everything that can be chosen, as it was
    /// drawn.
    pub open spec fn shown_on(self, after: App, layout: ScreenLayout) -> bool {
        let body = self.body(layout);
        let rows = self.spine_places(layout.sidebar);
        &&& after.row_hitboxes@ == rows
        &&& after.tab_hitboxes@ == body.places
        &&& after.tab_close_hitboxes@ == body.closes
        &&& after.overflow_tab_hitboxes@ == body.listed
        &&& after.hidden_tab_ids@ == body.hidden
        &&& after == (App {
            sidebar_area: layout.sidebar,
            pane_area: body.pane_area,
            sidebar_scroll: self.spine_scroll(layout.sidebar),
            visible_selectable_rows: if rows.len() == 0 {
                1
            } else {
                rows.len() as usize
            },
            row_hitboxes: after.row_hitboxes,
            status_filter_hitbox: Some(self.filter_place(layout.sidebar)),
            tab_hitboxes: after.tab_hitboxes,
            tab_close_hitboxes: after.tab_close_hitboxes,
            overflow_tab_hitboxes: after.overflow_tab_hitboxes,
            overflow_hitbox: body.more,
            hidden_tab_ids: after.hidden_tab_ids,
            tab_overflow_cursor: body.cursor,
            ..self
        })
    }

    fn draw_copy_view(&mut self, screen: Rect) -> (paints: Vec<Paint>)
        ensures
            old(self).copied(*final(self), screen),
            paint_views(paints@) == seq![
                ground_drawn(screen),
                PaintView::Pane { area: screen },
            ],
    {
        let mut paints: Vec<Paint> = Vec::new();
        push_paint(&mut paints, draw_ground(screen));
        push_paint(&mut paints, Paint::Pane { area: screen });
        assert(paint_views(paints@) =~= seq![
            ground_drawn(screen),
            PaintView::Pane { area: screen },
        ]);
        self.clear_copy_view_hitboxes();
        self.pane_area = screen;
        paints
    }

    fn write_screen(
        &self,
        layout: &ScreenLayout,
        spine: Vec<Paint>,
        body: Vec<Paint>,
    ) -> (paints: Vec<Paint>)
        requires
            !self.copy_view,
            paint_views(spine@) == self.spine_drawn(layout.sidebar),
            paint_views(body@) == self.body(*layout).paints,
        ensures
            paint_views(paints@) == self.screen_drawn(*layout),
    {
        let mut paints: Vec<Paint> = Vec::new();
        push_paint(&mut paints, draw_ground(layout.screen));
        append_paints(&mut paints, self.draw_header(layout.header));
        append_paints(&mut paints, spine);
        append_paints(&mut paints, body);
        push_paint(&mut paints, self.draw_status(layout.status, layout.screen.width));
        append_paints(&mut paints, self.draw_overlays(layout));
        assert(paint_views(paints@) =~= self.screen_drawn(*layout));
        paints
    }

    fn keep_places(
        &mut self,
        sidebar: Rect,
        scroll: usize,
        rows: Vec<(Rect, usize)>,
        filter: Rect,
        body: Body,
    )
        ensures
            *final(self) == (App {
                sidebar_area: sidebar,
                pane_area: body.pane_area,
                sidebar_scroll: scroll,
                visible_selectable_rows: if rows@.len() == 0 {
                    1
                } else {
                    rows@.len() as usize
                },
                row_hitboxes: rows,
                status_filter_hitbox: Some(filter),
                tab_hitboxes: body.places,
                tab_close_hitboxes: body.closes,
                overflow_tab_hitboxes: body.listed,
                overflow_hitbox: body.more,
                hidden_tab_ids: body.hidden,
                tab_overflow_cursor: body.cursor,
                ..*old(self)
            }),
    {
        let visible: usize = if rows.len() == 0 {
            1
        } else {
            rows.len()
        };
        self.sidebar_area = sidebar;
        self.pane_area = body.pane_area;
        self.sidebar_scroll = scroll;
        self.visible_selectable_rows = visible;
        self.row_hitboxes = rows;
        self.status_filter_hitbox = Some(filter);
        self.tab_hitboxes = body.places;
        self.tab_close_hitboxes = body.closes;
        self.overflow_tab_hitboxes = body.listed;
        self.overflow_hitbox = body.more;
        self.hidden_tab_ids = body.hidden;
        self.tab_overflow_cursor = body.cursor;
    }

    fn draw_parts(&mut self, layout: &ScreenLayout) -> (paints: Vec<Paint>)
        requires
            !old(self).copy_view,
        ensures
            old(self).shown_on(*final(self), *layout),
            paint_views(paints@) == old(self).screen_drawn(*layout),
    {
        let spine = self.draw_spine(layout.sidebar);
        let mut body = self.draw_body(layout);
        let drawn = body.paints;
        body.paints = Vec::new();
        let paints = self.write_screen(layout, spine.paints, drawn);
        let inner = layout.sidebar.inner();
        let filter = Rect::new(inner.x, inner.y, inner.width, 1);
        self.keep_places(layout.sidebar, spine.scroll, spine.places, filter, body);
        paints
    }

    /// Draws the screen, split as the layout says, and keeps the places of what was drawn.
    pub fn draw(&mut self, layout: &ScreenLayout) -> (paints: Vec<Paint>)
        ensures
            paint_views(paints@) == old(self).screen_drawn(*layout),
            if old(self).copy_view {
                old(self).copied(*final(self), layout.screen)
            } else {
                old(self).shown_on(*final(self), *layout)
            },
    {
        if self.copy_view {
            self.draw_copy_view(layout.screen)
        } else {
            self.draw_parts(layout)
        }
    }

    /// Whether a screen was drawn as some split of it into parts says.
    pub open spec fn rendered(
        self,
        after: App,
        layout: ScreenLayout,
        canvas: Canvas,
        painted_canvas: Canvas,
        pane: PaneState,
    ) -> bool {
        &&& laid_out(layout, canvas.extent(), self.nav_focused)
        &&& painted_canvas.content() == painted(
            canvas.content(),
            canvas.extent(),
            self.screen_drawn(layout),
            pane_cells(pane),
        )
        &&& if self.copy_view {
            self.copied(after, layout.screen)
        } else {
            self.shown_on(after, layout)
        }
    }

    /// Draws the screen on a canvas. On a screen that has no room for all its parts, the solver for
    /// layouts says how the header and the status line share the rows that the body leaves them.
    pub fn render(&mut self, canvas: &mut Canvas, pane: &PaneState)
        requires
            old(canvas).wf(),
        ensures
            final(canvas).wf(),
            final(canvas).extent() == old(canvas).extent(),
            exists|layout: ScreenLayout| #[trigger]
                old(self).rendered(*final(self), layout, *old(canvas), *final(canvas), *pane),
    {
        let layout = screen_layout(canvas.area(), self.nav_focused);
        let paints = self.draw(&layout);
        canvas.paint(&paints, pane);
        assert(old(self).rendered(*self, layout, *old(canvas), *canvas, *pane));
    }
}

/// Draws the screen on a blank buffer.
pub fn render_buffer(app: &mut App, pane: &PaneState, area: Rect) -> (buffer: Buffer)
    ensures
        exists|layout: ScreenLayout|
            laid_out(layout, area, old(app).nav_focused) && cells(buffer) == #[trigger] painted(
                blank_cells(area),
                area,
                old(app).screen_drawn(layout),
                pane_cells(*pane),
            ) && if old(app).copy_view {
                old(app).copied(*final(app), area)
            } else {
                old(app).shown_on(*final(app), layout)
            },
{
    let mut canvas = Canvas::new(area);
    let ghost blank = canvas;
    app.render(&mut canvas, pane);
    proof {
        let layout = choose|layout: ScreenLayout| #[trigger]
            old(app).rendered(*app, layout, blank, canvas, *pane);
        assert(canvas.content() == painted(
            blank_cells(area),
            area,
            old(app).screen_drawn(layout),
            pane_cells(*pane),
        ));
    }
    canvas.into_buffer()
}

} // verus!
