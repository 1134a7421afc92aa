//! What is drawn on the screen, and drawing it.

use ratatui::buffer::Buffer;
use ratatui::layout::Rect as Area;
use ratatui::style::{Color, Modifier, Style};
use ratatui::widgets::{Block, Borders, Clear, Widget};
use ratatui_rmux::{PaneState, PaneWidget};
use vstd::prelude::*;
use vstd::string::*;

use crate::geometry::Rect;
use crate::sheet::{can_draw, draw_on, drawable, texted};

verus! {

/// The ground of the screen.
pub const GROUND: u32 = 0x111315;

/// Text that is to be read.
pub const TEXT: u32 = 0xECEEEB;

/// Text that stands back.
pub const MUTED: u32 = 0xA5ADB3;

/// Text that is to be noticed.
pub const AMBER: u32 = 0xE8B86D;

/// Rules between parts of the screen.
pub const RULE: u32 = 0x363B40;

/// The ground of a chosen row.
pub const SHADE: u32 = 0x30291E;

/// How text looks: its colours, as red, green and blue, and whether it is bold. What is left out
/// stays as it is.
#[derive(Clone, Copy, Debug, PartialEq, Eq, Structural)]
pub struct Look {
    pub fg: Option<u32>,
    pub bg: Option<u32>,
    pub bold: bool,
}

impl Look {
    /// The look that changes nothing.
    pub open spec fn plain() -> Look {
        Look { fg: None, bg: None, bold: false }
    }

    /// A look with a colour for text.
    pub open spec fn ink(colour: u32) -> Look {
        Look { fg: Some(colour), bg: None, bold: false }
    }

    /// A look with a colour for the ground.
    pub open spec fn ground(colour: u32) -> Look {
        Look { fg: None, bg: Some(colour), bold: false }
    }

    /// A look with a colour for text and one for the ground.
    pub open spec fn both(text: u32, ground: u32) -> Look {
        Look { fg: Some(text), bg: Some(ground), bold: false }
    }

    pub fn new_plain() -> (look: Look)
        ensures
            look == Look::plain(),
    {
        Look { fg: None, bg: None, bold: false }
    }

    pub fn new_ink(colour: u32) -> (look: Look)
        ensures
            look == Look::ink(colour),
    {
        Look { fg: Some(colour), bg: None, bold: false }
    }

    pub fn new_ground(colour: u32) -> (look: Look)
        ensures
            look == Look::ground(colour),
    {
        Look { fg: None, bg: Some(colour), bold: false }
    }

    pub fn new_both(text: u32, ground: u32) -> (look: Look)
        ensures
            look == Look::both(text, ground),
    {
        Look { fg: Some(text), bg: Some(ground), bold: false }
    }
}

/// A line of text: parts with a look each, on a line with a look of its own.
#[derive(Debug)]
pub struct TextLine {
    pub parts: Vec<(String, Look)>,
    pub look: Look,
}

/// What a line of text holds.
#[verifier::ext_equal]
pub struct TextLineView {
    pub parts: Seq<(Seq<char>, Look)>,
    pub look: Look,
}

impl View for TextLine {
    type V = TextLineView;

    open spec fn view(&self) -> TextLineView {
        TextLineView { parts: part_views(self.parts@), look: self.look }
    }
}

/// What the parts of a line hold.
pub open spec fn part_views(parts: Seq<(String, Look)>) -> Seq<(Seq<char>, Look)> {
    parts.map_values(|part: (String, Look)| (part.0@, part.1))
}

/// What the lines of a list hold.
pub open spec fn line_views(lines: Seq<TextLine>) -> Seq<TextLineView> {
    lines.map_values(|line: TextLine| line@)
}

/// The sides of a frame.
#[derive(Clone, Copy, Debug, PartialEq, Eq, Structural)]
pub enum Sides {
    Nowhere,
    Right,
    Bottom,
    All,
}

impl Sides {
    /// The number that stands for the sides: one for the top, two for the right, four for the bottom
    /// and eight for the left.
    pub open spec fn bits(self) -> u8 {
        match self {
            Sides::Nowhere => 0,
            Sides::Right => 2,
            Sides::Bottom => 4,
            Sides::All => 15,
        }
    }

    fn to_bits(self) -> (bits: u8)
        ensures
            bits == self.bits(),
    {
        match self {
            Sides::Nowhere => 0,
            Sides::Right => 2,
            Sides::Bottom => 4,
            Sides::All => 15,
        }
    }
}

/// What stands on a frame.
#[derive(Clone, Copy, Debug, PartialEq, Eq, Structural)]
pub enum Caption {
    Spine,
    SpineNavigation,
    Tabs,
    SavedOutput,
    Machines,
    Workspaces,
    RemoveMachine,
    Diagnostics,
    Help,
    HelpScrolled,
}

impl Caption {
    /// The words of a caption.
    pub open spec fn words(self) -> Seq<char> {
        match self {
            Caption::Spine => " SPINE "@,
            Caption::SpineNavigation => " SPINE · NAVIGATION "@,
            Caption::Tabs => " TABS "@,
            Caption::SavedOutput => " SAVED OUTPUT "@,
            Caption::Machines => " MACHINES "@,
            Caption::Workspaces => " OPEN PROJECT / WORKSPACES "@,
            Caption::RemoveMachine => " REMOVE MACHINE "@,
            Caption::Diagnostics => " DIAGNOSTICS EXPORT "@,
            Caption::Help => " HELP · ↓ scroll "@,
            Caption::HelpScrolled => " HELP · ↑↓ scroll "@,
        }
    }

    fn to_words(self) -> (words: &'static str)
        ensures
            words@ == self.words(),
            words@.len() <= 40,
    {
        proof {
            reveal_strlit(" SPINE ");
            reveal_strlit(" SPINE · NAVIGATION ");
            reveal_strlit(" TABS ");
            reveal_strlit(" SAVED OUTPUT ");
            reveal_strlit(" MACHINES ");
            reveal_strlit(" OPEN PROJECT / WORKSPACES ");
            reveal_strlit(" REMOVE MACHINE ");
            reveal_strlit(" DIAGNOSTICS EXPORT ");
            reveal_strlit(" HELP · ↓ scroll ");
            reveal_strlit(" HELP · ↑↓ scroll ");
        }
        match self {
            Caption::Spine => " SPINE ",
            Caption::SpineNavigation => " SPINE · NAVIGATION ",
            Caption::Tabs => " TABS ",
            Caption::SavedOutput => " SAVED OUTPUT ",
            Caption::Machines => " MACHINES ",
            Caption::Workspaces => " OPEN PROJECT / WORKSPACES ",
            Caption::RemoveMachine => " REMOVE MACHINE ",
            Caption::Diagnostics => " DIAGNOSTICS EXPORT ",
            Caption::Help => " HELP · ↓ scroll ",
            Caption::HelpScrolled => " HELP · ↑↓ scroll ",
        }
    }
}

/// One step in drawing the screen. Later steps are drawn over earlier ones.
#[derive(Debug)]
pub enum Paint {
    /// A frame around an area, and the look of the area.
    Frame { area: Rect, sides: Sides, caption: Option<Caption>, edge: Look, ground: Look },
    /// Lines of text, from an offset on; where they are wrapped, at the width of the area.
    Text { area: Rect, lines: Vec<TextLine>, ground: Look, wrap: bool, scroll: u16 },
    /// Nothing at all.
    Clear { area: Rect },
    /// The pane of the session that is shown.
    Pane { area: Rect },
}

/// What one step in drawing the screen holds.
#[verifier::ext_equal]
pub enum PaintView {
    Frame { area: Rect, sides: Sides, caption: Option<Caption>, edge: Look, ground: Look },
    Text { area: Rect, lines: Seq<TextLineView>, ground: Look, wrap: bool, scroll: u16 },
    Clear { area: Rect },
    Pane { area: Rect },
}

impl View for Paint {
    type V = PaintView;

    open spec fn view(&self) -> PaintView {
        match *self {
            Paint::Frame { area, sides, caption, edge, ground } => PaintView::Frame {
                area,
                sides,
                caption,
                edge,
                ground,
            },
            Paint::Text { area, lines, ground, wrap, scroll } => PaintView::Text {
                area,
                lines: line_views(lines@),
                ground,
                wrap,
                scroll,
            },
            Paint::Clear { area } => PaintView::Clear { area },
            Paint::Pane { area } => PaintView::Pane { area },
        }
    }
}

/// What the steps of a list hold.
pub open spec fn paint_views(list: Seq<Paint>) -> Seq<PaintView> {
    list.map_values(|step: Paint| step@)
}

/// `ratatui::buffer::Buffer`: a grid of cells.
#[verifier::external_type_specification]
#[verifier::external_body]
pub struct ExBuffer(Buffer);

/// `ratatui_rmux::PaneState`: what a pane held when it was last looked at.
#[verifier::external_type_specification]
#[verifier::external_body]
pub struct ExPaneState(PaneState);

/// A colour of a cell.
pub enum ColourView {
    Unset,
    Rgb(u8, u8, u8),
    Other(int),
}

/// A cell of the screen: the symbol in it and its look.
#[verifier::ext_equal]
pub struct CellView {
    pub symbol: Seq<char>,
    pub fg: ColourView,
    pub bg: ColourView,
    pub modifiers: u16,
    pub skip: bool,
}

/// The cells of a buffer, under the columns and rows of their places.
pub uninterp spec fn cells(buffer: Buffer) -> Map<(u16, u16), CellView>;

/// The area that a buffer was made for.
pub uninterp spec fn canvas_area(buffer: Buffer) -> Rect;

/// What a pane holds: an encoding of the whole of its snapshot.
pub uninterp spec fn pane_cells(pane: PaneState) -> Seq<Seq<char>>;

/// The cells after `Block::render`.
pub uninterp spec fn block_drawn(
    before: Map<(u16, u16), CellView>,
    area: Rect,
    sides: u8,
    caption: Option<Seq<char>>,
    edge: Look,
    ground: Look,
) -> Map<(u16, u16), CellView>;

/// The cells after `Paragraph::render`.
pub uninterp spec fn text_drawn(
    before: Map<(u16, u16), CellView>,
    area: Rect,
    lines: Seq<TextLineView>,
    ground: Look,
    wrap: bool,
    scroll: u16,
) -> Map<(u16, u16), CellView>;

/// The cells after `PaneWidget::render`.
pub uninterp spec fn pane_drawn(
    before: Map<(u16, u16), CellView>,
    area: Rect,
    pane: Seq<Seq<char>>,
) -> Map<(u16, u16), CellView>;

/// A cell with nothing in it.
pub open spec fn blank_cell() -> CellView {
    CellView {
        symbol: " "@,
        fg: ColourView::Unset,
        bg: ColourView::Unset,
        modifiers: 0,
        skip: false,
    }
}

/// Cells with nothing in them, all over an area.
pub open spec fn blank_cells(area: Rect) -> Map<(u16, u16), CellView> {
    Map::new(|place: (u16, u16)| area.holds(place), |place: (u16, u16)| blank_cell())
}

/// Cells with nothing in them in an area.
pub open spec fn cleared(before: Map<(u16, u16), CellView>, area: Rect) -> Map<
    (u16, u16),
    CellView,
> {
    Map::new(
        |place: (u16, u16)| before.contains_key(place),
        |place: (u16, u16)|
            if area.holds(place) {
                blank_cell()
            } else {
                before[place]
            },
    )
}

/// `Buffer::empty`: a buffer of blank cells. A cell of it holds a space, in the colours of the
/// terminal, without modifiers.
#[verifier::external_body]
pub(crate) fn new_buffer(area: Rect) -> (buffer: Buffer)
    ensures
        canvas_area(buffer) == area,
        cells(buffer) == blank_cells(area),
{
    Buffer::empty(Area { x: area.x, y: area.y, width: area.width, height: area.height })
}

/// `Block::render`, of a block with a border on some sides, a title, and a style. It draws on the
/// part of the area that lies on the buffer, and nowhere else. How a frame looks cell by cell is not
/// written out.
#[verifier::external_body]
fn draw_block(
    buffer: &mut Buffer,
    area: Rect,
    sides: u8,
    caption: Option<&str>,
    edge: Look,
    ground: Look,
)
    requires
        blank_cells(canvas_area(*old(buffer))).dom() == cells(*old(buffer)).dom(),
        caption is Some ==> caption->0@.len() <= 40,
    ensures
        canvas_area(*final(buffer)) == canvas_area(*old(buffer)),
        cells(*final(buffer)).dom() == cells(*old(buffer)).dom(),
        cells(*final(buffer)) == block_drawn(
            cells(*old(buffer)),
            area,
            sides,
            match caption {
                Some(caption) => Some(caption@),
                None => None,
            },
            edge,
            ground,
        ),
{
    let style = |look: Look| Style {
        fg: look.fg.map(Color::from_u32),
        bg: look.bg.map(Color::from_u32),
        add_modifier: Modifier::from_bits_truncate(look.bold.into()),
        ..Style::default()
    };
    let block = Block::new().borders(Borders::from_bits_truncate(sides));
    let block = block.border_style(style(edge)).style(style(ground));
    let block = match caption {
        Some(caption) => block.title(caption),
        None => block,
    };
    block.render(Area { x: area.x, y: area.y, width: area.width, height: area.height }, buffer)
}

/// `Clear::render`, on the part of the area that lies on the buffer: there, every cell becomes blank.
#[verifier::external_body]
fn draw_nothing(buffer: &mut Buffer, area: Rect)
    requires
        blank_cells(canvas_area(*old(buffer))).dom() == cells(*old(buffer)).dom(),
    ensures
        canvas_area(*final(buffer)) == canvas_area(*old(buffer)),
        cells(*final(buffer)) == cleared(cells(*old(buffer)), area),
{
    let area = Area { x: area.x, y: area.y, width: area.width, height: area.height };
    Clear.render(area.intersection(buffer.area), buffer)
}

/// `PaneWidget::render`: the cells of the pane, as many of them as the area and the buffer have room
/// for. How they are drawn is not written out.
#[verifier::external_body]
fn draw_pane(buffer: &mut Buffer, area: Rect, pane: &PaneState)
    requires
        blank_cells(canvas_area(*old(buffer))).dom() == cells(*old(buffer)).dom(),
    ensures
        canvas_area(*final(buffer)) == canvas_area(*old(buffer)),
        cells(*final(buffer)).dom() == cells(*old(buffer)).dom(),
        cells(*final(buffer)) == pane_drawn(cells(*old(buffer)), area, pane_cells(*pane)),
{
    let area = Area { x: area.x, y: area.y, width: area.width, height: area.height };
    PaneWidget::new(pane).render(area, buffer)
}

/// What one step makes of the cells. A text whose area does not lie on the canvas is left out.
pub open spec fn stepped(
    before: Map<(u16, u16), CellView>,
    canvas: Rect,
    step: PaintView,
    pane: Seq<Seq<char>>,
) -> Map<(u16, u16), CellView> {
    match step {
        PaintView::Frame { area, sides, caption, edge, ground } => block_drawn(
            before,
            area,
            sides.bits(),
            match caption {
                Some(caption) => Some(caption.words()),
                None => None,
            },
            edge,
            ground,
        ),
        PaintView::Text { area, lines, ground, wrap, scroll } => if drawable(
            canvas,
            area,
            wrap,
            scroll,
        ) {
            texted(before, canvas, area, lines, ground, wrap, scroll)
        } else {
            before
        },
        PaintView::Clear { area } => cleared(before, area),
        PaintView::Pane { area } => pane_drawn(before, area, pane),
    }
}

/// What the steps of a list make of the cells, one after the other.
pub open spec fn painted(
    before: Map<(u16, u16), CellView>,
    canvas: Rect,
    list: Seq<PaintView>,
    pane: Seq<Seq<char>>,
) -> Map<(u16, u16), CellView>
    decreases list.len(),
{
    if list.len() == 0 {
        before
    } else {
        stepped(painted(before, canvas, list.drop_last(), pane), canvas, list.last(), pane)
    }
}

/// A screen that is being drawn.
pub struct Canvas {
    buffer: Buffer,
    area: Rect,
}

impl Canvas {
    /// Every place of the area has a cell, and no other place has.
    pub closed spec fn wf(self) -> bool {
        &&& canvas_area(self.buffer) == self.area
        &&& cells(self.buffer).dom() == blank_cells(self.area).dom()
    }

    /// The area of the screen.
    pub closed spec fn extent(self) -> Rect {
        self.area
    }

    /// The cells of the screen.
    pub closed spec fn content(self) -> Map<(u16, u16), CellView> {
        cells(self.buffer)
    }

    /// A blank screen.
    pub fn new(area: Rect) -> (canvas: Canvas)
        ensures
            canvas.wf(),
            canvas.extent() == area,
            canvas.content() == blank_cells(area),
    {
        Canvas { buffer: new_buffer(area), area }
    }

    /// The area of the screen.
    pub fn area(&self) -> (area: Rect)
        ensures
            area == self.extent(),
    {
        self.area
    }

    /// The buffer with the cells of the screen.
    pub fn into_buffer(self) -> (buffer: Buffer)
        ensures
            cells(buffer) == self.content(),
    {
        self.buffer
    }

    fn draw(&mut self, step: &Paint, pane: &PaneState)
        requires
            old(self).wf(),
        ensures
            final(self).wf(),
            final(self).extent() == old(self).extent(),
            final(self).content() == stepped(
                old(self).content(),
                old(self).extent(),
                step@,
                pane_cells(*pane),
            ),
    {
        match step {
            Paint::Frame { area, sides, caption, edge, ground } => {
                let words: Option<&str> = match caption {
                    Some(caption) => Some(caption.to_words()),
                    None => None,
                };
                draw_block(&mut self.buffer, *area, sides.to_bits(), words, *edge, *ground);
            },
            Paint::Text { area, lines, ground, wrap, scroll } => {
                if can_draw(self.area, *area, *wrap, *scroll) {
                    draw_on(&mut self.buffer, self.area, *area, lines, *ground, *wrap, *scroll);
                }
            },
            Paint::Clear { area } => {
                draw_nothing(&mut self.buffer, *area);
                assert(cells(self.buffer).dom() =~= blank_cells(self.area).dom());
            },
            Paint::Pane { area } => draw_pane(&mut self.buffer, *area, pane),
        }
    }

    /// Draws the steps of a list, one after the other.
    pub fn paint(&mut self, list: &Vec<Paint>, pane: &PaneState)
        requires
            old(self).wf(),
        ensures
            final(self).wf(),
            final(self).extent() == old(self).extent(),
            final(self).content() == painted(
                old(self).content(),
                old(self).extent(),
                paint_views(list@),
                pane_cells(*pane),
            ),
    {
        let ghost steps = paint_views(list@);
        let ghost before = *old(self);
        assert(steps.len() == list@.len());
        let mut at: usize = 0;
        while at < list.len()
            invariant
                at <= list@.len(),
                steps == paint_views(list@),
                steps.len() == list@.len(),
                self.wf(),
                self.extent() == before.extent(),
                self.content() == painted(
                    before.content(),
                    before.extent(),
                    steps.take(at as int),
                    pane_cells(*pane),
                ),
            decreases list@.len() - at,
        {
            let ghost now = steps.take(at + 1);
            assert(now.drop_last() =~= steps.take(at as int));
            assert(now.last() == list@[at as int]@);
            self.draw(&list[at], pane);
            at = at + 1;
        }
        assert(steps.take(at as int) =~= steps);
    }
}

} // verus!
