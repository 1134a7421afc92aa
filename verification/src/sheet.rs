//! Drawing text on a sheet of its own, which is then laid on the screen.
//!
//! The lines of a wrapped text can reach beyond its area: by up to the width of the widest cluster of
//! characters in it. So a text is drawn on a sheet with room for that, and of the sheet as much is
//! laid on the screen as the screen has room for.

use ratatui::buffer::Buffer;
use ratatui::layout::Rect as Area;
use ratatui::style::{Color, Modifier, Style};
use ratatui::text::{Line, Span, Text};
use ratatui::widgets::{Paragraph, Widget, Wrap};
use vstd::prelude::*;
use vstd::string::*;

use crate::canvas::{
    blank_cells, canvas_area, cells, line_views, part_views, text_drawn, CellView, Look, TextLine,
    TextLineView,
};
use crate::geometry::{rect, sum, Rect};

verus! {

/// The most columns that one character takes.
pub const WIDEST: u32 = 3;

/// The most characters that a part of a line is drawn with at once.
pub const LONGEST: u32 = 20_000;

/// The width of the widest cluster that is drawn in an area: a wider one is passed over. No part has
/// more characters than the limit.
pub open spec fn reach(width: u16, limit: u32) -> int {
    if width <= WIDEST * limit {
        width as int
    } else {
        WIDEST * limit
    }
}

/// Whether no part of a line has more characters than the limit.
pub open spec fn line_within(line: TextLineView, limit: u32) -> bool {
    forall|i: int| 0 <= i < line.parts.len() ==> (#[trigger] line.parts[i]).0.len() <= limit
}

/// Whether no part of the lines has more characters than the limit.
pub open spec fn within(lines: Seq<TextLineView>, limit: u32) -> bool {
    forall|i: int| 0 <= i < lines.len() ==> line_within(#[trigger] lines[i], limit)
}

/// Whether the numbers that a text in an area is laid out with stay small: those of the columns, as
/// far as the clusters reach, and those of the rows, with the offset.
pub open spec fn countable(area: Rect, limit: u32, wrap: bool, scroll: u16) -> bool {
    &&& WIDEST * limit <= u16::MAX
    &&& area.width + (if wrap {
        3 * reach(area.width, limit)
    } else {
        reach(area.width, limit)
    }) <= u16::MAX
    &&& area.y + area.height + scroll <= u16::MAX
}

/// Whether a text in an area stays on a sheet.
pub open spec fn stays_on(sheet: Rect, area: Rect, limit: u32, wrap: bool) -> bool {
    &&& sheet.x <= area.x
    &&& sheet.y <= area.y
    &&& area.x + area.width + (if wrap {
        reach(area.width, limit)
    } else {
        0
    }) <= sheet.end_x()
    &&& area.y + area.height <= sheet.end_y()
}

/// `Paragraph::render`, of a paragraph without a block. The parts of its lines are cut into clusters
/// of characters, each at most as wide as three times its characters. A line that is not wrapped is
/// cut off at the area. A wrapped one can end with a cluster that starts right of the area, by less
/// than the width of the widest cluster. How the text is laid out cell by cell is not written out.
#[verifier::external_body]
fn draw_text(
    buffer: &mut Buffer,
    area: Rect,
    lines: &Vec<TextLine>,
    ground: Look,
    wrap: bool,
    scroll: u16,
)
    requires
        blank_cells(canvas_area(*old(buffer))).dom() == cells(*old(buffer)).dom(),
        within(line_views(lines@), part_limit(area.width, wrap)),
        countable(area, part_limit(area.width, wrap), wrap, scroll),
        stays_on(canvas_area(*old(buffer)), area, part_limit(area.width, wrap), wrap),
    ensures
        canvas_area(*final(buffer)) == canvas_area(*old(buffer)),
        cells(*final(buffer)).dom() == cells(*old(buffer)).dom(),
        cells(*final(buffer)) == text_drawn(
            cells(*old(buffer)),
            area,
            line_views(lines@),
            ground,
            wrap,
            scroll,
        ),
{
    let style = |look: Look| Style {
        fg: look.fg.map(Color::from_u32),
        bg: look.bg.map(Color::from_u32),
        add_modifier: Modifier::from_bits_truncate(look.bold.into()),
        ..Style::new()
    };
    let text = Paragraph::new(Text::from_iter(lines.iter().map(|line| {
        Line::from_iter(line.parts.iter().map(|(text, look)| Span::styled(text, style(*look))))
            .style(style(line.look))
    }))).style(style(ground)).scroll((scroll, 0));
    let text = if wrap { text.wrap(Wrap { trim: false }) } else { text };
    text.render(Area::new(area.x, area.y, area.width, area.height), buffer)
}

/// A cell of a `Buffer` read by its place, cloned, and assigned to a cell of another by its place.
/// Both have such a place; at another one, indexing would panic.
#[verifier::external_body]
fn copy_cell(to: &mut Buffer, place: (u16, u16), from: &Buffer, source: (u16, u16))
    requires
        blank_cells(canvas_area(*old(to))).dom() == cells(*old(to)).dom(),
        blank_cells(canvas_area(*from)).dom() == cells(*from).dom(),
        cells(*old(to)).contains_key(place),
        cells(*from).contains_key(source),
    ensures
        canvas_area(*final(to)) == canvas_area(*old(to)),
        cells(*final(to)) == cells(*old(to)).insert(place, cells(*from)[source]),
{
    to[place] = from[source].clone()
}

/// A place, as far from one corner as another place is from another corner.
pub open spec fn shifted(place: (u16, u16), from: (u16, u16), to: (u16, u16)) -> (u16, u16) {
    ((place.0 - from.0 + to.0) as u16, (place.1 - from.1 + to.1) as u16)
}

/// Whether a place is in the rectangle of a size at a corner.
pub open spec fn covered(place: (u16, u16), corner: (u16, u16), size: (u16, u16)) -> bool {
    corner.0 <= place.0 < corner.0 + size.0 && corner.1 <= place.1 < corner.1 + size.1
}

/// Cells over which a rectangle of others was laid.
pub open spec fn overlaid(
    before: Map<(u16, u16), CellView>,
    corner: (u16, u16),
    other: Map<(u16, u16), CellView>,
    source: (u16, u16),
    size: (u16, u16),
) -> Map<(u16, u16), CellView> {
    Map::new(
        |place: (u16, u16)| before.contains_key(place),
        |place: (u16, u16)|
            if covered(place, corner, size) {
                other[shifted(place, corner, source)]
            } else {
                before[place]
            },
    )
}

/// Whether a rectangle of a size at a corner lies on an area.
pub open spec fn on(area: Rect, corner: (u16, u16), size: (u16, u16)) -> bool {
    &&& area.x <= corner.0
    &&& area.y <= corner.1
    &&& corner.0 + size.0 <= area.end_x()
    &&& corner.1 + size.1 <= area.end_y()
}

/// Whether the first rows of a rectangle, and the first cells of the next one, hold a place.
pub open spec fn reached(place: (u16, u16), corner: (u16, u16), columns: u16, row: int, column: int) -> bool {
    &&& corner.0 <= place.0 < corner.0 + columns
    &&& corner.1 <= place.1
    &&& place.1 < corner.1 + row || (place.1 == corner.1 + row && place.0 < corner.0 + column)
}

/// Lays a rectangle of one buffer over another.
fn overlay(to: &mut Buffer, corner: (u16, u16), from: &Buffer, source: (u16, u16), size: (u16, u16))
    requires
        blank_cells(canvas_area(*old(to))).dom() == cells(*old(to)).dom(),
        blank_cells(canvas_area(*from)).dom() == cells(*from).dom(),
        on(canvas_area(*old(to)), corner, size),
        on(canvas_area(*from), source, size),
    ensures
        canvas_area(*final(to)) == canvas_area(*old(to)),
        cells(*final(to)).dom() == cells(*old(to)).dom(),
        cells(*final(to)) == overlaid(cells(*old(to)), corner, cells(*from), source, size),
{
    let ghost before = cells(*to);
    let ghost area = canvas_area(*to);
    let ghost wanted = overlaid(before, corner, cells(*from), source, size);
    let mut row: u16 = 0;
    while row < size.1
        invariant
            row <= size.1,
            on(area, corner, size),
            on(canvas_area(*from), source, size),
            blank_cells(canvas_area(*from)).dom() == cells(*from).dom(),
            canvas_area(*to) == area,
            before.dom() == blank_cells(area).dom(),
            cells(*to).dom() == before.dom(),
            wanted == overlaid(before, corner, cells(*from), source, size),
            forall|place: (u16, u16)| #[trigger]
                before.contains_key(place) ==> cells(*to)[place] == if reached(
                    place,
                    corner,
                    size.0,
                    row as int,
                    0,
                ) {
                    wanted[place]
                } else {
                    before[place]
                },
        decreases size.1 - row,
    {
        let mut column: u16 = 0;
        while column < size.0
            invariant
                row < size.1,
                column <= size.0,
                on(area, corner, size),
                on(canvas_area(*from), source, size),
                blank_cells(canvas_area(*from)).dom() == cells(*from).dom(),
                canvas_area(*to) == area,
                before.dom() == blank_cells(area).dom(),
                cells(*to).dom() == before.dom(),
                wanted == overlaid(before, corner, cells(*from), source, size),
                forall|place: (u16, u16)| #[trigger]
                    before.contains_key(place) ==> cells(*to)[place] == if reached(
                        place,
                        corner,
                        size.0,
                        row as int,
                        column as int,
                    ) {
                        wanted[place]
                    } else {
                        before[place]
                    },
            decreases size.0 - column,
        {
            let place: (u16, u16) = (corner.0 + column, corner.1 + row);
            let other: (u16, u16) = (source.0 + column, source.1 + row);
            assert(area.holds(place));
            assert(blank_cells(area).contains_key(place));
            assert(canvas_area(*from).holds(other));
            assert(blank_cells(canvas_area(*from)).contains_key(other));
            assert(before.contains_key(place));
            assert(shifted(place, corner, source) == other);
            assert(wanted[place] == cells(*from)[other]);
            copy_cell(to, place, from, other);
            assert(cells(*to).dom() =~= before.dom());
            column = column + 1;
        }
        row = row + 1;
    }
    assert(cells(*to) =~= wanted);
}

/// A text in pieces that have no more characters than the limit.
pub open spec fn cut(text: Seq<char>, look: Look, limit: u32) -> Seq<(Seq<char>, Look)>
    decreases text.len(),
{
    if limit == 0 || text.len() <= limit {
        seq![(text, look)]
    } else {
        seq![(text.take(limit as int), look)] + cut(text.skip(limit as int), look, limit)
    }
}

/// Parts of a line, those that are too long in pieces.
pub open spec fn cut_parts(parts: Seq<(Seq<char>, Look)>, limit: u32) -> Seq<(Seq<char>, Look)>
    decreases parts.len(),
{
    if parts.len() == 0 {
        seq![]
    } else {
        cut_parts(parts.drop_last(), limit) + cut(parts.last().0, parts.last().1, limit)
    }
}

/// Lines, their parts that are too long in pieces.
pub open spec fn cut_lines(lines: Seq<TextLineView>, limit: u32) -> Seq<TextLineView> {
    lines.map_values(
        |line: TextLineView| TextLineView { parts: cut_parts(line.parts, limit), look: line.look },
    )
}

proof fn lemma_cut_parts_within(parts: Seq<(Seq<char>, Look)>, limit: u32)
    requires
        forall|i: int| 0 <= i < parts.len() ==> (#[trigger] parts[i]).0.len() <= limit,
    ensures
        cut_parts(parts, limit) == parts,
    decreases parts.len(),
{
    if parts.len() > 0 {
        lemma_cut_parts_within(parts.drop_last(), limit);
        assert(parts.last().0.len() <= limit);
        assert(parts.drop_last() + seq![parts.last()] =~= parts);
    }
}

/// Lines whose parts are all short enough stay as they are.
pub proof fn short_lines_are_not_cut(lines: Seq<TextLineView>, limit: u32)
    requires
        within(lines, limit),
    ensures
        cut_lines(lines, limit) == lines,
{
    assert forall|i: int| 0 <= i < lines.len() implies cut_lines(lines, limit)[i] == #[trigger] lines[i] by {
        assert(line_within(lines[i], limit));
        lemma_cut_parts_within(lines[i].parts, limit);
    }
    assert(cut_lines(lines, limit) =~= lines);
}

fn are_within(lines: &Vec<TextLine>, limit: u32) -> (yes: bool)
    ensures
        yes == within(line_views(lines@), limit),
{
    let ghost views = line_views(lines@);
    let mut at: usize = 0;
    while at < lines.len()
        invariant
            at <= lines@.len() == views.len(),
            views == line_views(lines@),
            forall|i: int| 0 <= i < at ==> line_within(#[trigger] views[i], limit),
        decreases lines@.len() - at,
    {
        let parts = &lines[at].parts;
        assert(views[at as int].parts == part_views(parts@));
        let mut part: usize = 0;
        while part < parts.len()
            invariant
                part <= parts@.len() == views[at as int].parts.len(),
                at < views.len(),
                views == line_views(lines@),
                views[at as int].parts == part_views(parts@),
                forall|i: int|
                    0 <= i < part ==> (#[trigger] views[at as int].parts[i]).0.len() <= limit,
            decreases parts@.len() - part,
        {
            assert(views[at as int].parts[part as int].0 == parts@[part as int].0@);
            if parts[part].0.as_str().unicode_len() > limit as usize {
                assert(!line_within(views[at as int], limit));
                return false;
            }
            part = part + 1;
        }
        at = at + 1;
    }
    true
}

fn push_cut(parts: &mut Vec<(String, Look)>, text: &str, look: Look, limit: u32)
    requires
        limit > 0,
    ensures
        part_views(final(parts)@) == part_views(old(parts)@) + cut(text@, look, limit),
{
    let length: usize = text.unicode_len();
    let ghost wanted = part_views(parts@) + cut(text@, look, limit);
    let mut from: usize = 0;
    assert(text@.skip(0) =~= text@);
    while length - from > limit as usize
        invariant
            from <= length == text@.len(),
            limit > 0,
            wanted == part_views(parts@) + cut(text@.skip(from as int), look, limit),
        decreases length - from,
    {
        let to: usize = from + limit as usize;
        let ghost before = parts@;
        let ghost rest = text@.skip(from as int);
        let piece = text.substring_char(from, to).to_owned();
        assert(piece@ =~= rest.take(limit as int));
        assert(rest.skip(limit as int) =~= text@.skip(to as int));
        parts.push((piece, look));
        assert(part_views(parts@) =~= part_views(before).push((rest.take(limit as int), look)));
        assert(part_views(parts@) + cut(text@.skip(to as int), look, limit) =~= wanted);
        from = to;
    }
    let ghost before = parts@;
    let piece = text.substring_char(from, length).to_owned();
    assert(piece@ =~= text@.skip(from as int));
    parts.push((piece, look));
    assert(part_views(parts@) =~= part_views(before).push((text@.skip(from as int), look)));
    assert(part_views(parts@) =~= wanted);
}

fn cut_line(line: &TextLine, limit: u32) -> (pieces: TextLine)
    requires
        limit > 0,
    ensures
        pieces@ == (TextLineView { parts: cut_parts(line@.parts, limit), look: line.look }),
        line_within(pieces@, limit),
{
    let ghost views = line@.parts;
    let mut parts: Vec<(String, Look)> = Vec::new();
    let mut at: usize = 0;
    assert(part_views(parts@) =~= cut_parts(views.take(0), limit));
    while at < line.parts.len()
        invariant
            limit > 0,
            at <= line.parts@.len() == views.len(),
            views == part_views(line.parts@),
            part_views(parts@) == cut_parts(views.take(at as int), limit),
        decreases line.parts@.len() - at,
    {
        let ghost now = views.take(at + 1);
        assert(now.drop_last() =~= views.take(at as int));
        assert(now.last() == (line.parts@[at as int].0@, line.parts@[at as int].1));
        push_cut(&mut parts, &line.parts[at].0, line.parts[at].1, limit);
        at = at + 1;
    }
    assert(views.take(at as int) =~= views);
    proof {
        lemma_pieces_within(views, limit);
    }
    TextLine { parts, look: line.look }
}

proof fn lemma_cut_within(text: Seq<char>, look: Look, limit: u32)
    requires
        limit > 0,
    ensures
        forall|i: int|
            0 <= i < cut(text, look, limit).len() ==> (#[trigger] cut(text, look, limit)[i]).0.len()
                <= limit,
    decreases text.len(),
{
    if text.len() > limit {
        let rest = cut(text.skip(limit as int), look, limit);
        lemma_cut_within(text.skip(limit as int), look, limit);
        assert forall|i: int| 0 <= i < cut(text, look, limit).len() implies (#[trigger] cut(
            text,
            look,
            limit,
        )[i]).0.len() <= limit by {
            if i > 0 {
                assert(cut(text, look, limit)[i] == rest[i - 1]);
            }
        }
    }
}

proof fn lemma_pieces_within(parts: Seq<(Seq<char>, Look)>, limit: u32)
    requires
        limit > 0,
    ensures
        forall|i: int|
            0 <= i < cut_parts(parts, limit).len() ==> (#[trigger] cut_parts(parts, limit)[i]).0.len()
                <= limit,
    decreases parts.len(),
{
    if parts.len() > 0 {
        let first = cut_parts(parts.drop_last(), limit);
        let last = cut(parts.last().0, parts.last().1, limit);
        lemma_pieces_within(parts.drop_last(), limit);
        lemma_cut_within(parts.last().0, parts.last().1, limit);
        assert forall|i: int| 0 <= i < cut_parts(parts, limit).len() implies (#[trigger] cut_parts(
            parts,
            limit,
        )[i]).0.len() <= limit by {
            if i < first.len() {
                assert(cut_parts(parts, limit)[i] == first[i]);
            } else {
                assert(cut_parts(parts, limit)[i] == last[i - first.len()]);
            }
        }
    }
}

fn cut_all(lines: &Vec<TextLine>, limit: u32) -> (pieces: Vec<TextLine>)
    requires
        limit > 0,
    ensures
        line_views(pieces@) == cut_lines(line_views(lines@), limit),
        within(line_views(pieces@), limit),
{
    let ghost views = line_views(lines@);
    let ghost wanted = cut_lines(views, limit);
    let mut pieces: Vec<TextLine> = Vec::new();
    let mut at: usize = 0;
    while at < lines.len()
        invariant
            limit > 0,
            at <= lines@.len() == views.len(),
            views == line_views(lines@),
            wanted == cut_lines(views, limit),
            pieces@.len() == at,
            forall|i: int|
                0 <= i < at ==> (#[trigger] pieces@[i])@ == wanted[i] && line_within(
                    pieces@[i]@,
                    limit,
                ),
        decreases lines@.len() - at,
    {
        assert(views[at as int] == lines@[at as int]@);
        pieces.push(cut_line(&lines[at], limit));
        at = at + 1;
    }
    assert(line_views(pieces@) =~= wanted);
    assert forall|i: int| 0 <= i < line_views(pieces@).len() implies line_within(
        #[trigger] line_views(pieces@)[i],
        limit,
    ) by {
        assert(line_views(pieces@)[i] == pieces@[i]@);
    }
    pieces
}

/// How many characters a part of a line may have in an area of a width: as many as can be drawn at
/// once, and in a very wide area no more than leave room to count with.
pub open spec fn part_limit(width: u16, wrap: bool) -> u32 {
    if wrap {
        if width < 16_384 {
            LONGEST
        } else {
            ((u16::MAX - width) / 9) as u32
        }
    } else {
        if width < 32_768 {
            LONGEST
        } else {
            ((u16::MAX - width) / 3) as u32
        }
    }
}

fn find_part_limit(width: u16, wrap: bool) -> (limit: u32)
    ensures
        limit == part_limit(width, wrap),
{
    if wrap {
        if width < 16_384 {
            LONGEST
        } else {
            (u16::MAX - width) as u32 / 9
        }
    } else {
        if width < 32_768 {
            LONGEST
        } else {
            (u16::MAX - width) as u32 / 3
        }
    }
}

/// Whether a text can be drawn in an area: the area lies on the screen, and there is room to count
/// its columns, and its rows with the offset.
pub open spec fn drawable(canvas: Rect, area: Rect, wrap: bool, scroll: u16) -> bool {
    &&& on(canvas, (area.x, area.y), (area.width, area.height))
    &&& part_limit(area.width, wrap) > 0
    &&& area.height + scroll <= u16::MAX
}

/// The sheet for a text in an area: as large as the area, and where the text is wrapped, with room to
/// the right.
pub open spec fn sheet_for(area: Rect, wrap: bool) -> Rect {
    rect(
        0,
        0,
        if wrap {
            (area.width + reach(area.width, part_limit(area.width, wrap))) as u16
        } else {
            area.width
        },
        area.height,
    )
}

/// How much of a sheet there is room for on the screen, from the corner of an area.
pub open spec fn shown(canvas: Rect, area: Rect, sheet: Rect) -> (u16, u16) {
    (
        if area.x + sheet.width <= canvas.end_x() {
            sheet.width
        } else {
            (canvas.end_x() - area.x) as u16
        },
        area.height,
    )
}

/// The cells after a text was drawn in an area.
pub open spec fn texted(
    before: Map<(u16, u16), CellView>,
    canvas: Rect,
    area: Rect,
    lines: Seq<TextLineView>,
    ground: Look,
    wrap: bool,
    scroll: u16,
) -> Map<(u16, u16), CellView> {
    let corner = (area.x, area.y);
    let sheet = sheet_for(area, wrap);
    let size = shown(canvas, area, sheet);
    let blank = overlaid(blank_cells(sheet), (0, 0), before, corner, size);
    let drawn = text_drawn(
        blank,
        rect(0, 0, area.width, area.height),
        cut_lines(lines, part_limit(area.width, wrap)),
        ground,
        wrap,
        scroll,
    );
    overlaid(before, corner, drawn, (0, 0), size)
}

/// Whether there is room to draw a text in an area.
pub fn can_draw(canvas: Rect, area: Rect, wrap: bool, scroll: u16) -> (yes: bool)
    ensures
        yes == drawable(canvas, area, wrap, scroll),
{
    canvas.x <= area.x && canvas.y <= area.y && area.x as u32 + area.width as u32 <= sum(
        canvas.x,
        canvas.width,
    ) as u32 && area.y as u32 + area.height as u32 <= sum(canvas.y, canvas.height) as u32
        && find_part_limit(area.width, wrap) > 0 && area.height as u32 + scroll as u32 <= 65535
}

fn make_sheet(area: Rect, wrap: bool) -> (sheet: Rect)
    requires
        part_limit(area.width, wrap) > 0,
    ensures
        sheet == sheet_for(area, wrap),
        sheet.width == area.width + if wrap {
            reach(area.width, part_limit(area.width, wrap))
        } else {
            0
        },
        sheet.height == area.height,
{
    let limit: u32 = find_part_limit(area.width, wrap);
    let width: u32 = if !wrap {
        area.width as u32
    } else if area.width as u32 <= WIDEST * limit {
        area.width as u32 + area.width as u32
    } else {
        area.width as u32 + WIDEST * limit
    };
    Rect::new(0, 0, width as u16, area.height)
}

/// Draws a text in an area.
pub fn draw_on(
    buffer: &mut Buffer,
    canvas: Rect,
    area: Rect,
    lines: &Vec<TextLine>,
    ground: Look,
    wrap: bool,
    scroll: u16,
)
    requires
        canvas_area(*old(buffer)) == canvas,
        blank_cells(canvas).dom() == cells(*old(buffer)).dom(),
        drawable(canvas, area, wrap, scroll),
    ensures
        canvas_area(*final(buffer)) == canvas,
        cells(*final(buffer)).dom() == cells(*old(buffer)).dom(),
        cells(*final(buffer)) == texted(
            cells(*old(buffer)),
            canvas,
            area,
            line_views(lines@),
            ground,
            wrap,
            scroll,
        ),
{
    let limit: u32 = find_part_limit(area.width, wrap);
    let sheet = make_sheet(area, wrap);
    let end: u16 = sum(canvas.x, canvas.width);
    let columns: u16 = if area.x as u32 + sheet.width as u32 <= end as u32 {
        sheet.width
    } else {
        end - area.x
    };
    let size: (u16, u16) = (columns, area.height);
    let corner: (u16, u16) = (area.x, area.y);
    let mut page = crate::canvas::new_buffer(sheet);
    overlay(&mut page, (0, 0), buffer, corner, size);
    let inside = Rect::new(0, 0, area.width, area.height);
    if are_within(lines, limit) {
        proof {
            short_lines_are_not_cut(line_views(lines@), limit);
        }
        draw_text(&mut page, inside, lines, ground, wrap, scroll);
    } else {
        let pieces = cut_all(lines, limit);
        draw_text(&mut page, inside, &pieces, ground, wrap, scroll);
    }
    overlay(buffer, corner, &page, (0, 0), size);
}

} // verus!
