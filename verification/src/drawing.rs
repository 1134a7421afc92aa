//! Putting the steps together in which the screen is drawn.

use vstd::prelude::*;
use vstd::string::*;

use crate::canvas::{
    line_views, paint_views, part_views, Caption, Look, Paint, PaintView, Sides, TextLine, TextLineView,
};
use crate::geometry::{difference, minus, Rect};
use crate::text::{lines, lines_of, texts};

verus! {

/// A line of one look. Where the text has breaks in it, they are left out.
pub open spec fn whole(text: Seq<char>, look: Look) -> TextLineView {
    TextLineView {
        parts: lines_of(text).map_values(|part: Seq<char>| (part, Look::plain())),
        look,
    }
}

/// A line with the look of what it stands on.
pub open spec fn bare(text: Seq<char>) -> TextLineView {
    whole(text, Look::plain())
}

fn whole_line(text: &str, look: Look) -> (line: TextLine)
    ensures
        line@ == whole(text@, look),
{
    let pieces = lines(text);
    let ghost wanted = lines_of(text@).map_values(|part: Seq<char>| (part, Look::plain()));
    let mut parts: Vec<(String, Look)> = Vec::new();
    let mut at: usize = 0;
    while at < pieces.len()
        invariant
            at <= pieces@.len(),
            texts(pieces@) == lines_of(text@),
            wanted == lines_of(text@).map_values(|part: Seq<char>| (part, Look::plain())),
            part_views(parts@) == wanted.take(at as int),
        decreases pieces@.len() - at,
    {
        let ghost before = parts@;
        assert(texts(pieces@)[at as int] == pieces@[at as int]@);
        parts.push((pieces[at].clone(), Look::new_plain()));
        assert(part_views(parts@) =~= part_views(before).push(wanted[at as int]));
        assert(wanted.take(at + 1) =~= wanted.take(at as int).push(wanted[at as int]));
        at = at + 1;
    }
    assert(texts(pieces@).len() == pieces@.len());
    assert(wanted.take(at as int) =~= wanted);
    TextLine { parts, look }
}

/// The lines of a text.
pub open spec fn bare_lines(text: Seq<char>) -> Seq<TextLineView> {
    lines_of(text).map_values(|line: Seq<char>| bare(line))
}

/// Lines of text in an area, cut at its edges.
pub open spec fn text_in(area: Rect, lines: Seq<TextLineView>, ground: Look) -> PaintView {
    PaintView::Text { area, lines, ground, wrap: false, scroll: 0 }
}

/// A frame around an area.
pub open spec fn frame_around(area: Rect, caption: Option<Caption>, edge: u32, ground: Look) -> PaintView {
    PaintView::Frame { area, sides: Sides::All, caption, edge: Look::ink(edge), ground }
}

/// Puts a step behind a list of steps.
pub fn push_paint(list: &mut Vec<Paint>, paint: Paint)
    ensures
        paint_views(final(list)@) == paint_views(old(list)@).push(paint@),
{
    list.push(paint);
    assert(paint_views(list@) =~= paint_views(old(list)@).push(paint@));
}

/// Puts the steps of a list behind those of another.
pub fn append_paints(list: &mut Vec<Paint>, more: Vec<Paint>)
    ensures
        paint_views(final(list)@) == paint_views(old(list)@) + paint_views(more@),
{
    let ghost added = more@;
    let mut more = more;
    list.append(&mut more);
    assert(paint_views(list@) =~= paint_views(old(list)@) + paint_views(added));
}

/// Puts a line behind a list of lines.
pub fn push_line(list: &mut Vec<TextLine>, text: String, look: Look)
    ensures
        line_views(final(list)@) == line_views(old(list)@).push(whole(text@, look)),
{
    list.push(whole_line(&text, look));
    assert(line_views(list@) =~= line_views(old(list)@).push(whole(text@, look)));
}

/// The lines of a text.
pub fn to_bare_lines(text: &str) -> (list: Vec<TextLine>)
    ensures
        line_views(list@) == bare_lines(text@),
{
    let parts = lines(text);
    let ghost wanted = bare_lines(text@);
    assert(wanted.len() == parts@.len());
    let mut list: Vec<TextLine> = Vec::new();
    let mut at: usize = 0;
    while at < parts.len()
        invariant
            at <= parts@.len() == wanted.len(),
            texts(parts@) == lines_of(text@),
            wanted == bare_lines(text@),
            line_views(list@) == wanted.take(at as int),
        decreases parts@.len() - at,
    {
        assert(texts(parts@)[at as int] == parts@[at as int]@);
        push_line(&mut list, parts[at].clone(), Look::new_plain());
        assert(wanted.take(at + 1) =~= wanted.take(at as int).push(wanted[at as int]));
        at = at + 1;
    }
    assert(wanted.take(at as int) =~= wanted);
    list
}

/// Lines of text in an area.
pub fn new_text(area: Rect, lines: Vec<TextLine>, ground: Look) -> (paint: Paint)
    ensures
        paint@ == text_in(area, line_views(lines@), ground),
{
    Paint::Text { area, lines, ground, wrap: false, scroll: 0 }
}

/// A frame around an area.
pub fn new_frame(area: Rect, caption: Option<Caption>, edge: u32, ground: Look) -> (paint: Paint)
    ensures
        paint@ == frame_around(area, caption, edge, ground),
{
    Paint::Frame { area, sides: Sides::All, caption, edge: Look::new_ink(edge), ground }
}

/// An area without its last row.
pub open spec fn above_rule(area: Rect) -> Rect {
    Rect { height: minus(area.height, 1), ..area }
}

/// An area without its last row.
pub fn without_last_row(area: Rect) -> (rest: Rect)
    ensures
        rest == above_rule(area),
{
    Rect { x: area.x, y: area.y, width: area.width, height: difference(area.height, 1) }
}

} // verus!
