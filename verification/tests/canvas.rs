use neta::canvas::{Canvas, Look, Paint, TextLine};
use neta::geometry::Rect;
use ratatui::buffer::Buffer;
use ratatui_rmux::PaneState;

fn line(text: &str) -> TextLine {
    TextLine { parts: vec![(text.into(), Look::new_plain())], look: Look::new_plain() }
}

fn drawn(screen: Rect, area: Rect, lines: Vec<TextLine>, wrap: bool, scroll: u16) -> Buffer {
    let mut canvas = Canvas::new(screen);
    let text = Paint::Text { area, lines, ground: Look::new_plain(), wrap, scroll };
    canvas.paint(&vec![text], &PaneState::default());
    canvas.into_buffer()
}

fn row(buffer: &Buffer, y: u16, from: u16, to: u16) -> String {
    (from..to).map(|x| buffer.cell((x, y)).unwrap().symbol()).collect()
}

#[test]
fn a_wrapped_line_that_ends_beyond_its_area_is_cut_off_at_the_screen() {
    let text = || vec![line("a xx\u{17D8}b")];
    let narrow = drawn(Rect::new(0, 0, 5, 3), Rect::new(0, 0, 5, 3), text(), true, 0);
    assert_eq!(row(&narrow, 0, 0, 5), "a    ");
    assert_eq!(row(&narrow, 1, 0, 3), "xx\u{17D8}");
    let wide = drawn(Rect::new(0, 0, 9, 3), Rect::new(0, 0, 5, 3), text(), true, 0);
    assert_eq!(row(&wide, 1, 0, 3), "xx\u{17D8}");
    assert_eq!(row(&wide, 1, 5, 6), "b");
}

#[test]
fn a_cluster_that_is_too_wide_to_count_is_drawn_in_pieces() {
    let text = format!("0123456789{}", "\u{1100}".repeat(32_768));
    for wrap in [false, true] {
        let screen = Rect::new(0, 0, 10, 2);
        let buffer = drawn(screen, screen, vec![line(&text)], wrap, 0);
        assert_eq!(row(&buffer, 0, 0, 10), "0123456789");
    }
}

#[test]
fn a_long_text_is_drawn_down_to_its_end() {
    let lines = (0..65_535).map(|_| line("x")).collect();
    let area = Rect::new(1, 4, 118, 22);
    let buffer = drawn(Rect::new(0, 0, 120, 30), area, lines, true, 65_513);
    assert_eq!(row(&buffer, 3, 0, 3), "   ");
    for y in 4..26 {
        assert_eq!(row(&buffer, y, 0, 3), " x ");
    }
    assert_eq!(row(&buffer, 26, 0, 3), "   ");
}

#[test]
fn a_very_wide_screen_shows_its_texts() {
    for (width, wrap) in [(30_000, false), (30_000, true), (65_000, false)] {
        let screen = Rect::new(0, 0, width, 2);
        let buffer = drawn(screen, screen, vec![line("hello")], wrap, 0);
        assert_eq!(row(&buffer, 0, 0, 6), "hello ");
    }
}

#[test]
fn a_text_beside_the_screen_is_left_out() {
    let screen = Rect::new(0, 0, 4, 2);
    let buffer = drawn(screen, Rect::new(2, 0, 4, 1), vec![line("hello")], false, 0);
    assert_eq!(row(&buffer, 0, 0, 4), "    ");
}
