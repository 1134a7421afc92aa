use neta::geometry::{
    body_areas, centered, initial_pane_area, screen_layout, sidebar_width, Rect,
};

#[test]
fn the_spine_takes_a_good_quarter_of_the_screen() {
    for width in 0..=u16::MAX {
        let wanted = ((width as f32 * 0.27) as u16).clamp(24, 44);
        let expected = wanted.min(width.saturating_sub(20));
        assert_eq!(sidebar_width(width), expected, "{width}");
    }
}

#[test]
fn a_screen_with_room_is_split_without_gaps() {
    for width in [1u16, 2, 39, 79, 80, 81, 100, 120, 163, 188, 301] {
        for height in [13u16, 14, 24, 31, 50, 77] {
            for nav_focused in [false, true] {
                let area = Rect::new(3, 5, width, height);
                let layout = screen_layout(area, nav_focused);
                assert_eq!(layout.header, Rect::new(3, 5, width, 3));
                assert_eq!(layout.status, Rect::new(3, 5 + height - 2, width, 2));
                let spine = if width < 80 {
                    if nav_focused { width } else { 0 }
                } else {
                    sidebar_width(width)
                };
                assert_eq!(layout.sidebar, Rect::new(3, 8, spine, height - 5));
                assert_eq!(layout.pane, Rect::new(3 + spine, 8, width - spine, height - 5));
                assert_eq!(body_areas(area, nav_focused), vec![layout.sidebar, layout.pane]);
            }
        }
    }
}

#[test]
fn popups_stand_in_the_middle() {
    assert_eq!(centered(70, 55, Rect::new(0, 0, 100, 40)), Rect::new(15, 9, 70, 22));
    for width in [0u16, 1, 2, 3, 7, 19, 40, 57, 80, 99, 100, 101, 133, 200, 277] {
        for (share, height) in [(70u16, 55u16), (58, 25), (78, 35)] {
            let area = Rect::new(2, 1, width, 50);
            let popup = centered(share, height, area);
            let edge = |percent: u16| (percent as u32 * width as u32 + 50) / 100;
            let beside = (100 - share) / 2;
            assert_eq!(popup.x as u32, 2 + edge(beside), "{width} {share}");
            assert_eq!(popup.width as u32, edge(beside + share) - edge(beside), "{width} {share}");
        }
    }
}

#[test]
fn a_screen_without_room_is_split_too() {
    for height in 0..13u16 {
        for (width, nav_focused) in [(90u16, false), (90, true), (40, false), (40, true)] {
            let area = Rect::new(3, 5, width, height);
            let layout = screen_layout(area, nav_focused);
            let top = layout.header.height;
            let body = height.min(8);
            assert!(top <= 3);
            assert!(layout.status.height <= 2);
            assert_eq!(top + body + layout.status.height, height);
            assert_eq!(layout.header, Rect::new(3, 5, width, top));
            assert_eq!(layout.status, Rect::new(3, 5 + top + body, width, height - top - body));
            let spine = match (width < 80, nav_focused) {
                (true, true) => width,
                (true, false) => 0,
                (false, _) => sidebar_width(width),
            };
            assert_eq!(layout.sidebar, Rect::new(3, 5 + top, spine, body));
            assert_eq!(layout.pane, Rect::new(3 + spine, 5 + top, width - spine, body));
            assert_eq!(body_areas(area, nav_focused), vec![layout.sidebar, layout.pane]);
        }
    }
    assert_eq!(initial_pane_area(Rect::new(0, 0, 40, 24)), Rect::new(1, 5, 38, 16));
}
