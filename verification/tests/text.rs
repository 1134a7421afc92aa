use neta::paths::{file_name, is_absolute, join, same_path};
use neta::protocol::{started_label, status_label};
use neta::text::{
    decimal, is_control, is_white_space, lines, split_on, starts_with, strip_prefix, trim,
};
use std::path::Path;

#[test]
fn white_space_and_control_are_what_std_says() {
    for value in 0..=0x10FFFFu32 {
        if let Some(c) = char::from_u32(value) {
            assert_eq!(is_white_space(c), c.is_whitespace(), "{value:x}");
            assert_eq!(is_control(c), c.is_control(), "{value:x}");
        }
    }
}

#[test]
fn texts_are_cut_as_std_cuts_them() {
    for text in ["", " ", " a b\t", "\u{a0}ä\u{2003}", "x", "a\nb\r\nc", "\n\n", "a\n", "\r"] {
        assert_eq!(trim(text), text.trim());
        assert_eq!(lines(text), text.lines().collect::<Vec<_>>());
        assert_eq!(split_on(text, '\n'), text.split('\n').collect::<Vec<_>>());
        assert_eq!(strip_prefix(text, "a").as_deref(), text.strip_prefix("a"));
        assert_eq!(starts_with(text, " a"), text.starts_with(" a"));
    }
    for number in [0, 7, 10, 1234567890, u64::MAX] {
        assert_eq!(decimal(number), number.to_string());
    }
}

#[test]
fn paths_are_what_std_says() {
    let paths = ["", "/", "a", "a/", "/a/b", "a//b", "./a", "a/./b", "..", "a/..", "/a/../b"];
    for left in paths {
        assert_eq!(is_absolute(left), Path::new(left).is_absolute());
        assert_eq!(
            file_name(left),
            Path::new(left).file_name().map(|name| name.to_str().unwrap().to_string()),
            "{left}"
        );
        for right in paths {
            assert_eq!(
                Path::new(&join(left, right)),
                Path::new(left).join(right),
                "{left} {right}"
            );
            assert_eq!(join(left, right), Path::new(left).join(right).to_str().unwrap());
            assert_eq!(
                same_path(left, right),
                Path::new(left) == Path::new(right),
                "{left} {right}"
            );
        }
    }
}

#[test]
fn states_and_times_have_labels() {
    assert_eq!(status_label("blocked"), "NEEDS YOU");
    assert_eq!(status_label("archived"), "DONE");
    assert_eq!(status_label("anything"), "RUNNING");
    assert_eq!(started_label("2026-09-01T10:30:00Z"), "10:30");
    assert_eq!(started_label("2026"), "--:--");
    assert_eq!(started_label("2026-09-01Tä0:30:00Z"), "2026-09-01Tä0:30:00Z".get(11..16).unwrap_or("--:--"));
}
