use neta::clipboard::{Osc52Parser, Output, MAX_PAYLOAD};
use neta::input::{
    key_token, mouse_sequence, KeyCode, KeyEvent, KeyModifiers, MouseButton, MouseEvent,
    MouseEventKind,
};
use neta::process::local_pi_process;
use neta::protocol::Target;

const NONE: KeyModifiers = KeyModifiers { shift: false, control: false, alt: false, other: false };

fn key(code: KeyCode, modifiers: KeyModifiers) -> KeyEvent {
    KeyEvent { code, modifiers }
}

#[test]
fn accepts_fragmented_bel_and_st_sequences() {
    let mut parser = Osc52Parser::default();
    assert!(parser.feed(b"screen\x1b]5").is_empty());
    assert_eq!(
        parser.feed(b"2;c;aGVsbG8=\x07tail"),
        vec![b"\x1b]52;c;aGVsbG8=\x07".to_vec()]
    );
    assert_eq!(
        parser.feed(b"\x1b]52;c;eA==\x1b\\"),
        vec![b"\x1b]52;c;eA==\x1b\\".to_vec()]
    );
}

#[test]
fn rejects_reads_and_other_control_sequences() {
    let mut parser = Osc52Parser::default();
    assert!(parser
        .feed(b"\x1b]52;c;?\x07\x1b]0;title\x07\x1b]52;p;eA==\x07")
        .is_empty());
}

#[test]
fn oversized_fragment_resets_and_recovers() {
    let mut parser = Osc52Parser::default();
    let mut oversized = b"\x1b]52;c;".to_vec();
    oversized.extend([b'A'; MAX_PAYLOAD + 20]);
    assert!(parser.feed(&oversized).is_empty());
    assert!(parser.feed(b"\x1b]52;c;eA==\x1b").is_empty());
    assert_eq!(parser.feed(b"\\"), vec![b"\x1b]52;c;eA==\x1b\\".to_vec()]);
    parser.feed(b"\x1b]52;c;YWJj");
    parser.reset();
    assert!(parser.feed(b"ZA==\x07").is_empty());
}

#[test]
fn a_fragment_is_read_as_if_it_came_whole() {
    let whole: &[u8] = b"a\x1b]52;c;eA==\x07b\x1b]52;c;!!\x07\x1b]52;c;YWJj\x1b\\c\x1b]52";
    let mut at_once = Osc52Parser::default();
    let expected = at_once.feed(whole);
    assert_eq!(
        expected,
        vec![b"\x1b]52;c;eA==\x07".to_vec(), b"\x1b]52;c;YWJj\x1b\\".to_vec()]
    );
    for cut in 0..whole.len() {
        let mut parser = Osc52Parser::default();
        let mut found = parser.feed(&whole[..cut]);
        found.extend(parser.feed(&whole[cut..]));
        assert_eq!(found, expected);
    }
}

#[test]
fn the_writes_of_one_feed_are_disjoint_pieces_in_their_order() {
    let whole: &[u8] =
        b"\x1b]52;c;eA==\x07\x1b]52;c;eA==\x07-\x1b]52;c;?\x07\x1b]52;c;YWJj\x1b\\\x1b]52;c;eA";
    let found = Osc52Parser::default().feed(whole);
    assert_eq!(found.len(), 3);
    let mut rest = whole;
    for piece in &found {
        let at = rest.windows(piece.len()).position(|window| window == piece.as_slice()).unwrap();
        rest = &rest[at + piece.len()..];
    }
    assert_eq!(rest, b"\x1b]52;c;eA");
}

#[test]
fn only_the_pane_that_is_heard_writes_to_the_clipboard() {
    let start = || Output::Bytes(b"\x1b]52;c;e".to_vec());
    let end = || Output::Bytes(b"A==\x07".to_vec());
    let whole = vec![b"\x1b]52;c;eA==\x07".to_vec()];
    let mut parser = Osc52Parser::default();
    assert!(parser.take(start(), true).is_empty());
    assert_eq!(parser.take(end(), true), whole);
    assert!(parser.take(start(), true).is_empty());
    assert!(parser.take(Output::Other, false).is_empty());
    assert_eq!(parser.take(end(), true), whole);
    for heard in [false, true] {
        assert!(parser.take(start(), true).is_empty());
        assert!(parser.take(Output::Lag, heard).is_empty());
        assert!(parser.take(end(), true).is_empty());
    }
    assert!(parser.take(start(), true).is_empty());
    assert!(parser.take(end(), false).is_empty());
    assert!(parser.take(end(), true).is_empty());
    assert!(parser.take(Output::Bytes(whole[0].clone()), false).is_empty());
}

#[test]
fn preserves_control_and_alt() {
    assert_eq!(
        key_token(key(KeyCode::Char('x'), KeyModifiers { control: true, alt: true, ..NONE })),
        Some("C-M-x".into())
    );
    assert_eq!(key_token(key(KeyCode::Up, NONE)), Some("Up".into()));
}

#[test]
fn uses_rmux_canonical_special_key_names() {
    assert_eq!(key_token(key(KeyCode::Backspace, NONE)), Some("BSpace".into()));
    assert_eq!(
        key_token(key(KeyCode::Backspace, KeyModifiers { alt: true, ..NONE })),
        Some("M-BSpace".into())
    );
    assert_eq!(key_token(key(KeyCode::PageUp, NONE)), Some("PageUp".into()));
}

#[test]
fn plain_characters_have_no_token() {
    assert_eq!(key_token(key(KeyCode::Char('x'), NONE)), None);
    assert_eq!(key_token(key(KeyCode::Other, NONE)), None);
    assert_eq!(key_token(key(KeyCode::F(5), NONE)), Some("F5".into()));
}

#[test]
fn mouse_events_are_told_relative_to_the_pane() {
    let press = MouseEvent { kind: MouseEventKind::Down(MouseButton::Left), column: 12, row: 7 };
    assert_eq!(mouse_sequence(press, 10, 5), Some("\x1b[<0;3;3M".into()));
    let release = MouseEvent { kind: MouseEventKind::Up(MouseButton::Right), column: 10, row: 5 };
    assert_eq!(mouse_sequence(release, 10, 5), Some("\x1b[<0;1;1m".into()));
    assert_eq!(mouse_sequence(release, 11, 5), None);
}

fn target(session: &str, workspace: &str, cwd: &str) -> Target {
    Target {
        session_id: session.into(),
        workspace_id: workspace.into(),
        name: "Lead".into(),
        role: "Workspace leader".into(),
        cwd: cwd.into(),
        provider: "pi".into(),
        model: "model".into(),
    }
}

#[test]
fn local_pi_contract_is_fullscreen_and_session_stable() {
    let target = target("session-7", "workspace-7", "/repo");
    let process = local_pi_process(
        &target,
        "node",
        "pi.js",
        "acp.ts",
        "/sessions/7",
        "/sessions/7/editor-ready",
        "/descriptor/node.json",
        false,
        &vec![],
    );
    assert_eq!(
        process.argv,
        vec![
            "node",
            "pi.js",
            "--session-dir",
            "/sessions/7",
            "--session-id",
            "session-7",
            "--tui-mode",
            "fullscreen",
            "--extension",
            "acp.ts",
        ]
    );
    assert!(process.environment.contains(&"NETA_TARGET_SESSION_ID=session-7".into()));
}

#[test]
fn remote_pi_forces_acp_and_uses_the_forwarded_descriptor() {
    let target = target("remote-session", "workspace", "/remote/repo");
    let process = local_pi_process(
        &target,
        "node",
        "pi.js",
        "acp.ts",
        "/sessions",
        "/sessions/editor-ready",
        "/private/node.json",
        true,
        &vec![("SSH_CLIENT".into(), "1.2.3.4".into()), ("SECRET".into(), "no".into())],
    );
    assert!(process.argv.windows(2).any(|pair| pair == ["--provider", "neta-acp"]));
    assert!(process.environment.contains(&"NETA_DESCRIPTOR=/private/node.json".into()));
    assert!(process.environment.contains(&"NETA_FORCE_ACP=1".into()));
    assert!(process.environment.contains(&"NETA_PROXY_TOOLS=disabled".into()));
    assert!(process.environment.contains(&"SSH_CLIENT=1.2.3.4".into()));
    assert!(!process.environment.iter().any(|entry| entry.starts_with("SECRET")));
}
