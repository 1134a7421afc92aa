use neta::geometry::Rect;
use neta::hosts::{HostId, ScopedTarget};
use neta::protocol::Target;
use neta::sessions::{
    client_root_input, editor_ready, find_header_end, pi_working_directory, prepare_session_root,
    resize_pane, session_roots, starting_size, LegacyEntry, LegacyHeader, LegacyRoot, RootPlan,
};

fn local_target(session_id: &str, cwd: &str) -> ScopedTarget {
    ScopedTarget::new(
        HostId::local(),
        Target {
            session_id: session_id.into(),
            workspace_id: "workspace".into(),
            name: "Pi".into(),
            role: "agent".into(),
            cwd: cwd.into(),
            provider: "pi".into(),
            model: "m".into(),
        },
    )
    .unwrap()
}

fn history(session_id: &str, cwd: &str) -> LegacyEntry {
    LegacyEntry::History(Some(LegacyHeader {
        entry_type: "session".into(),
        id: session_id.into(),
        cwd: cwd.into(),
    }))
}

#[test]
fn migrates_matching_local_legacy_history_without_changing_bytes() {
    let target = local_target("shared", "/repo");
    let legacy = LegacyRoot::Directory(vec![history("shared", "/repo"), LegacyEntry::File]);
    assert_eq!(
        prepare_session_root(&target, "/tmp/roots", false, false, &legacy),
        RootPlan::Migrate
    );
    let (scoped, old) = session_roots(&target, "/tmp/roots");
    assert_eq!(scoped, format!("/tmp/roots/{}", target.key.cache_component()));
    assert_eq!(old, format!("/tmp/roots/{}", target.key.legacy_cache_component()));
    assert_eq!(
        prepare_session_root(&target, "/tmp/roots", false, true, &LegacyRoot::Absent),
        RootPlan::Use
    );
}

#[test]
fn preserves_malformed_or_mismatched_legacy_history() {
    for entry in [
        LegacyEntry::History(None),
        history("another", "/repo"),
        history("shared", "/another-repo"),
    ] {
        let target = local_target("shared", "/repo");
        let legacy = LegacyRoot::Directory(vec![entry]);
        match prepare_session_root(&target, "/tmp/roots", false, false, &legacy) {
            RootPlan::Refuse(error) => assert!(error.contains("no history was deleted")),
            other => panic!("{other:?}"),
        }
    }
}

#[test]
fn preserves_symlinked_or_remote_legacy_history() {
    let target = local_target("shared", "/repo");
    let linked = LegacyRoot::Directory(vec![history("shared", "/repo"), LegacyEntry::NotFile]);
    assert!(matches!(
        prepare_session_root(&target, "/tmp/roots", false, false, &linked),
        RootPlan::Refuse(_)
    ));
    assert!(matches!(
        prepare_session_root(&target, "/tmp/roots", false, false, &LegacyRoot::NotDirectory),
        RootPlan::Refuse(_)
    ));

    let mut elsewhere = local_target("shared", "/repo");
    elsewhere.key.host_id = HostId::saved("remote").unwrap();
    let legacy = LegacyRoot::Directory(vec![history("shared", "/repo")]);
    assert!(matches!(
        prepare_session_root(&elsewhere, "/tmp/roots", false, false, &legacy),
        RootPlan::Refuse(_)
    ));

    assert!(matches!(
        prepare_session_root(&target, "/tmp/roots", true, false, &legacy),
        RootPlan::Refuse(_)
    ));
}

#[test]
fn never_overwrites_an_existing_scoped_root() {
    let target = local_target("shared", "/repo");
    let legacy = LegacyRoot::Directory(vec![history("shared", "/repo")]);
    assert_eq!(
        prepare_session_root(&target, "/tmp/roots", false, true, &legacy),
        RootPlan::Use
    );
}

#[test]
fn an_empty_or_absent_old_directory_is_no_obstacle() {
    let target = local_target("shared", "/repo");
    for legacy in [LegacyRoot::Absent, LegacyRoot::Directory(vec![])] {
        assert_eq!(
            prepare_session_root(&target, "/tmp/roots", true, false, &legacy),
            RootPlan::Create
        );
    }
    let only_files = LegacyRoot::Directory(vec![LegacyEntry::File]);
    assert!(matches!(
        prepare_session_root(&target, "/tmp/roots", false, false, &only_files),
        RootPlan::Refuse(_)
    ));
}

#[test]
fn launches_local_panes_in_the_target_workspace_and_remote_panes_locally() {
    let target = local_target("shared", "/repo");
    assert_eq!(pi_working_directory(&target, "/client", false), "/repo");
    assert_eq!(pi_working_directory(&target, "/client", true), "/client");
}

#[test]
fn accepts_only_the_current_drivers_exact_session_marker() {
    assert!(editor_ready(Some("leader"), "leader"));
    assert!(!editor_ready(Some("leader"), "other"));
    assert!(!editor_ready(None, "leader"));
}

#[test]
fn the_first_line_of_a_history_is_bounded() {
    assert_eq!(find_header_end(b"{}\nrest\n"), Some(2));
    assert_eq!(find_header_end(b"{}"), None);
    let mut long = vec![b'a'; 65536];
    long.push(b'\n');
    assert_eq!(find_header_end(&long), Some(65536));
    let mut longer = vec![b'a'; 65537];
    longer.push(b'\n');
    assert_eq!(find_header_end(&longer), None);
}

#[test]
fn diagnostics_know_the_session_of_a_pane() {
    let target = local_target("shared", "/repo");
    let input = client_root_input(&target, "/root".into());
    assert_eq!(
        (input.host_id.as_str(), input.workspace_id.as_str(), input.session_id.as_str()),
        ("local", "workspace", "shared")
    );
    assert_eq!((input.provider.as_str(), input.model.as_str()), ("pi", "m"));
    assert_eq!(input.root, "/root");
}

#[test]
fn panes_are_resized_when_their_area_changes() {
    let area = Rect::new(3, 4, 80, 20);
    assert_eq!(resize_pane(area, None), Some((80, 20)));
    assert_eq!(resize_pane(area, Some((80, 20))), None);
    assert_eq!(resize_pane(area, Some((80, 21))), Some((80, 20)));
    assert_eq!(resize_pane(Rect::new(0, 0, 1, 20), None), None);
    assert_eq!(starting_size(Rect::new(0, 0, 1, 20)), (2, 20));
}
