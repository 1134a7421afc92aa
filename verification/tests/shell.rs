use neta::app::{App, ArchiveRequest, ArchivedConversation, HostChoice, HostFormSubmission};
use neta::geometry::Rect;
use neta::hosts::{HostId, HostTransport, ScopedTarget};
use neta::machines::FormStep;
use neta::node::{NodeCommand, NodeUpdate};
use neta::protocol::{
    Agent, ConversationTail, Leader, Machine, Mission, MissionLead, Snapshot, Target, Workspace,
    WorkspaceRoot,
};
use neta::registry::{HostRegistry, LauncherConfig, SavedHost};
use neta::screen::render_buffer;
use neta::shell::{Runtime, Shell};
use neta::start::{export_place, first_snapshot, first_target};
use neta::targets::Errand;
use neta::workspaces::refresh_workspace_choices;
use ratatui_rmux::PaneState;

fn snapshot(machine: &str, workspaces: &[(&str, &str)]) -> Snapshot {
    Snapshot {
        machine: Machine {
            name: machine.into(),
        },
        workspaces: workspaces
            .iter()
            .map(|(id, name)| Workspace {
                id: (*id).into(),
                name: (*name).into(),
                roots: vec![WorkspaceRoot {
                    machine_id: None,
                    path: format!("/{id}"),
                }],
            })
            .collect(),
        leaders: vec![],
        missions: vec![],
        agents: vec![],
    }
}

fn led(machine: &str, workspace: &str, session: &str) -> Snapshot {
    let mut snapshot = snapshot(machine, &[(workspace, workspace)]);
    snapshot.leaders.push(Leader {
        workspace_id: workspace.into(),
        session_id: session.into(),
        name: "Ada".into(),
        state: "idle".into(),
        provider: "pi".into(),
        model: "m".into(),
    });
    snapshot
}

fn text(app: &mut App, width: u16, height: u16) -> String {
    render_buffer(app, &PaneState::default(), Rect::new(0, 0, width, height))
        .content()
        .iter()
        .map(|cell| cell.symbol())
        .collect()
}

#[test]
fn status_uses_live_runtime_snapshots_not_workspace_or_saved_host_counts() {
    let local = HostId::local();
    let remote = HostId::saved("remote").unwrap();
    let other = HostId::saved("other").unwrap();
    let connecting = HostId::saved("connecting").unwrap();
    let local_snapshot = snapshot("local", &[("one", "one"), ("two", "two")]);
    let remote_snapshot = snapshot("noscrubsblr.local", &[("cached", "cached")]);
    let other_snapshot = snapshot("other", &[("third", "third")]);
    let mut app = App::default();
    app.set_hosts(vec![
        HostChoice { id: local.clone(), label: "Local".into() },
        HostChoice { id: remote.clone(), label: "Remote".into() },
        HostChoice { id: other.clone(), label: "Other".into() },
        HostChoice { id: connecting.clone(), label: "Connecting".into() },
    ]);
    app.select_host(remote.clone());
    app.replace_snapshot(remote_snapshot.clone());
    app.nav_focused = true;

    let snapshots = vec![
        (local.clone(), local_snapshot.clone()),
        (remote.clone(), remote_snapshot.clone()),
        (other.clone(), other_snapshot.clone()),
    ];
    refresh_workspace_choices(&mut app, &snapshots, vec![local.clone(), other.clone()]);

    assert_eq!(app.workspace_choices.len(), 4);
    assert_eq!(
        app.workspace_choices.iter().filter(|choice| choice.connected).count(),
        3
    );
    let normal_text = text(&mut app, 80, 30);
    assert!(normal_text.contains("ALL · NOSCRUB"));
    assert!(!normal_text.contains("NOSCRUBSBLR.LOCAL"));
    assert!(normal_text.contains("OFFLINE · 2 CONNECTED"));

    let narrow_text = text(&mut app, 40, 20);
    assert!(narrow_text.contains("ALL · NOSCRUBSBLR.LOCAL"));
    assert!(narrow_text.contains("OFFLINE · 2 CONNECTED"));

    refresh_workspace_choices(
        &mut app,
        &snapshots,
        vec![local.clone(), other.clone(), remote.clone()],
    );
    assert!(text(&mut app, 80, 30).contains("CONNECTED · 3 MACHINES"));

    refresh_workspace_choices(&mut app, &snapshots, vec![local, other]);
    assert!(text(&mut app, 80, 30).contains("OFFLINE · 2 CONNECTED"));
}

fn transport() -> HostTransport {
    HostTransport {
        descriptor_path: "/tmp/neta-node.json".into(),
        local_working_directory: "/tmp".into(),
        remote: false,
    }
}

fn saved(id: &str) -> SavedHost {
    SavedHost {
        id: id.into(),
        display_name: format!("Host {id}"),
        ssh_destination: format!("{id}@example"),
        ssh_config: None,
        remote_neta_dir: format!("/{id}/.neta"),
        remote_launcher: Some(LauncherConfig {
            executable: "/bin/neta".into(),
            args: vec!["--quiet".into()],
        }),
        last_remote_workspace_path: Some(format!("/{id}/project")),
    }
}

fn registry(ids: &[&str]) -> HostRegistry {
    HostRegistry::load("/tmp/hosts.json", ids.iter().map(|id| saved(id)).collect()).unwrap()
}

fn started(registry: &HostRegistry) -> Shell {
    let update = NodeUpdate::Snapshot {
        host_id: HostId::local(),
        generation: 0,
        workspace_id: "w".into(),
        snapshot: led("studio", "w", "leader"),
        open_request: Some(0),
    };
    let (workspace_id, snapshot) = first_snapshot(update).unwrap();
    let target = first_target(&snapshot, &workspace_id).unwrap();
    Shell::start(workspace_id, snapshot, transport(), target, registry)
}

/// Connects a saved machine and hands its first snapshot in.
fn connect(shell: &mut Shell, registry: &HostRegistry, id: &str) -> u64 {
    let host = HostId::saved(id).unwrap();
    shell.app.pending_host = Some(host.clone());
    let request = shell.choose_machine(registry).unwrap();
    assert_eq!(request.host_id, host);
    let command = shell
        .make_connection(&host, request.generation, transport(), request.workspace_root)
        .unwrap();
    let request_id = match command {
        NodeCommand::Open { host_id, request_id, path } => {
            assert_eq!(host_id, host);
            assert_eq!(path, format!("/{id}/project"));
            request_id
        }
        other => panic!("{other:?}"),
    };
    assert_eq!(shell.app.pending_open, Some(request_id));
    shell.update(NodeUpdate::Snapshot {
        host_id: host,
        generation: request.generation,
        workspace_id: format!("{id}-w"),
        snapshot: led(id, &format!("{id}-w"), &format!("{id}-leader")),
        open_request: Some(request_id),
    });
    request.generation
}

#[test]
fn the_client_starts_with_the_leader_of_this_machine() {
    let registry = registry(&["box"]);
    let shell = started(&registry);
    assert_eq!(shell.app.hosts.len(), 2);
    assert_eq!(shell.app.hosts[0].label, "Local machine");
    assert_eq!(shell.app.hosts[1].label, "Host box");
    assert_eq!(shell.app.tabs.len(), 1);
    assert_eq!(shell.active.session_id, "leader");
    assert_eq!(shell.app.workspace_id.as_deref(), Some("w"));
    assert_eq!(shell.app.live_hosts, vec![HostId::local()]);
    assert!(shell.is_connected(&HostId::local()));
    assert!(shell.draft.is_none());
}

#[test]
fn nothing_but_a_snapshot_starts_the_client() {
    let refused = first_snapshot(NodeUpdate::Error {
        host_id: HostId::local(),
        generation: 0,
        message: "no project".into(),
        fatal: false,
        open_request: Some(0),
    });
    assert_eq!(refused.unwrap_err(), "no project");
    let early = first_snapshot(NodeUpdate::ArchiveExported {
        host_id: HostId::local(),
        generation: 0,
        path: "/x".into(),
    });
    assert_eq!(
        early.unwrap_err(),
        "Neta Node actor sent archive data before initial snapshot"
    );
    assert_eq!(
        first_target(&snapshot("m", &[("w", "w")]), "w").unwrap_err(),
        "workspace has no local leader"
    );
}

#[test]
fn a_machine_that_was_chosen_is_connected_and_shown() {
    let registry = registry(&["box"]);
    let mut shell = started(&registry);
    let generation = connect(&mut shell, &registry, "box");
    let host = HostId::saved("box").unwrap();
    assert!(shell.is_current(&host, generation));
    assert_eq!(shell.app.selected_host, host);
    assert_eq!(shell.app.workspace_id.as_deref(), Some("box-w"));
    assert_eq!(shell.app.pending_open, None);
    assert_eq!(shell.app.requested_host, None);
    let wanted = shell.app.pending_target.as_ref().unwrap();
    assert_eq!(wanted.target.session_id, "box-leader");
    assert_eq!(shell.app.workspace_choices.len(), 2);

    shell.app.pending_host = Some(HostId::local());
    assert!(shell.choose_machine(&registry).is_none());
    assert_eq!(shell.app.selected_host, HostId::local());
    assert_eq!(shell.app.workspace_id.as_deref(), Some("w"));
}

#[test]
fn an_unknown_machine_is_not_connected() {
    let registry = registry(&[]);
    let mut shell = started(&registry);
    shell.app.pending_host = Some(HostId::saved("gone").unwrap());
    assert!(shell.choose_machine(&registry).is_none());
    assert_eq!(shell.app.error.as_deref(), Some("unknown machine: saved:gone"));
    assert!(shell.connecting.is_empty());
}

#[test]
fn a_machine_is_connected_once_at_a_time() {
    let registry = registry(&["box"]);
    let mut shell = started(&registry);
    let host = HostId::saved("box").unwrap();
    shell.app.pending_host = Some(host.clone());
    let first = shell.choose_machine(&registry).unwrap();
    assert_eq!(first.generation, 1);
    assert_eq!(first.host.ssh_destination, "box@example");
    shell.app.pending_host = Some(host.clone());
    assert!(shell.choose_machine(&registry).is_none());
    shell.update(NodeUpdate::Error {
        host_id: host.clone(),
        generation: 1,
        message: "refused".into(),
        fatal: false,
        open_request: None,
    });
    assert_eq!(shell.app.error.as_deref(), Some("refused"));
    shell.app.pending_host = Some(host.clone());
    let second = shell.choose_machine(&registry).unwrap();
    assert_eq!(second.generation, 2);
    assert!(shell
        .make_connection(&host, first.generation, transport(), String::new())
        .is_none());
    assert!(!shell.is_connected(&host));
    assert!(matches!(
        shell.make_connection(&host, second.generation, transport(), String::new()),
        Some(NodeCommand::Snapshot { .. })
    ));
}

#[test]
fn late_updates_change_nothing() {
    let registry = registry(&["box"]);
    let mut shell = started(&registry);
    let generation = connect(&mut shell, &registry, "box");
    let host = HostId::saved("box").unwrap();
    shell.update(NodeUpdate::Snapshot {
        host_id: host.clone(),
        generation: generation + 1,
        workspace_id: "other".into(),
        snapshot: led("other", "other", "other"),
        open_request: None,
    });
    shell.update(NodeUpdate::Error {
        host_id: host.clone(),
        generation: generation + 1,
        message: "late".into(),
        fatal: true,
        open_request: None,
    });
    assert!(shell.is_current(&host, generation));
    assert_eq!(shell.app.workspace_id.as_deref(), Some("box-w"));
    assert_ne!(shell.app.error.as_deref(), Some("late"));
}

#[test]
fn a_machine_that_goes_away_leaves_the_others_as_they_are() {
    let registry = registry(&["box"]);
    let mut shell = started(&registry);
    let generation = connect(&mut shell, &registry, "box");
    let host = HostId::saved("box").unwrap();
    let pane = shell.open_target().unwrap();
    assert!(!pane.replacing);
    shell.start_pane(pane);
    assert_eq!(shell.app.tabs.len(), 2);
    let remote_tab = shell.app.tabs[1].clone();
    shell.update(NodeUpdate::Snapshot {
        host_id: HostId::local(),
        generation: 0,
        workspace_id: "w".into(),
        snapshot: led("studio", "w", "leader"),
        open_request: None,
    });
    assert_eq!(shell.app.selected_host, host);

    shell.update(NodeUpdate::Error {
        host_id: host.clone(),
        generation,
        message: "socket closed".into(),
        fatal: true,
        open_request: None,
    });
    assert!(!shell.is_connected(&host));
    assert!(shell.is_connected(&HostId::local()));
    assert_eq!(shell.app.error.as_deref(), Some("socket closed"));
    assert_eq!(shell.stale, vec![remote_tab.key.clone()]);
    assert!(shell.app.tab_label(&remote_tab).contains("OFFLINE"));
    let local_tab = shell.app.tabs[0].clone();
    assert!(!shell.app.tab_label(&local_tab).contains("OFFLINE"));
    assert_eq!(shell.app.workspace_choices.len(), 2);

    shell.app.select_tab(&remote_tab.key);
    assert!(shell.open_target().is_none());
    assert_eq!(
        shell.app.error.as_deref(),
        Some("cannot open Pi target Ada: target host missing")
    );
}

#[test]
fn a_pane_whose_connection_ended_is_started_again() {
    let registry = registry(&["box"]);
    let mut shell = started(&registry);
    let generation = connect(&mut shell, &registry, "box");
    let host = HostId::saved("box").unwrap();
    let pane = shell.open_target().unwrap();
    shell.start_pane(pane);
    shell.update(NodeUpdate::Error {
        host_id: host.clone(),
        generation,
        message: "socket closed".into(),
        fatal: true,
        open_request: None,
    });
    let again = connect(&mut shell, &registry, "box");
    assert_eq!(again, generation + 1);
    let pane = shell.open_target().unwrap();
    assert!(pane.replacing);
    let key = pane.target.key.clone();
    shell.fail_pane(pane, "no runtime");
    assert_eq!(
        shell.app.error.as_deref(),
        Some("Pi pane unavailable — reselect the tab to retry: no runtime")
    );
    assert!(shell.pane_has_failed());
    assert!(!shell.listens_to(&key));
    shell.app.select_tab(&key);
    let pane = shell.open_target().unwrap();
    shell.start_pane(pane);
    assert!(!shell.pane_has_failed());
    assert!(shell.listens_to(&key));
    assert!(shell.stale.is_empty());
    assert_eq!(shell.app.error, None);
}

#[test]
fn a_session_that_cannot_be_opened_leaves_the_tab_that_was_shown() {
    let registry = registry(&[]);
    let mut shell = started(&registry);
    shell.app.pending_target = Some(ScopedTarget::local(Target {
        session_id: "other".into(),
        workspace_id: "w".into(),
        name: "Bea".into(),
        role: "agent".into(),
        cwd: "/w".into(),
        provider: "pi".into(),
        model: "m".into(),
    }));
    let pane = shell.open_target().unwrap();
    shell.fail_pane(pane, "preserved legacy Pi session data");
    assert_eq!(
        shell.app.error.as_deref(),
        Some("cannot open Pi target Bea: preserved legacy Pi session data")
    );
    assert_eq!(shell.active.session_id, "leader");
    assert_eq!(shell.app.active_target.as_ref().unwrap().target.session_id, "leader");
    assert!(shell.app.pending_target.is_none());
    assert_eq!(shell.app.tabs.len(), 1);
}

#[test]
fn a_draft_waits_for_its_own_session() {
    let registry = registry(&["box"]);
    let mut shell = started(&registry);
    connect(&mut shell, &registry, "box");
    shell.app.pending_followup_draft = Some("go on".into());
    let pane = shell.open_target().unwrap();
    assert_eq!(pane.draft.as_deref(), Some("go on"));
    shell.start_pane(pane);
    assert_eq!(shell.send_draft(false), None);
    let remote = shell.active.clone();
    let local = shell.app.tabs[0].key.clone();
    shell.app.select_tab(&local);
    assert!(shell.open_target().is_none());
    assert_eq!(shell.active, local);
    assert_eq!(shell.send_draft(true), None);
    shell.app.select_tab(&remote);
    assert!(shell.open_target().is_none());
    assert_eq!(shell.send_draft(true).as_deref(), Some("\x1b[200~go on\x1b[201~"));
    assert_eq!(shell.send_draft(true), None);
}

#[test]
fn a_draft_is_kept_while_its_pane_cannot_be_started() {
    let registry = registry(&[]);
    let mut shell = started(&registry);
    shell.draft = Some((shell.active.clone(), "text".into()));
    shell.failed.push(shell.active.clone());
    assert_eq!(shell.send_draft(true), None);
    assert_eq!(
        shell.app.error.as_deref(),
        Some("Pi pane unavailable — reselect the tab to retry")
    );
    assert!(shell.draft.is_some());
}

#[test]
fn workspaces_are_switched_to_or_opened() {
    let registry = registry(&["box"]);
    let mut shell = started(&registry);
    let generation = connect(&mut shell, &registry, "box");
    let host = HostId::saved("box").unwrap();
    let choice = |shell: &Shell, host: &HostId| {
        shell.app.workspace_choices.iter().find(|choice| choice.host_id == *host).unwrap().clone()
    };

    shell.app.picker = true;
    shell.app.pending_workspace = Some(choice(&shell, &HostId::local()));
    assert!(shell.choose_workspace().is_none());
    assert_eq!(shell.app.selected_host, HostId::local());
    assert_eq!(shell.app.workspace_id.as_deref(), Some("w"));
    assert!(!shell.app.picker);

    shell.app.pending_workspace = Some(choice(&shell, &host));
    match shell.choose_workspace() {
        Some(NodeCommand::Open { host_id, request_id, path }) => {
            assert_eq!(host_id, host);
            assert_eq!(path, "/box-w");
            shell.app.workspace_queued(host_id, request_id);
            assert_eq!(shell.app.pending_open, Some(request_id));
            assert_eq!(shell.app.requested_host.as_ref(), Some(&host));
        }
        other => panic!("{other:?}"),
    }

    let connected = choice(&shell, &host);
    shell.update(NodeUpdate::Error {
        host_id: host.clone(),
        generation,
        message: "gone".into(),
        fatal: true,
        open_request: None,
    });
    shell.app.pending_workspace = Some(connected);
    assert!(shell.choose_workspace().is_none());
    assert_eq!(
        shell.app.error.as_deref(),
        Some("box · Host box disconnected before workspace switch")
    );
    shell.app.pending_workspace = Some(choice(&shell, &host));
    assert!(shell.choose_workspace().is_none());
    assert_eq!(
        shell.app.error.as_deref(),
        Some("box · Host box is offline; cached workspace cannot open")
    );
}

fn conversation(agent: &str) -> ArchivedConversation {
    ArchivedConversation {
        workspace_id: "w".into(),
        agent_id: agent.into(),
        session_id: format!("session-{agent}"),
        mission_id: "mission".into(),
        mission_name: "Past work".into(),
        agent_name: "Ada".into(),
        task: "task".into(),
    }
}

#[test]
fn the_archive_is_asked_of_the_machine_that_is_shown() {
    let registry = registry(&[]);
    let mut shell = started(&registry);
    assert!(shell.load_archives().is_none());
    shell.app.archive_load_requested = true;
    match shell.load_archives() {
        Some(NodeCommand::LoadArchives { host_id, workspace_id, cursor, leader }) => {
            assert_eq!(host_id, HostId::local());
            assert_eq!((workspace_id.as_str(), cursor), ("w", None));
            assert_eq!(leader, Some(("Ada".into(), "leader".into())));
        }
        other => panic!("{other:?}"),
    }
    assert!(shell.load_archives().is_none());
    shell.update(NodeUpdate::Archives {
        host_id: HostId::local(),
        generation: 0,
        workspace_id: "w".into(),
        archives: vec![conversation("a"), conversation("b")],
        next_cursor: Some("next".into()),
    });
    assert_eq!(shell.app.archives.len(), 2);
    assert_eq!(shell.app.archive_next_cursor.as_deref(), Some("next"));

    shell.app.pending_archive =
        Some(ArchiveRequest { id: 4, archive: conversation("a"), cursor: None });
    shell.app.active_archive_request = Some(4);
    match shell.load_page() {
        Some(NodeCommand::LoadArchiveTail { request_id, archive, .. }) => {
            assert_eq!((request_id, archive.agent_id.as_str()), (4, "a"));
        }
        other => panic!("{other:?}"),
    }
    shell.update(NodeUpdate::ArchiveTail {
        host_id: HostId::local(),
        generation: 0,
        request_id: 4,
        archive: conversation("a"),
        tail: ConversationTail {
            session_id: "session-a".into(),
            blocks: vec![],
            prev_cursor: None,
            next_cursor: None,
        },
        older: false,
    });
    assert!(shell.app.is_read_only_archive());
    shell.app.pending_archive_export = Some((conversation("a"), "/tmp/a.json".into()));
    assert!(matches!(
        shell.export(),
        Some(NodeCommand::ExportArchive { path, .. }) if path == "/tmp/a.json"
    ));
    shell.update(NodeUpdate::ArchiveExported {
        host_id: HostId::local(),
        generation: 0,
        path: "/tmp/a.json".into(),
    });
    assert_eq!(
        shell.app.error.as_deref(),
        Some("Exported archived session to /tmp/a.json")
    );
    shell.app.begin_followup_preview();
    assert!(matches!(
        shell.load_objective(),
        Some(NodeCommand::FollowupObjective { archive, .. }) if archive.mission_id == "mission"
    ));
    shell.update(NodeUpdate::FollowupFailed {
        host_id: HostId::local(),
        generation: 0,
        message: "no objective".into(),
    });
    assert_eq!(shell.app.error.as_deref(), Some("no objective"));
    shell.update(NodeUpdate::FollowupObjective {
        host_id: HostId::local(),
        generation: 0,
        archive: conversation("a"),
        objective: "the goal".into(),
    });
    assert_eq!(
        shell.app.fixed_preview.as_ref().unwrap().objective.as_deref(),
        Some("the goal")
    );
    shell.app.active_archive_request = Some(4);
    shell.update(NodeUpdate::ArchiveFailed {
        host_id: HostId::local(),
        generation: 0,
        request_id: 4,
        message: "unreadable".into(),
    });
    assert_eq!(shell.app.error.as_deref(), Some("unreadable"));
}

#[test]
fn nothing_is_asked_of_a_machine_that_is_not_there() {
    let registry = registry(&[]);
    let mut shell = started(&registry);
    shell.runtimes = vec![];
    shell.app.archive_load_requested = true;
    assert!(shell.load_archives().is_none());
    assert_eq!(shell.app.error.as_deref(), Some("selected machine is disconnected"));
    shell.app.error = None;
    shell.app.active_archive_request = Some(1);
    shell.app.pending_archive =
        Some(ArchiveRequest { id: 1, archive: conversation("a"), cursor: None });
    assert!(shell.load_page().is_none());
    assert_eq!(shell.app.error.as_deref(), Some("selected machine is disconnected"));
    shell.app.error = None;
    shell.app.pending_archive_export = Some((conversation("a"), "/tmp/a.json".into()));
    assert!(shell.export().is_none());
    assert_eq!(shell.app.error.as_deref(), Some("selected machine is disconnected"));
}

#[test]
fn commands_that_cannot_be_handed_over_are_told() {
    let mut app = App::default();
    app.refuse(Errand::Machine, "full");
    assert_eq!(app.error.as_deref(), Some("cannot queue selected machine: full"));
    app.refuse(Errand::Workspace, "full");
    assert_eq!(app.error.as_deref(), Some("cannot queue workspace switch: full"));
    app.refuse(Errand::Export, "full");
    assert_eq!(app.error.as_deref(), Some("cannot queue archive export: full"));
    app.refuse(Errand::Page(3), "full");
    assert_eq!(app.error.as_deref(), Some("cannot queue archive export: full"));
    app.active_archive_request = Some(3);
    app.refuse(Errand::Page(3), "full");
    assert_eq!(app.error.as_deref(), Some("cannot queue saved transcript: full"));
    app.refuse(Errand::Objective, "full");
    assert_eq!(app.error.as_deref(), Some("cannot queue saved transcript: full"));
}

fn fields(values: [&str; 6]) -> [String; 6] {
    values.map(String::from)
}

#[test]
fn a_machine_is_edited_with_what_is_saved_of_it() {
    let registry = registry(&["box"]);
    let mut app = App::default();
    app.edit_machine(HostId::saved("box").unwrap(), &registry);
    assert_eq!(
        app.add_host_fields,
        fields(["box@example", "Host box", "/box/.neta", "/box/project", "", "/bin/neta"])
    );
    assert!(app.add_host_form);
    app.edit_machine(HostId::local(), &registry);
    assert_eq!(app.error.as_deref(), Some("Local machine cannot be edited"));
    app.edit_machine(HostId::saved("gone").unwrap(), &registry);
    assert_eq!(app.error.as_deref(), Some("saved machine no longer exists"));
}

#[test]
fn a_form_describes_a_host() {
    let registry = registry(&["box"]);
    let mut app = App::default();
    let submission = HostFormSubmission {
        editing: None,
        fields: fields(["a@b", " ", "/neta", "", "/cfg", "/bin/neta"]),
    };
    match app.take_form(submission, &registry, "host-1") {
        FormStep::Save { host, editing } => {
            assert!(!editing);
            assert_eq!((host.id.as_str(), host.display_name.as_str()), ("host-1", "a@b"));
            assert_eq!(host.ssh_config.as_deref(), Some("/cfg"));
            assert_eq!(host.last_remote_workspace_path, None);
            assert!(host.remote_launcher.unwrap().args.is_empty());
        }
        _ => panic!("the form was not taken"),
    }
    let submission = HostFormSubmission {
        editing: Some(HostId::saved("box").unwrap()),
        fields: fields(["a@b", "Box", "/neta", "/p", "", "/bin/other"]),
    };
    match app.take_form(submission, &registry, "host-2") {
        FormStep::Save { host, editing } => {
            assert!(editing);
            assert_eq!(host.id, "box");
            assert_eq!(host.remote_launcher.unwrap().args, vec!["--quiet"]);
        }
        _ => panic!("the form was not taken"),
    }
    let submission = HostFormSubmission {
        editing: None,
        fields: fields(["a@b", "", "neta", "", "", ""]),
    };
    assert!(matches!(app.take_form(submission, &registry, "x"), FormStep::Done));
    assert_eq!(
        app.error.as_deref(),
        Some("remote NETA dir and workspace must be absolute remote paths")
    );
}

#[test]
fn the_home_of_a_machine_is_looked_for_once() {
    let registry = registry(&[]);
    let mut app = App::default();
    app.open_add_host();
    let submission = || HostFormSubmission {
        editing: None,
        fields: fields(["a@b", "", " ", "", "", ""]),
    };
    let request = match app.take_form(submission(), &registry, "x") {
        FormStep::Discover { request, submission } => {
            assert_eq!(submission.fields[0], "a@b");
            request
        }
        _ => panic!("the home is not looked for"),
    };
    assert!(matches!(app.take_form(submission(), &registry, "x"), FormStep::Done));
    app.find_home(request + 1, submission(), Ok("/home/a".into()));
    assert!(app.pending_add_host.is_none());
    app.find_home(request, submission(), Ok("/home/a".into()));
    assert_eq!(app.take_add_host().unwrap().fields[2], "/home/a/.neta");

    let request = match app.take_form(submission(), &registry, "x") {
        FormStep::Discover { request, .. } => request,
        _ => panic!("the home is not looked for"),
    };
    app.find_home(request, submission(), Err("timed out".into()));
    assert_eq!(
        app.error.as_deref(),
        Some("could not discover remote home: timed out")
    );
    assert_eq!(app.add_host_fields[0], "a@b");
}

#[test]
fn an_edited_machine_starts_anew() {
    let mut registry = registry(&["box"]);
    let mut shell = started(&registry);
    let generation = connect(&mut shell, &registry, "box");
    let host = HostId::saved("box").unwrap();
    let pane = shell.open_target().unwrap();
    shell.start_pane(pane);
    assert_eq!(shell.active.host_id, host);
    let mut changed = saved("box");
    changed.display_name = "Renamed".into();
    registry.update("box", changed).unwrap();
    assert!(shell.save_machine(&host, true, &registry));
    assert!(!shell.is_connected(&host));
    assert_eq!(shell.active.session_id, "leader");
    assert_eq!(shell.drivers.len(), 1);
    assert_eq!(shell.app.hosts[1].label, "Renamed");
    assert!(!shell.app.add_host_form);
    assert!(shell
        .make_connection(&host, generation, transport(), String::new())
        .is_none());
}

#[test]
fn a_forgotten_machine_is_gone_from_the_list() {
    let mut registry = registry(&["box"]);
    let mut shell = started(&registry);
    connect(&mut shell, &registry, "box");
    let host = HostId::saved("box").unwrap();
    assert_eq!(shell.app.removal(&host).as_deref(), Some("box"));
    registry.remove("box").unwrap();
    assert!(shell.forget_machine(&host, &registry));
    assert_eq!(shell.app.hosts.len(), 1);
    assert_eq!(
        shell.app.error.as_deref(),
        Some("Forgot saved SSH connection; remote files and service were not changed")
    );
    assert_eq!(shell.app.removal(&HostId::local()), None);
    assert_eq!(shell.app.error.as_deref(), Some("Local machine cannot be removed"));
}

#[test]
fn diagnostics_are_taken_of_machines_with_a_fresh_snapshot() {
    let registry = registry(&["box"]);
    let mut shell = started(&registry);
    shell.runtimes.push((
        HostId::saved("box").unwrap(),
        Runtime { generation: 1, transport: transport(), fresh: false, workspace_id: None },
    ));
    let inputs = shell.diagnostics_hosts();
    assert_eq!(inputs.len(), 2);
    assert_eq!((inputs[0].id.as_str(), inputs[0].unavailable.as_deref()), ("local", None));
    assert_eq!(inputs[1].unavailable.as_deref(), Some("no fresh snapshot"));
    assert!(inputs[1].client.is_none());
    assert_eq!(export_place("/tmp/d".into(), true), "/tmp/d");
    assert_eq!(export_place("/tmp/d".into(), false), "/tmp/d (partial)");
}

#[test]
fn a_snapshot_without_a_workspace_opens_the_picker() {
    let registry = registry(&[]);
    let mut shell = started(&registry);
    let mut busy = led("studio", "w", "leader");
    busy.missions.push(Mission {
        id: "m".into(),
        number: 1,
        workspace_id: "w".into(),
        name: "M".into(),
        state: "running".into(),
        attention: None,
        created_at: "2026-09-01T10:00:00Z".into(),
        worktree: None,
        lead: MissionLead::Leader,
        agent_ids: vec!["a".into()],
    });
    busy.agents.push(Agent {
        id: "a".into(),
        mission_id: "m".into(),
        session_id: "s".into(),
        name: "Bea".into(),
        task: "t".into(),
        state: "running".into(),
        provider: "pi".into(),
        model: "m".into(),
    });
    shell.update(NodeUpdate::Snapshot {
        host_id: HostId::local(),
        generation: 0,
        workspace_id: String::new(),
        snapshot: busy,
        open_request: None,
    });
    assert!(shell.app.picker);
    assert!(shell.app.nav_focused);
    assert_eq!(shell.app.workspace_id, None);
    assert!(shell.app.active_target.is_none());
    assert_eq!(shell.app.workspace_choices[0].running, 1);
}
