use neta::app::{
    App, ArchiveRequest, ArchivedConversation, FollowupPreview, HostChoice, HostFormSubmission,
    SavedTranscript, StatusFilter, WorkspaceChoice,
};
use neta::geometry::Rect;
use neta::hosts::{HostId, ScopedTarget};
use neta::protocol::{
    Agent, BridgeEvent, Leader, Machine, Mission, MissionLead, Snapshot, Target, Workspace,
    WorkspaceRoot,
};
use neta::screen::render_buffer;
use neta::spine::RowKind;
use ratatui_rmux::PaneState;


fn target(session_id: &str, workspace_id: &str) -> ScopedTarget {
    ScopedTarget::local(Target {
        session_id: session_id.into(),
        workspace_id: workspace_id.into(),
        name: session_id.into(),
        role: "agent".into(),
        cwd: "/tmp".into(),
        provider: "pi".into(),
        model: "m".into(),
    })
}

fn spine_snapshot(missions: Vec<(&str, u64, &str)>) -> Snapshot {
    let agents = missions
        .iter()
        .map(|(id, _, _)| Agent {
            id: format!("agent-{id}"),
            mission_id: (*id).into(),
            session_id: format!("session-{id}"),
            name: format!("Agent {id}"),
            task: format!("task {id}"),
            state: "running".into(),
            provider: "fake".into(),
            model: "test".into(),
        })
        .collect();
    Snapshot {
        machine: Machine {
            name: "local".into(),
        },
        workspaces: vec![Workspace {
            id: "workspace".into(),
            name: "repo".into(),
            roots: vec![WorkspaceRoot {
                machine_id: None,
                path: "/repo".into(),
            }],
        }],
        leaders: vec![Leader {
            workspace_id: "workspace".into(),
            session_id: "leader-session".into(),
            name: "Leader".into(),
            state: "idle".into(),
            provider: "fake".into(),
            model: "test".into(),
        }],
        missions: missions
            .into_iter()
            .map(|(id, number, created_at)| Mission {
                id: id.into(),
                number,
                workspace_id: "workspace".into(),
                name: format!("Mission {id}"),
                state: "running".into(),
                attention: None,
                created_at: created_at.into(),
                worktree: None,
                lead: MissionLead::Agent {
                    agent_id: format!("agent-{id}"),
                },
                agent_ids: vec![format!("agent-{id}")],
            })
            .collect(),
        agents,
    }
}

fn shared_session_snapshot(leader_a: &str, agent_a: &str) -> Snapshot {
    Snapshot {
        machine: Machine {
            name: "local".into(),
        },
        workspaces: vec![
            Workspace {
                id: "workspace-a".into(),
                name: "A".into(),
                roots: vec![WorkspaceRoot {
                    machine_id: None,
                    path: "/a".into(),
                }],
            },
            Workspace {
                id: "workspace-b".into(),
                name: "B".into(),
                roots: vec![WorkspaceRoot {
                    machine_id: None,
                    path: "/b".into(),
                }],
            },
        ],
        // Put B first: raw session matching must still choose A for an A tab.
        leaders: vec![
            Leader {
                workspace_id: "workspace-b".into(),
                session_id: "shared-leader".into(),
                name: "Leader B".into(),
                state: "idle".into(),
                provider: "fake".into(),
                model: "test".into(),
            },
            Leader {
                workspace_id: "workspace-a".into(),
                session_id: leader_a.into(),
                name: "Leader A".into(),
                state: "idle".into(),
                provider: "fake".into(),
                model: "test".into(),
            },
        ],
        missions: vec![
            Mission {
                id: "mission-b".into(),
                number: 2,
                workspace_id: "workspace-b".into(),
                name: "B".into(),
                state: "running".into(),
                attention: None,
                created_at: "2026-09-01T00:00:00Z".into(),
                worktree: None,
                lead: MissionLead::Agent {
                    agent_id: "agent-b".into(),
                },
                agent_ids: vec!["agent-b".into()],
            },
            Mission {
                id: "mission-a".into(),
                number: 1,
                workspace_id: "workspace-a".into(),
                name: "A".into(),
                state: "running".into(),
                attention: None,
                created_at: "2026-09-01T00:00:00Z".into(),
                worktree: None,
                lead: MissionLead::Agent {
                    agent_id: "agent-a".into(),
                },
                agent_ids: vec!["agent-a".into()],
            },
        ],
        agents: vec![
            Agent {
                id: "agent-b".into(),
                mission_id: "mission-b".into(),
                session_id: "shared-agent".into(),
                name: "Agent B".into(),
                task: "B".into(),
                state: "running".into(),
                provider: "fake".into(),
                model: "test".into(),
            },
            Agent {
                id: "agent-a".into(),
                mission_id: "mission-a".into(),
                session_id: agent_a.into(),
                name: "Agent A".into(),
                task: "A".into(),
                state: "running".into(),
                provider: "fake".into(),
                model: "test".into(),
            },
        ],
    }
}

#[test]
fn rebind_scopes_shared_leader_sessions_to_the_active_workspace_and_host() {
    let local = HostId::local();
    let remote = HostId::saved("remote").unwrap();
    let current = shared_session_snapshot("shared-leader", "shared-agent");
    let mut app = App::default();
    app.replace_snapshot_for_host(&local, current.clone());
    app.active_target = Some(ScopedTarget::local(current.leader_target("workspace-a").unwrap()));

    let mut b_reset = current.clone();
    b_reset.leaders[0].session_id = "leader-b-reset".into();
    app.replace_snapshot_for_host(&local, b_reset);
    assert!(app.take_target().is_none());

    let a_reset = shared_session_snapshot("leader-a-reset", "shared-agent");
    app.replace_snapshot_for_host(&local, a_reset.clone());
    let replacement = app.take_target().unwrap();
    assert_eq!(replacement.target.workspace_id, "workspace-a");
    assert_eq!(replacement.target.session_id, "leader-a-reset");

    app.active_target = Some(ScopedTarget::local(current.leader_target("workspace-a").unwrap()));
    app.replace_snapshot_for_host(&local, current);
    app.replace_snapshot_for_host(&remote, a_reset);
    assert!(app.take_target().is_none());
}

#[test]
fn rebind_scopes_shared_agent_sessions_to_the_active_workspace() {
    let local = HostId::local();
    let current = shared_session_snapshot("shared-leader", "shared-agent");
    let mut app = App::default();
    app.replace_snapshot_for_host(&local, current.clone());
    app.active_target = Some(ScopedTarget::local(current.agent_target("agent-a").unwrap()));

    let mut b_reset = current.clone();
    b_reset.agents[0].session_id = "agent-b-reset".into();
    app.replace_snapshot_for_host(&local, b_reset);
    assert!(app.take_target().is_none());

    let a_reset = shared_session_snapshot("shared-leader", "agent-a-reset");
    app.replace_snapshot_for_host(&local, a_reset);
    let replacement = app.take_target().unwrap();
    assert_eq!(replacement.target.workspace_id, "workspace-a");
    assert_eq!(replacement.target.session_id, "agent-a-reset");
}
#[test]
fn empty_shell_exposes_open_project_and_shortcuts() {
    let mut app = App::default();
    let pane = PaneState::default();
    let buffer = render_buffer(&mut app, &pane, Rect::new(0, 0, 120, 30));
    let text: String = buffer.content().iter().map(|cell| cell.symbol()).collect();
    assert!(text.contains("Open project"));
    assert!(text.contains("Ctrl+Q quit"));
    assert!(text.contains("Workspace leader"));
}

#[test]
fn archive_export_uses_the_loaded_archive_identity_and_cancel_clears_its_path() {
    let mut app = App::default();
    let archive = ArchivedConversation {
        workspace_id: "workspace".into(),
        agent_id: "agent".into(),
        session_id: "session".into(),
        mission_id: "mission".into(),
        mission_name: "Mission".into(),
        agent_name: "Ada".into(),
        task: "task".into(),
    };
    app.saved_transcript = Some(SavedTranscript {
        archive: archive.clone(),
        blocks: vec![],
        prev_cursor: Some("older".into()),
    });
    app.begin_archive_export("/tmp/session.json".into());
    app.submit_archive_export();
    assert_eq!(app.take_archive_export().unwrap().0.session_id, "session");
    app.begin_archive_export("/tmp/cancel.json".into());
    app.clear_saved_transcript();
    assert!(app.export_path.is_none());
    assert!(app.take_archive_export().is_none());
}

#[test]
fn diagnostics_export_modal_keeps_its_action_and_destination_visible_on_small_terminals() {
    let mut app = App::default();
    app.begin_diagnostics_export("/very/long/path/that/ends/in/session-diagnostics".into());
    let pane = PaneState::default();
    for area in [Rect::new(0, 0, 80, 24), Rect::new(0, 0, 40, 24)] {
        let buffer = render_buffer(&mut app, &pane, area);
        let text: String = buffer.content().iter().map(|cell| cell.symbol()).collect();
        assert!(text.contains("DIAGNOSTICS EXPORT"));
        assert!(text.contains("Destination:"));
        assert!(text.contains("Enter exports"));
        assert!(text.contains("session-diagnostics"));
    }
}

#[test]
fn diagnostics_export_results_are_visible_in_the_footer_without_overflowing_it() {
    let pane = PaneState::default();
    for result in [
        Ok("/tmp/diagnostics".into()),
        Ok("/tmp/diagnostics (partial)".into()),
        Err("remote cleanup timed out while exporting diagnostics".into()),
    ] {
        let mut app = App::default();
        app.diagnostics_exporting = true;
        app.finish_diagnostics_export(result);
        for area in [Rect::new(0, 0, 80, 24), Rect::new(0, 0, 40, 24)] {
            let buffer = render_buffer(&mut app, &pane, area);
            let text: String = buffer.content().iter().map(|cell| cell.symbol()).collect();
            assert!(text.contains("diagnostics"));
            assert!(text.contains("Exported") || text.contains("failed"));
        }
    }
}

#[test]
fn launch_failure_is_visible_in_the_footer() {
    let mut app = App::default();
    app.error = Some("cannot open Pi target Ada: preserved legacy Pi session data".into());
    let buffer = render_buffer(&mut app, &PaneState::default(), Rect::new(0, 0, 120, 30));
    let text: String = buffer.content().iter().map(|cell| cell.symbol()).collect();
    assert!(text.contains("cannot open Pi target Ada"));
}

#[test]
fn pane_breadcrumb_and_tabs_attribute_duplicate_agent_names_to_hosts() {
    let local = HostId::local();
    let remote = HostId::saved("remote").unwrap();
    let mut app = App::default();
    app.hosts = vec![
        HostChoice {
            id: local.clone(),
            label: "Local machine".into(),
        },
        HostChoice {
            id: remote.clone(),
            label: "Remote host".into(),
        },
    ];
    let mut snapshot = spine_snapshot(vec![("mission", 1, "2026-09-01T10:00:00Z")]);
    snapshot.machine.name = "studio".into();
    snapshot.workspaces[0].name = "neta".into();
    snapshot.missions[0].name = "Picker repair".into();
    snapshot.agents[0].name = "Ada".into();
    let local_target = ScopedTarget::new(
        local.clone(),
        Target {
            session_id: "session-mission".into(),
            workspace_id: "workspace".into(),
            name: "Ada".into(),
            role: "agent".into(),
            cwd: "/repo".into(),
            provider: "fake".into(),
            model: "test".into(),
        },
    )
    .unwrap();
    let remote_target = ScopedTarget::new(
        remote.clone(),
        Target {
            session_id: "session-mission".into(),
            workspace_id: "workspace".into(),
            name: "Ada".into(),
            role: "agent".into(),
            cwd: "/repo".into(),
            provider: "fake".into(),
            model: "test".into(),
        },
    )
    .unwrap();
    app.snapshot = Some(snapshot);
    app.set_live_hosts(vec![local.clone(), remote.clone()]);
    app.add_tab(local_target);
    let local_snapshot = app.snapshot.clone().unwrap();
    app.sync_tab_presentations(&local, &local_snapshot);
    app.tabs.push(remote_target.clone());
    let mut remote_snapshot = app.snapshot.clone().unwrap();
    remote_snapshot.machine.name = "remote-node".into();
    app.sync_tab_presentations(&remote, &remote_snapshot);
    let pane = PaneState::default();
    let buffer = render_buffer(&mut app, &pane, Rect::new(0, 0, 120, 30));
    let text: String = buffer.content().iter().map(|cell| cell.symbol()).collect();
    assert!(
        text.contains("neta / studio / #1 Picker repair / Ada · Mission lead · RUNNING"),
        "{text}"
    );
    assert!(text.contains("Ada · #1 · RUNNING"));
    assert!(app.tab_label(&remote_target).contains("@Remote host"));

    app.select_tab(&remote_target.key);
    let buffer = render_buffer(&mut app, &pane, Rect::new(0, 0, 40, 20));
    let narrow: String = buffer.content().iter().map(|cell| cell.symbol()).collect();
    assert!(narrow.contains("Ada"));
    assert!(narrow.contains("#1"));
    assert!(narrow.contains("RUNNING"));
}

#[test]
fn tab_presentations_are_host_workspace_scoped_and_recover_from_offline() {
    let host = HostId::saved("remote").unwrap();
    let mut app = App::default();
    app.hosts = vec![HostChoice {
        id: host.clone(),
        label: "Remote host".into(),
    }];
    app.set_live_hosts(vec![host.clone()]);
    let mut snapshot = spine_snapshot(vec![("one", 3, "2026-09-01T10:00:00Z")]);
    snapshot.machine.name = "remote-node".into();
    snapshot.agents[0].session_id = "shared".into();
    snapshot.agents[0].name = "Sol".into();
    let target = ScopedTarget::new(
        host.clone(),
        Target {
            session_id: "shared".into(),
            workspace_id: "workspace".into(),
            name: "Sol".into(),
            role: "agent".into(),
            cwd: "/repo".into(),
            provider: "pi".into(),
            model: "m".into(),
        },
    )
    .unwrap();
    app.add_tab(target.clone());

    let mut wrong_workspace = snapshot.clone();
    wrong_workspace.missions[0].workspace_id = "other-workspace".into();
    app.sync_tab_presentations(&host, &wrong_workspace);
    assert_eq!(app.tab_label(&target), "Sol · UNKNOWN");

    app.sync_tab_presentations(&host, &snapshot);
    assert_eq!(app.tab_label(&target), "Sol · #3 · RUNNING");
    snapshot.agents[0].state = "blocked".into();
    app.sync_tab_presentations(&host, &snapshot);
    assert_eq!(app.tab_label(&target), "Sol · #3 · NEEDS YOU");

    app.mark_tabs_offline(&host);
    assert_eq!(app.tab_label(&target), "Sol · #3 · OFFLINE");
    app.set_live_hosts(vec![host.clone()]);
    app.sync_tab_presentations(&host, &snapshot);
    assert_eq!(app.tab_label(&target), "Sol · #3 · NEEDS YOU");
    assert!(app
        .overflow_tab_label(&target)
        .contains("@Remote host / repo"));
}

#[test]
fn three_tabs_keep_background_host_state_and_workspace_scoped_sessions_separate() {
    let local = HostId::local();
    let remote = HostId::saved("remote").unwrap();
    let mut app = App::default();
    app.hosts = vec![
        HostChoice {
            id: local.clone(),
            label: "Local".into(),
        },
        HostChoice {
            id: remote.clone(),
            label: "Remote".into(),
        },
    ];
    app.set_live_hosts(vec![local.clone(), remote.clone()]);
    let local_target = target("local-session", "workspace");
    let local_snapshot = spine_snapshot(vec![("local", 1, "2026-09-01T10:00:00Z")]);
    let mut remote_snapshot = spine_snapshot(vec![("one", 3, "2026-09-01T10:00:00Z")]);
    remote_snapshot.machine.name = "remote-node".into();
    remote_snapshot.agents[0].session_id = "shared".into();
    remote_snapshot.agents[0].name = "Sol".into();
    let mut second_workspace = remote_snapshot.workspaces[0].clone();
    second_workspace.id = "other".into();
    second_workspace.name = "other-repo".into();
    remote_snapshot.workspaces.push(second_workspace);
    let mut second_mission = remote_snapshot.missions[0].clone();
    second_mission.id = "two".into();
    second_mission.workspace_id = "other".into();
    second_mission.number = 4;
    second_mission.agent_ids = vec!["agent-two".into()];
    remote_snapshot.missions.push(second_mission);
    let mut second_agent = remote_snapshot.agents[0].clone();
    second_agent.id = "agent-two".into();
    second_agent.mission_id = "two".into();
    second_agent.name = "Terra".into();
    second_agent.state = "waiting".into();
    remote_snapshot.agents.push(second_agent);
    let remote_one = ScopedTarget::new(
        remote.clone(),
        Target {
            session_id: "shared".into(),
            workspace_id: "workspace".into(),
            name: "Sol".into(),
            role: "agent".into(),
            cwd: "/remote".into(),
            provider: "pi".into(),
            model: "m".into(),
        },
    )
    .unwrap();
    let remote_two = ScopedTarget::new(
        remote.clone(),
        Target {
            session_id: "shared".into(),
            workspace_id: "other".into(),
            name: "Terra".into(),
            role: "agent".into(),
            cwd: "/remote".into(),
            provider: "pi".into(),
            model: "m".into(),
        },
    )
    .unwrap();
    assert_ne!(remote_one.key, remote_two.key);
    app.add_tab(local_target.clone());
    app.sync_tab_presentations(&local, &local_snapshot);
    app.tabs.push(remote_one.clone());
    app.tabs.push(remote_two.clone());
    app.sync_tab_presentations(&remote, &remote_snapshot);
    assert_eq!(app.tab_label(&remote_one), "Sol · #3 · RUNNING");
    assert_eq!(app.tab_label(&remote_two), "Terra · #4 · RUNNING");
    let local_before = app.tab_label(&local_target);
    remote_snapshot.agents[0].state = "blocked".into();
    app.sync_tab_presentations(&remote, &remote_snapshot);
    assert_eq!(app.tab_label(&remote_one), "Sol · #3 · NEEDS YOU");
    assert_eq!(app.tab_label(&local_target), local_before);
    app.mark_tabs_offline(&remote);
    assert_eq!(app.tab_label(&remote_one), "Sol · #3 · OFFLINE");
    assert_eq!(app.tab_label(&remote_two), "Terra · #4 · OFFLINE");
    app.sync_tab_presentations(&remote, &remote_snapshot);
    assert_eq!(app.tab_label(&remote_one), "Sol · #3 · NEEDS YOU");
    assert_eq!(app.tab_label(&remote_two), "Terra · #4 · RUNNING");
    assert!(app.overflow_tab_label(&remote_one).contains("/ repo"));
    assert!(app.overflow_tab_label(&remote_two).contains("/ other-repo"));
}

#[test]
fn pane_geometry_matches_fresh_outer_terminal_size() {
    assert_eq!(
        App::initial_pane_area(Rect::new(0, 0, 100, 30)),
        Rect::new(28, 5, 71, 22)
    );
    assert_eq!(
        App::initial_pane_area(Rect::new(0, 0, 188, 51)),
        Rect::new(45, 5, 142, 43)
    );
}

#[test]
fn narrow_terminal_switches_between_full_width_navigation_and_pane() {
    let mut app = App::default();
    let pane = PaneState::default();
    let area = Rect::new(0, 0, 40, 24);

    render_buffer(&mut app, &pane, area);
    assert_eq!(app.pane_area, Rect::new(1, 5, 38, 16));
    assert_eq!(app.sidebar_area.width, 0);

    app.nav_focused = true;
    render_buffer(&mut app, &pane, area);
    assert_eq!(app.pane_area.width, 0);
    assert_eq!(app.sidebar_area, Rect::new(0, 3, 40, 19));
    assert!(app.status_filter_at((1, 4)));
    assert!(!app.status_filter_at((1, 5)));
}

#[test]
fn footer_makes_focus_and_blocked_input_explicit_at_wide_and_compact_widths() {
    let pane = PaneState::default();
    let mut app = App::default();
    app.set_live_hosts(vec![HostId::local()]);

    let wide = render_buffer(&mut app, &pane, Rect::new(0, 0, 120, 30));
    let wide_text: String = wide.content().iter().map(|cell| cell.symbol()).collect();
    assert!(wide_text.contains("PI FOCUSED · keys go to Pi"));
    assert!(wide_text.contains("Ctrl+Space navigation"));
    assert!(wide_text.contains("Ctrl+Q quit"));

    let compact = render_buffer(&mut app, &pane, Rect::new(0, 0, 40, 24));
    let compact_rows = [22, 23].map(|y| {
        (0..40)
            .map(|x| compact.cell((x, y)).expect("footer cell").symbol())
            .collect::<String>()
    });
    assert_eq!(compact_rows[0].trim(), "PI FOCUSED · keys go to Pi");
    assert_eq!(compact_rows[1].trim(), "Ctrl+Space nav  Ctrl+Q quit");
    let compact_status = |app: &mut App, expected: &str| {
        let buffer = render_buffer(app, &pane, Rect::new(0, 0, 40, 24));
        let row: String = (0..40)
            .map(|x| buffer.cell((x, 22)).expect("status cell").symbol())
            .collect();
        assert_eq!(row.trim(), expected);
    };

    app.nav_focused = true;
    let navigation = render_buffer(&mut app, &pane, Rect::new(0, 0, 40, 24));
    let navigation_text: String = navigation
        .content()
        .iter()
        .map(|cell| cell.symbol())
        .collect();
    assert!(navigation_text.contains("NAVIGATION · keys navigate"));
    assert!(!navigation_text.contains("PI FOCUSED · keys go to Pi"));

    app.picker = true;
    app.help = true;
    let picker = render_buffer(&mut app, &pane, Rect::new(0, 0, 120, 30));
    let picker_text: String = picker.content().iter().map(|cell| cell.symbol()).collect();
    assert!(picker_text.contains("WORKSPACE PICKER · input is captured"));
    assert!(!picker_text.contains("HELP OPEN · Esc closes help"));
    compact_status(&mut app, "WORKSPACE PICKER · input captured");

    app.host_picker = true;
    let machine_picker = render_buffer(&mut app, &pane, Rect::new(0, 0, 120, 30));
    let machine_picker_text: String = machine_picker
        .content()
        .iter()
        .map(|cell| cell.symbol())
        .collect();
    assert!(machine_picker_text.contains("MACHINE PICKER · input is captured"));
    compact_status(&mut app, "MACHINE PICKER · input captured");
    app.host_picker = false;
    app.picker_path_mode = true;
    let path_picker = render_buffer(&mut app, &pane, Rect::new(0, 0, 120, 30));
    let path_picker_text: String = path_picker
        .content()
        .iter()
        .map(|cell| cell.symbol())
        .collect();
    assert!(path_picker_text.contains("PROJECT PATH · input is captured"));
    compact_status(&mut app, "PROJECT PATH · input captured");

    app.picker = false;
    app.picker_path_mode = false;
    let help = render_buffer(&mut app, &pane, Rect::new(0, 0, 120, 30));
    let help_text: String = help.content().iter().map(|cell| cell.symbol()).collect();
    assert!(help_text.contains("HELP OPEN · Esc closes help"));
    compact_status(&mut app, "HELP OPEN · Esc closes help");

    app.help = false;
    app.fixed_preview = Some(FollowupPreview {
        archive: ArchivedConversation {
            workspace_id: "workspace".into(),
            agent_id: "agent".into(),
            session_id: "session".into(),
            mission_id: "mission".into(),
            mission_name: "Mission".into(),
            agent_name: "Ada".into(),
            task: "task".into(),
        },
        host_id: HostId::local(),
        objective: None,
    });
    let followup = render_buffer(&mut app, &pane, Rect::new(0, 0, 120, 30));
    let followup_text: String = followup
        .content()
        .iter()
        .map(|cell| cell.symbol())
        .collect();
    assert!(followup_text.contains("FOLLOW-UP PREVIEW · Enter sends · Esc cancels"));
    compact_status(&mut app, "FOLLOW-UP · Enter send · Esc cancel");

    app.fixed_preview = None;
    app.export_path = Some("/tmp/archive.json".into());
    let export = render_buffer(&mut app, &pane, Rect::new(0, 0, 120, 30));
    let export_text: String = export.content().iter().map(|cell| cell.symbol()).collect();
    assert!(export_text.contains("ARCHIVE EXPORT · path input is captured"));
    compact_status(&mut app, "ARCHIVE EXPORT · path input captured");

    app.export_path = None;
    app.tab_overflow_open = true;
    let tab_picker = render_buffer(&mut app, &pane, Rect::new(0, 0, 120, 30));
    let tab_picker_text: String = tab_picker
        .content()
        .iter()
        .map(|cell| cell.symbol())
        .collect();
    assert!(tab_picker_text.contains("TAB PICKER · ↑↓ select · Enter opens"));
    compact_status(&mut app, "TAB PICKER · ↑↓ select · Enter opens");

    app.tab_overflow_open = false;
    app.archive_loading = true;
    let archive = render_buffer(&mut app, &pane, Rect::new(0, 0, 120, 30));
    let archive_text: String = archive.content().iter().map(|cell| cell.symbol()).collect();
    assert!(archive_text.contains("ARCHIVE READ-ONLY"));
    compact_status(&mut app, "ARCHIVE READ-ONLY · ↑↓ scroll");

    app.archive_loading = false;
    app.nav_focused = false;
    app.selected_host = HostId::saved("offline").unwrap();
    app.workspace_choices = vec![WorkspaceChoice {
        host_id: app.selected_host.clone(),
        workspace_id: "workspace".into(),
        name: "repo".into(),
        path: "/repo".into(),
        host_label: "offline".into(),
        connected: false,
        running: 0,
        needs_you: 0,
    }];
    let offline = render_buffer(&mut app, &pane, Rect::new(0, 0, 120, 30));
    let offline_text: String = offline.content().iter().map(|cell| cell.symbol()).collect();
    assert!(offline_text.contains("MACHINE OFFLINE · Pi input paused"));
    assert!(!offline_text.contains("PI FOCUSED · keys go to Pi"));
    compact_status(&mut app, "MACHINE OFFLINE · Pi input paused");
}

#[test]
fn copy_view_uses_the_full_terminal_without_neta_chrome() {
    let mut app = App::default();
    let pane = PaneState::default();
    let area = Rect::new(0, 0, 80, 24);
    app.enter_copy_view();
    let buffer = render_buffer(&mut app, &pane, area);
    let text: String = buffer.content().iter().map(|cell| cell.symbol()).collect();
    assert_eq!(app.pane_area, area);
    assert_eq!(app.sidebar_area, Rect::default());
    assert!(!text.contains("workspace"));
    assert!(!text.contains("Ctrl+Q"));
    assert!(!text.contains("local Pi"));
    app.leave_copy_view();
    render_buffer(&mut app, &pane, area);
    assert!(!app.copy_view);
    assert!(app.nav_focused);
    assert!(app.pane_area.width < area.width);
}

#[test]
fn snapshot_insertion_preserves_the_selected_mission_by_identity() {
    let mut app = App::default();
    app.workspace_id = Some("workspace".into());
    app.snapshot = Some(spine_snapshot(vec![
        ("old", 1, "2026-09-01T10:00:00Z"),
        ("current", 2, "2026-09-02T10:00:00Z"),
    ]));
    // NOW is index 0; newest-first places `old` at index 2.
    app.cursor = 2;
    app.replace_snapshot(spine_snapshot(vec![
        ("old", 1, "2026-09-01T10:00:00Z"),
        ("current", 2, "2026-09-02T10:00:00Z"),
        ("new", 3, "2026-09-03T10:00:00Z"),
    ]));
    let rows_after_snapshot = app.rows();
    let mission_ids: Vec<_> = rows_after_snapshot
        .iter()
        .filter_map(|row| match &row.kind {
            RowKind::Mission(id) => Some(id.as_str()),
            _ => None,
        })
        .collect();
    assert_eq!(mission_ids, vec!["new", "current", "old"]);
    assert_eq!(rows_after_snapshot[1].date.as_deref(), Some("2026-09-03"));
    assert!(
        matches!(rows_after_snapshot[app.cursor].kind, RowKind::Mission(ref id) if id == "old")
    );
}

#[test]
fn status_filter_selects_mixed_spine_states_and_keeps_archives_reachable() {
    let mut app = App::default();
    app.workspace_id = Some("workspace".into());
    app.snapshot = Some(spine_snapshot(vec![
        ("running", 1, "2026-09-03T10:00:00Z"),
        ("blocked", 2, "2026-09-02T10:00:00Z"),
        ("done", 3, "2026-09-01T10:00:00Z"),
    ]));
    if let Some(snapshot) = &mut app.snapshot {
        snapshot
            .missions
            .iter_mut()
            .find(|m| m.id == "blocked")
            .unwrap()
            .state = "blocked".into();
        snapshot
            .missions
            .iter_mut()
            .find(|m| m.id == "done")
            .unwrap()
            .state = "closed".into();
    }
    app.cursor = 2;
    app.cycle_status_filter();
    assert_eq!(app.status_filter, StatusFilter::Running);
    assert!(app.rows().iter().all(
        |row| !matches!(&row.kind, RowKind::Mission(id) if id == "blocked" || id == "done")
    ));
    app.cycle_status_filter();
    assert_eq!(app.status_filter, StatusFilter::NeedsYou);
    assert!(app
        .rows()
        .iter()
        .any(|row| matches!(&row.kind, RowKind::Mission(id) if id == "blocked")));
    assert!(!app
        .rows()
        .iter()
        .any(|row| matches!(&row.kind, RowKind::Mission(id) if id == "running")));
    app.archives.push(ArchivedConversation {
        workspace_id: "workspace".into(),
        agent_id: "archived-agent".into(),
        session_id: "s".into(),
        mission_id: "m".into(),
        mission_name: "mission".into(),
        agent_name: "agent".into(),
        task: "task".into(),
    });
    app.archived_expanded = true;
    app.status_filter = StatusFilter::Running;
    assert!(!app
        .rows()
        .iter()
        .any(|row| matches!(&row.kind, RowKind::ArchivedAgent(_))));
    app.status_filter = StatusFilter::NeedsYou;
    app.cycle_status_filter();
    assert_eq!(app.status_filter, StatusFilter::Archived);
    assert!(app
        .rows()
        .iter()
        .any(|row| matches!(&row.kind, RowKind::ArchivedAgent(id) if id == "archived-agent")));
    assert!(matches!(app.rows()[app.cursor].kind, RowKind::ArchiveGroup));
}

#[test]
fn header_counts_every_attention_state_in_the_selected_workspace() {
    let mut app = App::default();
    app.workspace_id = Some("workspace".into());
    let mut snapshot = spine_snapshot(vec![
        ("running", 1, "2026-09-06T10:00:00Z"),
        ("blocked", 2, "2026-09-05T10:00:00Z"),
        ("failed", 3, "2026-09-04T10:00:00Z"),
        ("ready", 4, "2026-09-03T10:00:00Z"),
        ("merged", 5, "2026-09-02T10:00:00Z"),
        ("closed", 6, "2026-09-01T10:00:00Z"),
    ]);
    for (id, state) in [
        ("blocked", "blocked"),
        ("failed", "failed"),
        ("ready", "readyToClose"),
        ("merged", "mergedNotClosed"),
        ("closed", "closed"),
    ] {
        snapshot
            .missions
            .iter_mut()
            .find(|mission| mission.id == id)
            .expect("fixture mission")
            .state = state.into();
    }
    let mut other_workspace = snapshot.missions[1].clone();
    other_workspace.id = "other-blocked".into();
    other_workspace.workspace_id = "other-workspace".into();
    other_workspace.state = "blocked".into();
    snapshot.missions.push(other_workspace);
    app.snapshot = Some(snapshot);

    let buffer = render_buffer(&mut app, &PaneState::default(), Rect::new(0, 0, 200, 30));
    let text: String = buffer.content().iter().map(|cell| cell.symbol()).collect();
    assert!(text.contains("1 running · 4 needs you"), "{text}");
}

#[test]
fn activating_a_mission_with_a_target_focuses_its_pane() {
    let mut app = App::default();
    app.workspace_id = Some("workspace".into());
    app.snapshot = Some(spine_snapshot(vec![("mission", 1, "2026-09-01T10:00:00Z")]));
    app.nav_focused = true;
    app.cursor = 1;
    app.activate();
    assert!(app.take_target().is_some());
    assert!(!app.nav_focused);
}

#[test]
fn selecting_the_leader_with_zero_focuses_its_pane() {
    let mut app = App::default();
    app.workspace_id = Some("workspace".into());
    app.snapshot = Some(spine_snapshot(vec![]));
    app.nav_focused = true;
    app.select_leader();
    assert!(app.take_target().is_some());
    assert!(!app.nav_focused);
}

#[test]
fn long_spine_uses_visible_rows_for_paging_and_only_hits_rendered_rows() {
    let missions = (0..24)
        .map(|number| {
            let day = (number % 9) + 1;
            (
                format!("mission-{number}"),
                number as u64 + 1,
                format!("2026-09-{day:02}T10:00:00Z"),
            )
        })
        .collect::<Vec<_>>();
    let mut app = App::default();
    app.workspace_id = Some("workspace".into());
    app.snapshot = Some(spine_snapshot(
        missions
            .iter()
            .map(|(id, number, date)| (id.as_str(), *number, date.as_str()))
            .collect(),
    ));
    app.cursor = app.rows_len() - 1;
    let pane = PaneState::default();
    let buffer = render_buffer(&mut app, &pane, Rect::new(0, 0, 80, 14));
    assert!(app.sidebar_scroll > 0);
    assert!(app
        .row_at((app.sidebar_area.x + 1, app.sidebar_area.y + 1))
        .is_none());
    let rows = app.rows();
    for (area, index) in &app.row_hitboxes {
        let rendered = buffer
            .cell((area.x, area.y))
            .expect("rendered cell")
            .symbol();
        let expected = rows[*index]
            .label
            .chars()
            .next()
            .expect("row label")
            .to_string();
        assert_eq!(
            rendered, expected,
            "hitbox {index} must start on its rendered row"
        );
    }
    let visible = app.visible_selectable_rows;
    app.move_cursor_home();
    app.move_cursor_page(1);
    assert_eq!(app.cursor, visible.min(app.rows_len() - 1));
}

#[test]
fn picker_filters_host_scoped_workspaces_and_path_mode_hides_them() {
    let mut app = App::default();
    let local = HostId::local();
    let remote = HostId::saved("remote").unwrap();
    app.set_workspace_choices(vec![
        WorkspaceChoice {
            host_id: local,
            workspace_id: "same-id".into(),
            name: "neta".into(),
            path: "/one".into(),
            host_label: "mac-mini".into(),
            connected: true,
            running: 1,
            needs_you: 0,
        },
        WorkspaceChoice {
            host_id: remote.clone(),
            workspace_id: "same-id".into(),
            name: "neta".into(),
            path: "/two".into(),
            host_label: "macbook".into(),
            connected: false,
            running: 0,
            needs_you: 1,
        },
    ]);
    app.picker_input = "macbook".into();
    assert_eq!(app.filtered_workspaces().len(), 1);
    app.select_workspace_choice();
    let selected = app.take_workspace_choice().unwrap();
    assert_eq!(selected.host_id, remote);
    assert_eq!(selected.workspace_id, "same-id");
    assert_eq!(selected.path, "/two");
    app.picker = true;
    app.picker_input.clear();
    let pane = PaneState::default();
    let buffer = render_buffer(&mut app, &pane, Rect::new(0, 0, 120, 30));
    let text: String = buffer.content().iter().map(|cell| cell.symbol()).collect();
    assert!(text.contains("macbook"));
    assert!(text.contains("OFFLINE · CACHED"));
    assert!(text.contains("1 needs you"));
    app.picker_path_mode = true;
    assert!(app.filtered_workspaces().is_empty());
    app.select_workspace_choice();
    assert!(app.take_workspace_choice().is_none());
}

#[test]
fn open_completion_only_affects_its_matching_picker_request() {
    let mut app = App {
        picker: true,
        picker_input: "/project".into(),
        ..App::default()
    };
    app.begin_open(4);
    assert!(!app.finish_open(3, None));
    assert!(app.picker);
    assert_eq!(app.pending_open, Some(4));

    assert!(app.finish_open(4, Some("no such directory".into())));
    assert!(app.picker);
    assert_eq!(app.picker_input, "/project");
    assert_eq!(app.pending_open, None);
    assert_eq!(app.error.as_deref(), Some("no such directory"));
}

#[test]
fn archived_agent_opens_saved_transcript_without_a_live_target() {
    let mut app = App::default();
    app.workspace_id = Some("workspace".into());
    app.snapshot = Some(empty_snapshot());
    app.archived_expanded = true;
    app.archives.push(ArchivedConversation {
        workspace_id: "workspace".into(),
        agent_id: "archived-agent".into(),
        session_id: "saved-session".into(),
        mission_id: "mission".into(),
        mission_name: "Past work".into(),
        agent_name: "Ada".into(),
        task: "saved task".into(),
    });
    app.next_archive_request = 1;
    app.active_archive_request = Some(1);
    app.pending_archive = Some(ArchiveRequest {
        id: 1,
        archive: app.archives[0].clone(),
        cursor: None,
    });
    let (request_id, archive, cursor) = app.take_archive_tail().expect("archive tail request");
    assert_eq!(cursor, None);
    app.set_saved_transcript(request_id, archive, Vec::new(), Some("9".into()), false);
    assert!(app.is_read_only_archive());
    assert!(app.take_target().is_none());
    app.request_older_archive();
    assert_eq!(
        app.take_archive_tail().expect("older request").2.as_deref(),
        Some("9")
    );
}

#[test]
fn followup_uses_original_objective_and_routes_a_draft_to_the_workspace_leader() {
    let mut app = App::default();
    app.workspace_id = Some("workspace".into());
    app.snapshot = Some(spine_snapshot(vec![]));
    let archive = ArchivedConversation {
        workspace_id: "workspace".into(),
        agent_id: "archived-agent".into(),
        session_id: "archived-session".into(),
        mission_id: "closed-mission".into(),
        mission_name: "Past work".into(),
        agent_name: "Ada".into(),
        task: "agent task".into(),
    };
    app.saved_transcript = Some(SavedTranscript {
        archive: archive.clone(),
        blocks: vec![],
        prev_cursor: None,
    });
    app.begin_followup_preview();
    let (host, requested) = app
        .take_followup_objective_request()
        .expect("objective request");
    assert_eq!(requested.mission_id, "closed-mission");
    app.set_followup_objective(&host, &archive, "the immutable original objective".into());
    app.submit_followup_preview();
    let target = app.take_target().expect("leader target");
    assert_eq!(target.target.session_id, "leader-session");
    let draft = app.take_followup_draft().expect("draft");
    assert!(draft.contains("neta_mission"));
    assert!(draft.contains("meaningful name"));
    assert!(draft.contains("`continues` parameter to `closed-mission`"));
    assert!(draft.contains("> the immutable original objective"));
    assert!(draft.contains("Do not resume the archived session."));
    assert!(!draft.contains("agent task"));
}

#[test]
fn cancelling_followup_keeps_the_archived_transcript_open() {
    let mut app = App::default();
    let archive = ArchivedConversation {
        workspace_id: "workspace".into(),
        agent_id: "archived-agent".into(),
        session_id: "archived-session".into(),
        mission_id: "closed-mission".into(),
        mission_name: "Past work".into(),
        agent_name: "Ada".into(),
        task: "agent task".into(),
    };
    app.saved_transcript = Some(SavedTranscript {
        archive,
        blocks: vec![],
        prev_cursor: None,
    });
    app.begin_followup_preview();
    app.cancel_followup_preview();
    assert!(app.saved_transcript.is_some());
    assert!(app.is_read_only_archive());
    assert!(app.take_followup_draft().is_none());
}

#[test]
fn stale_saved_transcript_cannot_replace_a_newer_selection() {
    let mut app = App::default();
    app.workspace_id = Some("workspace".into());
    app.snapshot = Some(empty_snapshot());
    let first = ArchivedConversation {
        workspace_id: "workspace".into(),
        agent_id: "first".into(),
        session_id: "first-session".into(),
        mission_id: "mission".into(),
        mission_name: "Past work".into(),
        agent_name: "Ada".into(),
        task: "first task".into(),
    };
    let second = ArchivedConversation {
        workspace_id: "workspace".into(),
        agent_id: "second".into(),
        session_id: "second-session".into(),
        mission_id: "mission".into(),
        mission_name: "Past work".into(),
        agent_name: "Bea".into(),
        task: "second task".into(),
    };
    app.archives = vec![first.clone(), second.clone()];
    app.archived_expanded = true;
    app.cursor = 2;
    app.activate();
    let (first_request, _, _) = app.take_archive_tail().expect("first request");
    app.cursor = 3;
    app.activate();
    let (second_request, second_archive, _) = app.take_archive_tail().expect("second request");
    app.set_saved_transcript(first_request, first, Vec::new(), None, false);
    assert!(app.saved_transcript.is_none());
    app.set_saved_transcript(second_request, second_archive, Vec::new(), None, false);
    assert_eq!(
        app.saved_transcript
            .as_ref()
            .map(|saved| saved.archive.agent_id.as_str()),
        Some("second")
    );
}

fn empty_snapshot() -> Snapshot {
    Snapshot {
        machine: Machine {
            name: "local".into(),
        },
        workspaces: vec![],
        leaders: vec![],
        missions: vec![],
        agents: vec![],
    }
}

#[test]
fn stale_older_page_cannot_append_to_another_archive() {
    let mut app = App::default();
    app.workspace_id = Some("workspace".into());
    let first = ArchivedConversation {
        workspace_id: "workspace".into(),
        agent_id: "first".into(),
        session_id: "first-session".into(),
        mission_id: "mission".into(),
        mission_name: "Past work".into(),
        agent_name: "Ada".into(),
        task: "first task".into(),
    };
    let second = ArchivedConversation {
        workspace_id: "workspace".into(),
        agent_id: "second".into(),
        session_id: "second-session".into(),
        mission_id: "mission".into(),
        mission_name: "Past work".into(),
        agent_name: "Bea".into(),
        task: "second task".into(),
    };
    app.active_archive_request = Some(1);
    app.set_saved_transcript(1, first.clone(), Vec::new(), Some("9".into()), false);
    app.request_older_archive();
    let (older_request, _, _) = app.take_archive_tail().expect("older request");
    app.active_archive_request = Some(3);
    app.set_saved_transcript(3, second.clone(), Vec::new(), None, false);
    app.set_saved_transcript(older_request, first, Vec::new(), None, true);
    assert_eq!(
        app.saved_transcript
            .as_ref()
            .map(|saved| saved.archive.agent_id.as_str()),
        Some("second")
    );
}

#[test]
fn tabs_are_deduplicated_and_selected_by_exact_session_id() {
    let mut app = App::default();
    let target = target("session-a", "workspace-a");
    app.add_tab(target.clone());
    app.add_tab(target.clone());
    assert_eq!(app.tabs.len(), 1);
    app.select_tab(&target.key);
    assert_eq!(app.active_target.as_ref().unwrap().target.session_id, "session-a");
    assert!(app.tab_at((0, 0)).is_none());
}

#[test]
fn selecting_a_tab_keeps_its_workspace_as_the_spine_view() {
    let mut app = App::default();
    let first = target("session-a", "workspace-a");
    let second = target("session-b", "workspace-b");
    app.add_tab(first.clone());
    app.add_tab(second);
    app.select_tab(&first.key);
    assert_eq!(app.active_target.as_ref().unwrap().target.session_id, "session-a");
    assert_eq!(app.workspace_id.as_deref(), Some("workspace-a"));
}

#[test]
fn navigation_switches_and_closes_exact_views_without_losing_other_sessions() {
    let mut app = App::default();
    let first = target("session-a", "workspace-a");
    let second = target("session-b", "workspace-b");
    let third = target("session-c", "workspace-c");
    app.add_tab(first.clone());
    app.add_tab(second.clone());
    app.add_tab(third.clone());
    app.select_next_tab(1);
    assert_eq!(
        app.active_target
            .as_ref()
            .map(|target| target.target.session_id.as_str()),
        Some("session-a")
    );
    app.close_tab(&second.key);
    assert_eq!(
        app.tabs
            .iter()
            .map(|tab| tab.target.session_id.as_str())
            .collect::<Vec<_>>(),
        vec!["session-a", "session-c"]
    );
    assert_eq!(
        app.active_target
            .as_ref()
            .map(|target| target.target.session_id.as_str()),
        Some("session-a")
    );
    app.close_active_tab();
    assert_eq!(
        app.active_target
            .as_ref()
            .map(|target| target.target.session_id.as_str()),
        Some("session-c")
    );
    assert_eq!(
        app.pending_target
            .as_ref()
            .map(|target| target.target.session_id.as_str()),
        Some("session-c")
    );
}

#[test]
fn narrow_tabs_keep_active_visible_and_offer_overflow() {
    let mut app = App::default();
    for number in 0..10 {
        app.add_tab(target(
            &format!("session-{number}"),
            &format!("workspace-{number}"),
        ));
    }
    let active = app.active_target.as_ref().expect("active tab").key.clone();
    let pane = PaneState::default();
    let buffer = render_buffer(&mut app, &pane, Rect::new(0, 0, 80, 18));
    let text: String = buffer.content().iter().map(|cell| cell.symbol()).collect();
    assert!(text.contains("+"));
    assert!(app.tab_hitboxes.iter().any(|(_, id)| id == &active));
    assert!(app.overflow_hitbox.is_some());
    for _ in 0..10 {
        app.select_next_tab(1);
    }
    assert_eq!(
        app.active_target.as_ref().map(|tab| &tab.key),
        Some(&active)
    );
}

#[test]
fn tabs_with_the_same_raw_session_id_are_distinct_across_hosts() {
    let mut app = App::default();
    let local = target("shared-session", "local-workspace");
    let remote = ScopedTarget::new(
        HostId::saved("remote").unwrap(),
        Target {
            session_id: "shared-session".into(),
            workspace_id: "remote-workspace".into(),
            name: "remote".into(),
            role: "agent".into(),
            cwd: "/remote".into(),
            provider: "pi".into(),
            model: "m".into(),
        },
    )
    .unwrap();
    app.add_tab(local.clone());
    app.add_tab(remote.clone());

    assert_eq!(app.tabs.len(), 2);
    app.select_tab(&local.key);
    assert_eq!(app.workspace_id.as_deref(), Some("local-workspace"));
    app.select_tab(&remote.key);
    assert_eq!(app.workspace_id.as_deref(), Some("remote-workspace"));
}

#[test]
fn selected_remote_host_scopes_the_leader_target() {
    let remote = HostId::saved("remote").unwrap();
    let mut app = App::default();
    app.select_host(remote.clone());
    app.workspace_id = Some("workspace".into());
    app.snapshot = Some(spine_snapshot(Vec::new()));

    app.select_leader();

    assert_eq!(
        app.take_target().expect("remote leader").key.host_id,
        remote
    );
}

#[test]
fn machine_header_click_does_not_capture_the_leader_control() {
    let mut app = App::default();
    app.workspace_id = Some("workspace".into());
    app.snapshot = Some(spine_snapshot(Vec::new()));

    assert!(app.host_header_at((12, 0)));
    assert!(!app.host_header_at((24, 0)));
}

#[test]
fn add_machine_form_can_cancel_without_changing_hosts() {
    let mut app = App::default();
    app.set_hosts(vec![HostChoice {
        id: HostId::local(),
        label: "Local".into(),
    }]);
    app.open_host_picker();
    app.open_add_host();
    app.add_host_fields[0] = "user@host".into();
    app.add_host_form = false;
    assert_eq!(app.hosts.len(), 1);
    assert!(app.take_add_host().is_none());
}

#[test]
fn add_machine_form_keeps_submitted_fields_for_registry_validation() {
    let mut app = App::default();
    app.open_add_host();
    app.add_host_fields = [
        "bad\nhost".into(),
        "Remote".into(),
        "/neta".into(),
        "/repo".into(),
        String::new(),
        String::new(),
    ];
    app.pending_add_host = Some(HostFormSubmission {
        editing: None,
        fields: app.add_host_fields.clone(),
    });
    assert_eq!(app.take_add_host().unwrap().fields[0], "bad\nhost");
    assert_eq!(app.add_host_fields[2], "/neta");
}

#[test]
fn local_machine_has_no_edit_or_remove_action() {
    let mut app = App::default();
    app.set_hosts(vec![HostChoice {
        id: HostId::local(),
        label: "Local".into(),
    }]);
    app.open_host_picker();
    app.request_edit_selected_host();
    app.request_remove_selected_host();
    assert!(app.take_edit_host().is_none());
    assert!(app.remove_confirmation().is_none());
}

#[test]
fn an_empty_spine_is_hit_where_its_rows_are_drawn() {
    let mut app = App::default();
    app.workspace_id = Some("workspace".into());
    app.snapshot = Some(Snapshot {
        machine: Machine { name: "local".into() },
        workspaces: vec![],
        leaders: vec![],
        missions: vec![],
        agents: vec![],
    });
    for _ in 0..4 {
        let buffer = render_buffer(&mut app, &PaneState::default(), Rect::new(0, 0, 120, 30));
        assert_eq!(app.sidebar_area, Rect::new(0, 3, 32, 25));
        let first = if app.status_filter == StatusFilter::All { 8 } else { 9 };
        assert_eq!(app.row_at((1, first)), Some(0));
        assert_eq!(app.row_at((1, first - 1)), None);
        let rows = app.rows();
        assert_eq!(app.row_hitboxes.len(), rows.len());
        for (area, index) in &app.row_hitboxes {
            assert_eq!(
                buffer.cell((area.x, area.y)).unwrap().symbol(),
                rows[*index].label.chars().next().unwrap().to_string()
            );
        }
        app.cycle_status_filter();
    }
    app.cursor = app.rows_len() - 1;
    let lines = 2 * app.cursor;
    render_buffer(&mut app, &PaneState::default(), Rect::new(0, 0, 120, 13));
    assert_eq!(app.sidebar_scroll, lines.saturating_sub(2));
}

#[test]
fn bridge_envelope_accepts_typescript_camel_case() {
    let event = BridgeEvent::Snapshot {
        workspace_id: "w".into(),
        snapshot: Snapshot {
            machine: Machine { name: "local".into() },
            workspaces: vec![Workspace {
                id: "w".into(),
                name: "repo".into(),
                roots: vec![WorkspaceRoot { machine_id: Some("m".into()), path: "/repo".into() }],
            }],
            leaders: vec![Leader {
                workspace_id: "w".into(),
                session_id: "s".into(),
                name: "Ada".into(),
                state: "idle".into(),
                provider: "pi".into(),
                model: "m".into(),
            }],
            missions: vec![],
            agents: vec![],
        },
    };
    let BridgeEvent::Snapshot { workspace_id, snapshot } = event else {
        panic!("snapshot")
    };
    assert_eq!(workspace_id, "w");
    let leader = snapshot.leader_target("w").expect("leader");
    assert_eq!(leader.session_id, "s");
    assert_eq!(leader.workspace_id, "w");
    assert_eq!(leader.name, "Ada");
    assert_eq!(leader.role, "Workspace leader");
    assert_eq!(leader.cwd, "/repo");
    assert_eq!(leader.provider, "pi");
    assert_eq!(leader.model, "m");
    assert!(snapshot.leader_target("v").is_none());
}
