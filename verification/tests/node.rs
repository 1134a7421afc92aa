use neta::app::ArchivedConversation;
use neta::hosts::HostId;
use neta::node::{
    collect_archives, notification_action, NodeActor, NodeAnswer, NodeCommand, NodeEvent,
    NodeUpdate, NotificationAction, OpenedWorkspace, WorkspaceOpenResult,
};
use neta::protocol::{Agent, Machine, Mission, MissionLead, Snapshot, Workspace};
use neta::requests::Notification;

fn notification(method: &str, params: &str) -> Notification {
    Notification {
        method: method.into(),
        params: serde_json::from_str(params).unwrap(),
    }
}

#[test]
fn state_and_event_burst_becomes_one_snapshot_action() {
    let burst = vec![
        notification("state", "{}"),
        notification("event", "{}"),
        notification("turn", "{}"),
    ];
    assert!(matches!(notification_action(&burst), NotificationAction::Refresh));
}

#[test]
fn node_lifecycle_wins_over_refresh_in_same_burst() {
    let burst = vec![
        notification("event", "{}"),
        notification("state", "{}"),
        notification("node", r#"{"phase":"stopping"}"#),
    ];
    assert!(matches!(
        notification_action(&burst),
        NotificationAction::Fatal(message) if message == "Neta Node stopping"
    ));
}

#[test]
fn turns_alone_ask_for_nothing() {
    assert_eq!(
        notification_action(&vec![notification("turn", "{}")]),
        NotificationAction::Ignore
    );
}

#[test]
fn two_host_command_channels_never_cross_route() {
    let local = NodeActor::new(HostId::local(), 0);
    let remote_id = HostId::saved("fake-remote").unwrap();
    let remote = NodeActor::new(remote_id.clone(), 1);
    let command = NodeCommand::Open {
        host_id: remote_id.clone(),
        request_id: 7,
        path: "/remote/project".into(),
    };
    assert!(!local.accepts(&command));
    assert!(remote.accepts(&command));
    match command {
        NodeCommand::Open { host_id, request_id, path } => {
            assert_eq!(host_id, remote_id);
            assert_eq!(request_id, 7);
            assert_eq!(path, "/remote/project");
        }
        _ => panic!("expected remote open command"),
    }
}

fn snapshot(workspaces: &[&str]) -> Snapshot {
    Snapshot {
        machine: Machine { name: "node".into() },
        workspaces: workspaces
            .iter()
            .map(|id| Workspace { id: (*id).into(), name: (*id).into(), roots: vec![] })
            .collect(),
        leaders: vec![],
        missions: vec![],
        agents: vec![],
    }
}

#[test]
fn a_snapshot_shows_the_first_workspace() {
    let mut actor = NodeActor::new(HostId::local(), 3);
    match actor.snapshot_loaded(Ok(snapshot(&["a", "b"]))) {
        NodeUpdate::Snapshot { host_id, generation, workspace_id, open_request, .. } => {
            assert_eq!(host_id, HostId::local());
            assert_eq!((generation, workspace_id.as_str(), open_request), (3, "a", None));
        }
        other => panic!("{other:?}"),
    }
    assert_eq!(actor.workspace_id.as_deref(), Some("a"));
    match actor.snapshot_loaded(Ok(snapshot(&[]))) {
        NodeUpdate::Snapshot { workspace_id, .. } => assert_eq!(workspace_id, ""),
        other => panic!("{other:?}"),
    }
    assert_eq!(actor.workspace_id, None);
    match actor.snapshot_loaded(Err("broken".into())) {
        NodeUpdate::Error { message, fatal, open_request, .. } => {
            assert_eq!((message.as_str(), fatal, open_request), ("broken", false, None));
        }
        other => panic!("{other:?}"),
    }
}

#[test]
fn opening_a_workspace_names_its_request() {
    let mut actor = NodeActor::new(HostId::local(), 0);
    actor.opened(&WorkspaceOpenResult { workspace: OpenedWorkspace { id: "w".into() } });
    assert_eq!(actor.workspace_id.as_deref(), Some("w"));
    match actor.open_finished(9, Ok(("w".into(), snapshot(&["w"])))) {
        NodeUpdate::Snapshot { open_request, .. } => assert_eq!(open_request, Some(9)),
        other => panic!("{other:?}"),
    }
    match actor.open_finished(9, Err("no such directory".into())) {
        NodeUpdate::Error { open_request, fatal, .. } => {
            assert_eq!((open_request, fatal), (Some(9), false))
        }
        other => panic!("{other:?}"),
    }
    match actor.ended(None) {
        NodeUpdate::Error { fatal, .. } => assert!(fatal),
        other => panic!("{other:?}"),
    }
}

fn mission(id: &str, state: &str, lead: MissionLead) -> Mission {
    Mission {
        id: id.into(),
        number: 1,
        workspace_id: "w".into(),
        name: format!("Mission {id}"),
        state: state.into(),
        attention: None,
        created_at: "2026-09-01T10:00:00Z".into(),
        worktree: None,
        lead,
        agent_ids: vec![],
    }
}

fn agent(id: &str, state: &str) -> Agent {
    Agent {
        id: id.into(),
        mission_id: "m".into(),
        session_id: format!("session-{id}"),
        name: id.into(),
        task: "task".into(),
        state: state.into(),
        provider: "pi".into(),
        model: "m".into(),
    }
}

#[test]
fn the_archive_holds_what_has_ended_once() {
    let missions = vec![
        (mission("open", "running", MissionLead::Leader), vec![agent("a", "archived"), agent("b", "running")]),
        (mission("closed", "closed", MissionLead::Leader), vec![agent("b", "running"), agent("a", "archived")]),
    ];
    let mut archives: Vec<ArchivedConversation> = vec![];
    for (mission, agents) in &missions {
        collect_archives(
            &mut archives,
            "w",
            mission,
            agents,
            &Some(("Ada".into(), "leader".into())),
        );
    }
    let ids: Vec<_> = archives.iter().map(|archive| archive.agent_id.as_str()).collect();
    assert_eq!(ids[..2], ["a", "b"]);
    assert_eq!(archives.len(), 3);
    assert_eq!(archives[2].session_id, "leader");
    assert_eq!(archives[2].agent_name, "Ada");
    assert!(archives.iter().all(|archive| archive.workspace_id == "w"));
}

#[test]
fn the_work_with_a_node_stays_with_its_machine() {
    let host = HostId::saved("a").unwrap();
    let open = |host_id: HostId| NodeCommand::Open { host_id, request_id: 7, path: "/p".into() };
    let mut actor = NodeActor::new(host.clone(), 4);
    assert!(actor
        .report(NodeEvent::Answered {
            command: open(HostId::local()),
            answer: NodeAnswer::Opened(Ok(("w".into(), snapshot(&["w"])))),
        })
        .is_none());
    assert!(actor
        .report(NodeEvent::Opened(WorkspaceOpenResult {
            workspace: OpenedWorkspace { id: "w".into() },
        }))
        .is_none());
    assert_eq!(actor.workspace_id.as_deref(), Some("w"));
    match actor.report(NodeEvent::Answered {
        command: open(host.clone()),
        answer: NodeAnswer::Opened(Ok(("w".into(), snapshot(&["w"])))),
    }) {
        Some(NodeUpdate::Snapshot { host_id, generation, open_request, .. }) => {
            assert_eq!((host_id, generation, open_request), (host.clone(), 4, Some(7)));
        }
        other => panic!("{other:?}"),
    }
    match actor.report(NodeEvent::Refreshed {
        workspace_id: "w".into(),
        result: Err("busy".into()),
    }) {
        Some(NodeUpdate::Error { message, fatal, open_request, .. }) => {
            assert_eq!((message.as_str(), fatal, open_request), ("busy", false, None));
        }
        other => panic!("{other:?}"),
    }
    match actor.report(NodeEvent::Ended(None)) {
        Some(NodeUpdate::Error { host_id, generation, message, fatal, .. }) => {
            assert_eq!((host_id, generation, fatal), (host.clone(), 4, true));
            assert_eq!(message, "Neta Node connection closed");
        }
        other => panic!("{other:?}"),
    }
    assert!(!actor.accepts(&open(host.clone())));
    assert!(actor.report(NodeEvent::MissionFailed("late".into())).is_none());
    assert!(actor.report(NodeEvent::Ended(None)).is_none());
}
