use neta::hosts::{
    HostConnectionManager, HostId, HostKeyError, HostStatus, HostTransport, HostUpdate, SessionKey,
};
use neta::protocol::{Machine, Snapshot};

#[derive(Debug)]
struct FakeUnixNode(&'static str);

fn transport(name: &str) -> HostTransport {
    HostTransport {
        descriptor_path: format!("/tmp/{name}/node.json"),
        local_working_directory: format!("/tmp/{name}"),
        remote: name != "local",
    }
}

fn snapshot(machine: &str) -> Snapshot {
    Snapshot {
        machine: Machine {
            name: machine.into(),
        },
        workspaces: Vec::new(),
        leaders: Vec::new(),
        missions: Vec::new(),
        agents: Vec::new(),
    }
}

#[test]
fn two_fake_nodes_with_the_same_session_id_keep_separate_snapshots() {
    let left = HostId::new("alpha").unwrap();
    let right = HostId::new("beta").unwrap();
    let mut manager = HostConnectionManager::default();
    manager
        .connect(left.clone(), FakeUnixNode("left"), transport("left"))
        .unwrap();
    manager
        .connect(right.clone(), FakeUnixNode("right"), transport("right"))
        .unwrap();
    manager
        .apply(HostUpdate::Snapshot {
            host_id: left.clone(),
            snapshot: snapshot("left-node"),
        })
        .unwrap();
    manager
        .apply(HostUpdate::Snapshot {
            host_id: right.clone(),
            snapshot: snapshot("right-node"),
        })
        .unwrap();

    assert_eq!(
        manager.get(&left).unwrap().snapshot.as_ref().unwrap().machine.name,
        "left-node"
    );
    assert_eq!(
        manager.get(&right).unwrap().snapshot.as_ref().unwrap().machine.name,
        "right-node"
    );
    assert_eq!(manager.get(&left).unwrap().client.0, "left");
    assert_eq!(manager.get(&right).unwrap().client.0, "right");
}

#[test]
fn disconnecting_one_host_leaves_other_host_connected() {
    let left = HostId::new("alpha").unwrap();
    let right = HostId::new("beta").unwrap();
    let mut manager = HostConnectionManager::default();
    manager
        .connect(left.clone(), FakeUnixNode("left"), transport("left"))
        .unwrap();
    manager
        .connect(right.clone(), FakeUnixNode("right"), transport("right"))
        .unwrap();
    manager
        .apply(HostUpdate::Snapshot {
            host_id: left.clone(),
            snapshot: snapshot("left"),
        })
        .unwrap();
    manager
        .apply(HostUpdate::Snapshot {
            host_id: right.clone(),
            snapshot: snapshot("right"),
        })
        .unwrap();
    manager
        .apply(HostUpdate::Disconnected {
            host_id: left.clone(),
            message: "socket closed".into(),
        })
        .unwrap();

    assert!(matches!(
        manager.get(&left).unwrap().status,
        HostStatus::Disconnected { .. }
    ));
    assert_eq!(manager.get(&right).unwrap().status, HostStatus::Connected);
    assert_eq!(
        manager.get(&right).unwrap().snapshot.as_ref().unwrap().machine.name,
        "right"
    );
}

#[test]
fn host_and_session_encoding_cannot_collide_after_rmux_sanitization() {
    let cases = [
        ("host/A", "same:id"),
        ("host:A", "same/id"),
        ("HOST", "session"),
        ("host", "SESSION"),
        ("a-b", "c"),
        ("a", "b-c"),
    ];
    let keys: Vec<_> = cases
        .into_iter()
        .map(|(host, session)| {
            SessionKey::new(HostId::new(host).unwrap(), "workspace", session).unwrap()
        })
        .collect();
    let names: std::collections::HashSet<_> = keys.iter().map(SessionKey::rmux_name).collect();
    let cache_components: std::collections::HashSet<_> =
        keys.iter().map(SessionKey::cache_component).collect();
    assert_eq!(names.len(), keys.len());
    assert_eq!(cache_components.len(), keys.len());
    assert_ne!(keys[0], keys[1]);
}

#[test]
fn names_of_sessions_are_safe_in_file_names() {
    let key = SessionKey::new(HostId::new("a/b").unwrap(), "w s", "ä:").unwrap();
    for name in [key.rmux_name(), key.cache_component(), key.legacy_cache_component()] {
        assert!(name.chars().all(|c| c.is_ascii_alphanumeric() || c == '-' || c == '_'), "{name}");
    }
    assert!(key.rmux_name().contains("612f62"));
}

#[test]
fn empty_ids_make_no_key() {
    assert_eq!(HostId::new(" \t").unwrap_err(), HostKeyError::EmptyHostId);
    assert_eq!(
        SessionKey::new(HostId::local(), "workspace", "").unwrap_err(),
        HostKeyError::EmptySessionId
    );
    assert_eq!(
        HostKeyError::EmptySessionId.to_string(),
        "session id must not be empty"
    );
    assert_ne!(HostId::saved("local").unwrap(), HostId::local());
}

#[test]
fn a_host_is_connected_once_and_updates_need_a_connection() {
    let host = HostId::new("alpha").unwrap();
    let mut manager = HostConnectionManager::default();
    assert!(manager
        .apply(HostUpdate::Disconnected {
            host_id: host.clone(),
            message: "gone".into(),
        })
        .is_err());
    manager
        .connect(host.clone(), FakeUnixNode("one"), transport("one"))
        .unwrap();
    assert!(manager
        .connect(host.clone(), FakeUnixNode("two"), transport("two"))
        .is_err());
    assert_eq!(manager.get(&host).unwrap().client.0, "one");
    assert_eq!(manager.hosts().len(), 1);
    assert_eq!(manager.get(&host).unwrap().status, HostStatus::Connecting);
}
