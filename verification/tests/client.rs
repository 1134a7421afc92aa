use neta::connect::{
    next_after_asking, next_forward, next_remote, ForwardAction, HelloResult, LocalAction,
    LocalConnect, LocalEvent, RemoteAction, RemoteEvent,
    RemotePhase,
};
use neta::error::{ClientError, RpcError};
use neta::frames::{drain_frames, MAX_LINE_BYTES, PROTOCOL_VERSION};
use neta::options::{ConnectOptions, Environment};
use neta::registry::{HostRegistry, LauncherConfig, SavedHost};
use neta::remote::{
    descriptor_reply, discovered_home, discovered_launcher, forward_arguments, home_arguments,
    posix_quote, remote_descriptor_command, remote_status_command, ssh_arguments,
    start_remote_command, Descriptor, DescriptorReply, Launcher, RemoteNode,
};
use neta::requests::{
    hello_params, mission_detail_params, mission_list_params, open_workspace_params, receive,
    request_bytes, snapshot_params, tail_params, untail_params, Dispatch, Pending,
};
use serde_json::Value;

#[test]
fn fragmented_and_malformed_frames_are_bounded() {
    let mut buffer = br#"{"id":"1","result":"#.to_vec();
    assert!(drain_frames(&mut buffer).unwrap().is_empty());
    buffer.extend_from_slice(b"true}\n");
    assert_eq!(drain_frames(&mut buffer).unwrap()[0]["result"], true);
    buffer.extend_from_slice(b"not-json\n");
    assert!(matches!(
        drain_frames(&mut buffer),
        Err(ClientError::Protocol(_))
    ));
}

#[test]
fn a_line_without_an_end_is_bounded() {
    let mut buffer = vec![b' '; MAX_LINE_BYTES + 1];
    assert!(matches!(drain_frames(&mut buffer), Err(ClientError::Protocol(_))));
}

#[test]
fn fragmented_hello_and_out_of_order_replies() {
    let mut pending: Pending<&str> = Pending::new();
    let first = pending.begin("one").unwrap();
    let second = pending.begin("two").unwrap();
    assert_eq!((first.as_str(), second.as_str()), ("1", "2"));
    let mut buffer = vec![];
    assert!(receive(&mut buffer, br#"{"jsonrpc":"2.0","id":"2","#).unwrap().is_empty());
    let actions = receive(
        &mut buffer,
        b"\"result\":\"two\"}\n{\"jsonrpc\":\"2.0\",\"id\":\"1\",\"result\":\"one\"}\n",
    )
    .unwrap();
    assert_eq!(actions.len(), 2);
    for (action, expected) in actions.into_iter().zip(["two", "one"]) {
        match action {
            Dispatch::Reply { id, outcome } => {
                assert_eq!(pending.settle(&id), Some(expected));
                assert_eq!(outcome.unwrap(), expected);
            }
            other => panic!("{other:?}"),
        }
    }
    assert_eq!(pending.settle("1"), None);
}

#[test]
fn eof_rejects_pending_and_later_requests() {
    let mut pending: Pending<&str> = Pending::new();
    pending.begin("wait").unwrap();
    assert_eq!(pending.close(), vec!["wait"]);
    assert_eq!(pending.begin("late").unwrap_err(), ClientError::Closed);
}

#[test]
fn refusals_and_notifications_are_told_apart() {
    let mut buffer = vec![];
    let actions = receive(
        &mut buffer,
        b"{\"jsonrpc\":\"2.0\",\"id\":\"1\",\"error\":{\"code\":-32000,\"message\":\"wrong token\",\"data\":{\"code\":\"UNAUTHORIZED\"}}}\n{\"jsonrpc\":\"2.0\",\"method\":\"state\",\"params\":{\"a\":1}}\n{}\n",
    )
    .unwrap();
    match &actions[0] {
        Dispatch::Reply { outcome: Err(ClientError::Rpc(error)), .. } => {
            assert_eq!(error.message, "wrong token");
            assert_eq!(error.code, -32000);
        }
        other => panic!("{other:?}"),
    }
    match &actions[1] {
        Dispatch::Notify(notification) => {
            assert_eq!(notification.method, "state");
            assert_eq!(notification.params["a"], 1);
        }
        other => panic!("{other:?}"),
    }
    assert!(matches!(actions[2], Dispatch::Ignore));
}

#[test]
fn authentication_refusal_is_returned_without_spawning() {
    let refusal = ClientError::Rpc(RpcError {
        code: -32000,
        symbol: Some("UNAUTHORIZED".into()),
        message: "wrong token".into(),
    });
    let mut way = LocalConnect::new();
    match way.next(LocalEvent::Failed(refusal), "/neta", false) {
        LocalAction::Fail(ClientError::Rpc(error)) => assert_eq!(error.message, "wrong token"),
        _ => panic!("authentication unexpectedly succeeded"),
    }
    assert!(!way.spawned);
}

#[test]
fn the_local_node_is_started_once() {
    let mut way = LocalConnect::new();
    assert!(matches!(way.next(LocalEvent::Missing, "/neta", false), LocalAction::Start));
    assert!(matches!(way.next(LocalEvent::Started, "/neta", false), LocalAction::Sleep));
    assert!(matches!(way.next(LocalEvent::Slept, "/neta", false), LocalAction::Attempt));
    assert!(matches!(way.next(LocalEvent::Missing, "/neta", false), LocalAction::Sleep));
    match way.next(LocalEvent::Failed(ClientError::Closed), "/neta", true) {
        LocalAction::Fail(error) => assert_eq!(
            error,
            ClientError::Unavailable("timed out connecting to the Neta Node in /neta".into())
        ),
        _ => panic!("the way did not end"),
    }
}

#[test]
fn remote_auth_failure_never_autostarts() {
    assert_eq!(descriptor_reply(false, Some(255)), DescriptorReply::Failed);
    assert_eq!(descriptor_reply(false, Some(1)), DescriptorReply::Absent);
    assert_eq!(descriptor_reply(true, Some(0)), DescriptorReply::Printed);
    for phase in [RemotePhase::Reading, RemotePhase::Awaiting] {
        for code in [Some(255), None] {
            let phase = match phase {
                RemotePhase::Reading => RemotePhase::Reading,
                _ => RemotePhase::Awaiting,
            };
            let (phase, action) =
                next_after_asking(phase, false, code, Err("EOF".into()), true, false);
            assert!(matches!(phase, RemotePhase::Ended));
            match action {
                RemoteAction::Fail(error) => assert_eq!(
                    error,
                    ClientError::Unavailable("read remote Neta Node descriptor over SSH".into())
                ),
                _ => panic!("the way goes on"),
            }
        }
    }
}

#[test]
fn an_absent_descriptor_starts_a_node_and_an_unreadable_one_does_not() {
    let (phase, action) =
        next_after_asking(RemotePhase::Reading, false, Some(1), Err("EOF".into()), true, false);
    assert!(matches!(phase, RemotePhase::Launching));
    assert!(matches!(action, RemoteAction::Start));
    let (_, action) =
        next_after_asking(RemotePhase::Reading, true, Some(0), Ok(PROTOCOL_VERSION), true, false);
    assert!(matches!(action, RemoteAction::Connect));
    let (_, action) =
        next_after_asking(RemotePhase::Reading, true, Some(0), Err("EOF".into()), true, false);
    match action {
        RemoteAction::Fail(error) => assert_eq!(
            error,
            ClientError::Protocol("invalid remote node descriptor: EOF".into())
        ),
        _ => panic!("the way goes on"),
    }
}

#[test]
fn a_forward_is_used_once_it_connects_and_is_not_awaited_for_ever() {
    let words = |action| match action {
        ForwardAction::Fail(ClientError::Unavailable(words)) => words,
        _ => panic!("it goes on"),
    };
    for (expired, ended) in [(false, false), (false, true), (true, false), (true, true)] {
        assert!(matches!(next_forward(true, expired, ended), ForwardAction::Use));
    }
    for ended in [false, true] {
        assert_eq!(
            words(next_forward(false, true, ended)),
            "timed out starting SSH Unix socket forward"
        );
    }
    assert_eq!(
        words(next_forward(false, false, true)),
        "SSH Unix socket forward exited before connecting"
    );
    assert!(matches!(next_forward(false, false, false), ForwardAction::Sleep));
}

#[test]
fn replies_reach_their_own_requests_until_the_end() {
    let mut pending: Pending<u8> = Pending::new();
    let ids: Vec<String> = (0..4).map(|sender| pending.begin(sender).unwrap()).collect();
    assert_eq!(pending.settle(&ids[2]), Some(2));
    assert_eq!(pending.settle(&ids[2]), None);
    assert_eq!(pending.settle(&ids[0]), Some(0));
    let mut told = pending.close();
    told.sort();
    assert_eq!(told, vec![1, 3]);
    assert_eq!(pending.settle(&ids[1]), None);
    assert_eq!(pending.begin(9).unwrap_err(), ClientError::Closed);
    assert!(pending.close().is_empty());
}

#[test]
fn removing_undoes_inserting_and_a_failed_write_changes_nothing() {
    let mut registry =
        HostRegistry::load("/hosts.json", vec![host("a", "a@example", "/a")]).unwrap();
    assert!(registry.validate_all().is_ok());
    registry.insert(host("b", "b@example", "/b")).unwrap();
    assert_eq!(registry.remove("b").unwrap(), host("b", "b@example", "/b"));
    assert_eq!(registry.hosts(), &[host("a", "a@example", "/a")]);
    assert!(registry.get("b").is_none());

    let mut next = HostRegistry::load("/hosts.json", registry.hosts().to_vec()).unwrap();
    let removed = next.remove("a").unwrap();
    let failure = ClientError::Configuration("flush saved host file: full".into());
    assert_eq!(registry.commit(next, removed, Err(failure.clone())), Err(failure));
    assert_eq!(registry.hosts(), &[host("a", "a@example", "/a")]);
    let mut next = HostRegistry::load("/hosts.json", registry.hosts().to_vec()).unwrap();
    let removed = next.remove("a").unwrap();
    assert_eq!(registry.commit(next, removed, Ok(())), Ok(host("a", "a@example", "/a")));
    assert!(registry.hosts().is_empty());
    assert!(registry.validate_all().is_ok());
}

#[test]
fn stale_remote_descriptor_restarts_once_after_failed_hello() {
    let refused = || ClientError::Unavailable("no hello".into());
    let (phase, action) = next_remote(RemotePhase::Reading, RemoteEvent::Begun, true, false);
    assert!(matches!(action, RemoteAction::ReadDescriptor));
    let (phase, action) =
        next_remote(phase, RemoteEvent::Descriptor(Some(PROTOCOL_VERSION)), true, false);
    assert!(matches!(action, RemoteAction::Connect));
    let (phase, action) = next_remote(phase, RemoteEvent::Refused(refused()), true, false);
    assert!(matches!(action, RemoteAction::Probe));
    let (phase, action) = next_remote(phase, RemoteEvent::Live(false), true, false);
    assert!(matches!(action, RemoteAction::Start));
    let (phase, action) = next_remote(phase, RemoteEvent::Started, true, false);
    assert!(matches!(action, RemoteAction::Sleep));
    let (phase, action) = next_remote(phase, RemoteEvent::Slept, true, false);
    assert!(matches!(action, RemoteAction::ReadDescriptor));
    let (phase, action) =
        next_remote(phase, RemoteEvent::Descriptor(Some(PROTOCOL_VERSION)), true, false);
    assert!(matches!(action, RemoteAction::Connect));
    let (_, action) = next_remote(phase, RemoteEvent::Refused(refused()), true, false);
    assert!(matches!(action, RemoteAction::Fail(ClientError::Unavailable(_))));
}

#[test]
fn a_running_remote_node_is_not_started_again() {
    let error = ClientError::Protocol("bad".into());
    let (phase, action) =
        next_remote(RemotePhase::Trying, RemoteEvent::Refused(error), false, false);
    assert!(matches!(action, RemoteAction::Discover));
    let (phase, action) = next_remote(phase, RemoteEvent::Launcher, false, false);
    assert!(matches!(action, RemoteAction::Probe));
    let (_, action) = next_remote(phase, RemoteEvent::Live(true), false, false);
    match action {
        RemoteAction::Fail(error) => assert_eq!(error, ClientError::Protocol("bad".into())),
        _ => panic!("the way did not end"),
    }
}

#[test]
fn a_remote_node_that_never_answers_times_out() {
    let (phase, action) =
        next_remote(RemotePhase::Reading, RemoteEvent::Descriptor(None), false, false);
    assert!(matches!(action, RemoteAction::Discover));
    let (phase, action) = next_remote(phase, RemoteEvent::Launcher, false, false);
    assert!(matches!(action, RemoteAction::Start));
    let (_, action) = next_remote(phase, RemoteEvent::Started, false, true);
    match action {
        RemoteAction::Fail(error) => assert_eq!(
            error.to_string(),
            ClientError::Unavailable("timed out waiting for remote Neta Node descriptor".into())
                .to_string()
        ),
        _ => panic!("the way did not end"),
    }
}

#[test]
fn other_protocols_are_refused() {
    let hello = HelloResult { protocol_version: 2, node_version: "test".into(), pid: 1 };
    assert_eq!(
        hello.check(),
        Err(ClientError::Protocol("Neta Node speaks protocol 2, this client speaks 3".into()))
    );
    let descriptor = Descriptor {
        socket: "/remote/neta/node.sock".into(),
        token: "fixture-token".into(),
        protocol_version: 3,
        pid: 1,
        started_at: "2026-01-01T00:00:00.000Z".into(),
    };
    assert_eq!(descriptor.check(), Ok(()));
    let forwarded = descriptor.forwarded("/tmp/local.sock");
    assert_eq!(forwarded.socket, "/tmp/local.sock");
    assert_eq!(forwarded.token, "fixture-token");
}

#[test]
fn optional_cursors_are_omitted_from_mission_and_archive_requests() {
    let missions = mission_list_params("workspace", &None);
    assert_eq!(missions["workspaceId"], "workspace");
    assert!(missions.get("cursor").is_none());
    assert_eq!(mission_list_params("workspace", &Some("c".into()))["cursor"], "c");
    let tail = tail_params("saved", &None);
    assert_eq!(tail["sessionId"], "saved");
    assert!(tail.get("cursor").is_none());
    assert_eq!(tail_params("saved", &Some("9".into()))["cursor"], "9");
}

#[test]
fn requests_are_lines_of_their_own() {
    let bytes = request_bytes("7", "snapshot", snapshot_params()).unwrap();
    assert!(!bytes.contains(&b'\n'));
    let request: Value = serde_json::from_slice(&bytes).unwrap();
    assert_eq!(request["jsonrpc"], "2.0");
    assert_eq!(request["id"], "7");
    assert_eq!(request["method"], "snapshot");
    assert_eq!(request["params"]["windowDays"], 14);
    assert_eq!(hello_params("secret")["token"], "secret");
    assert_eq!(hello_params("secret")["protocolVersion"], 3);
    assert_eq!(hello_params("secret")["client"], "desktop");
    assert_eq!(open_workspace_params("/repo")["path"], "/repo");
    assert_eq!(mission_detail_params("m")["missionId"], "m");
    assert_eq!(untail_params("s")["sessionId"], "s");
}

#[test]
fn a_request_that_is_too_long_is_not_sent() {
    let long = Value::String("a".repeat(MAX_LINE_BYTES));
    assert_eq!(
        request_bytes("1", "m", long),
        Err(ClientError::Protocol("request exceeds 8 MiB".into()))
    );
}

fn remote() -> RemoteNode {
    RemoteNode {
        ssh_destination: "alice@example".into(),
        ssh_executable: "ssh".into(),
        ssh_config: None,
        remote_neta_dir: "/home/al ice/.neta".into(),
        remote_launcher: None,
        local_working_directory: "/local".into(),
    }
}

#[test]
fn words_are_quoted_for_the_remote_shell() {
    assert_eq!(posix_quote("plain"), "'plain'");
    assert_eq!(posix_quote("it's"), r#"'it'"'"'s'"#);
    let launcher = Launcher { executable: "/bin/neta".into(), args: vec!["a b".into()] };
    assert!(remote_descriptor_command(&remote()).contains("'/home/al ice/.neta/node.json'"));
    assert!(start_remote_command(&remote(), &launcher).contains("'a b'"));
    assert!(start_remote_command(&remote(), &launcher).contains("nohup"));
    assert!(remote_status_command(&remote(), &launcher).contains("'/bin/neta'"));
    let arguments = ssh_arguments(&remote(), "true");
    assert_eq!(arguments.last().map(String::as_str), Some("true"));
    assert!(arguments.contains(&"alice@example".to_string()));
    let forward = forward_arguments(&remote(), "/tmp/l.sock", "/r.sock");
    assert!(forward.iter().any(|word| word.contains("/tmp/l.sock:/r.sock")));
}

#[test]
fn what_the_remote_machine_prints_is_searched_for_a_marker() {
    let launcher = discovered_launcher(true, b"motd\n__NETA_CLI__/usr/bin/neta\n").unwrap();
    assert_eq!(launcher.executable, "/usr/bin/neta");
    assert!(discovered_launcher(true, b"__NETA_CLI__neta\n").is_err());
    assert!(discovered_launcher(false, b"__NETA_CLI__/usr/bin/neta\n").is_err());
    assert_eq!(
        discovered_home(true, b"hello\n__NETA_HOME__/home/alice\n", b""),
        Ok("/home/alice".into())
    );
    assert_eq!(
        discovered_home(true, b"hello\n", b""),
        Err("SSH returned no home directory".into())
    );
    assert_eq!(
        discovered_home(true, b"__NETA_HOME__home\n", b""),
        Err("SSH returned a non-absolute home directory".into())
    );
    assert_eq!(
        discovered_home(false, b"", b" Permission denied \n"),
        Err("Permission denied".into())
    );
    assert_eq!(
        home_arguments("-oProxyCommand=x", None),
        Err("SSH destination is invalid".into())
    );
    assert_eq!(home_arguments("host", Some("/cfg")).unwrap()[..2], ["-F", "/cfg"]);
}

fn host(id: &str, destination: &str, dir: &str) -> SavedHost {
    SavedHost {
        id: id.into(),
        display_name: id.into(),
        ssh_destination: destination.into(),
        ssh_config: None,
        remote_neta_dir: dir.into(),
        remote_launcher: None,
        last_remote_workspace_path: None,
    }
}

#[test]
fn roundtrip_update_remove_and_two_endpoints() {
    let mut registry = HostRegistry::load("/tmp/hosts.json", vec![]).unwrap();
    registry.insert(host("one", "alice@example", "/one")).unwrap();
    registry.insert(host("two", "alice@example", "/two")).unwrap();
    let mut changed = host("one", "alice@example", "/one");
    changed.display_name = "First".into();
    registry.update("one", changed).unwrap();
    let mut loaded = HostRegistry::load("/tmp/hosts.json", registry.hosts().to_vec()).unwrap();
    assert_eq!(loaded.get("one").unwrap().display_name, "First");
    assert_eq!(loaded.remove("two").unwrap().id, "two");
    assert_eq!(loaded.hosts().len(), 1);
}

#[test]
fn rejects_duplicate_id_and_endpoint_but_allows_different_config() {
    let mut registry = HostRegistry::load("/tmp/hosts.json", vec![]).unwrap();
    registry.insert(host("one", "alice@example", "/one")).unwrap();
    assert!(registry.insert(host("one", "other@example", "/other")).is_err());
    assert!(registry.insert(host("two", "alice@example", "/one")).is_err());
    assert!(registry.update("one", host("renamed", "other@example", "/other")).is_err());
    let mut different = host("three", "alice@example", "/one");
    different.ssh_config = Some("/tmp/ssh-config".into());
    registry.insert(different).unwrap();
}

#[test]
fn the_workspace_of_a_saved_host_is_no_part_of_how_it_is_reached() {
    let mut saved = host("one", "alice@example", "/one");
    saved.last_remote_workspace_path = Some("/workspace/project".into());
    saved.remote_launcher =
        Some(LauncherConfig { executable: "/bin/neta".into(), args: Vec::new() });
    let remote = saved.remote_node("/local").unwrap();
    assert_eq!(remote.remote_neta_dir, "/one");
    assert!(remote.remote_launcher.unwrap().args.is_empty());
    assert_eq!(remote.local_working_directory, "/local");
}

#[test]
fn hosts_that_cannot_be_reached_are_not_saved() {
    let mut registry = HostRegistry::load("/tmp/hosts.json", vec![]).unwrap();
    assert!(registry.insert(host("", "alice@example", "/one")).is_err());
    assert!(registry.insert(host("one", "-bad", "/one")).is_err());
    assert!(registry.insert(host("one", "bad\nhost", "/one")).is_err());
    assert!(registry.insert(host("one", "alice@example", "")).is_err());
    assert!(registry.remove("one").is_err());
    assert!(registry.update("one", host("one", "alice@example", "/one")).is_err());
    assert!(HostRegistry::load(
        "/tmp/hosts.json",
        vec![host("one", "a@b", "/one"), host("one", "c@d", "/two")]
    )
    .is_err());
    assert_eq!(HostRegistry::default_path("/home/.neta"), "/home/.neta/client-hosts.json");
}

fn environment() -> Environment {
    Environment {
        neta_dir: None,
        home: Some("/home/alice".into()),
        node_executable: None,
        node_script: None,
        default_script: "/src/cli/main.ts".into(),
        remote_destination: None,
        remote_neta_dir: None,
        remote_executable: None,
        remote_arguments: None,
        remote_ssh_executable: None,
        remote_ssh_config: None,
        remote_local_directory: None,
        current_directory: Ok("/work".into()),
        files: vec![],
    }
}

#[test]
fn the_environment_says_how_to_reach_the_node() {
    let mut environment = environment();
    assert!(ConnectOptions::from_environment(&environment).is_err());
    environment.files = environment.candidate_files();
    let options = ConnectOptions::from_environment(&environment).unwrap();
    assert_eq!(options.neta_dir, "/home/alice/.neta");
    assert_eq!(options.launcher.executable, "/home/alice/.bun/bin/bun");
    assert!(options.launcher.args.contains(&"/src/cli/main.ts".to_string()));
    assert_eq!(options.timeout, 5_000);
    assert!(options.remote.is_none());

    environment.remote_destination = Some("alice@example".into());
    assert_eq!(
        ConnectOptions::from_environment(&environment).unwrap_err(),
        ClientError::Configuration(
            "NETA_REMOTE_NETA_DIR is required with NETA_REMOTE_SSH_DESTINATION".into()
        )
    );
    environment.remote_neta_dir = Some("/remote/.neta".into());
    environment.remote_executable = Some("/bin/neta".into());
    environment.remote_arguments = Some(r#"["a","b"]"#.into());
    let remote = ConnectOptions::from_environment(&environment).unwrap().remote.unwrap();
    assert_eq!(remote.remote_launcher.unwrap().args, vec!["a", "b"]);
    assert_eq!(remote.ssh_executable, "ssh");
    assert_eq!(remote.local_working_directory, "/work");
    environment.remote_arguments = Some("{".into());
    assert!(ConnectOptions::from_environment(&environment).is_err());
}
