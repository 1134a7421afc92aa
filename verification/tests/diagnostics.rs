use neta::diagnostics::{
    cleanup_params, entry_action, files_params, manifest_bytes, prepare_params, read_params,
    safe_host, safe_relative, same_file, settle_export, settle_transcripts, Chunk, ClientOutcome,
    ClientRootInput, ClientStatus, CopiedFile, EntryAction, EntryKind, FileCopy, FileList, FilePage, MachineOutcome,
    MachineStatus, ManifestFile, Prepared, RemoteFile, TranscriptCopy, TranscriptWalk,
};
use serde_json::Value;
use sha2::{Digest, Sha256};

fn digest(bytes: &[u8]) -> String {
    let mut hash = Sha256::new();
    hash.update(bytes);
    hash.finalize().iter().map(|byte| format!("{byte:02x}")).collect()
}

fn machine(id: &str, outcome: MachineOutcome) -> MachineStatus {
    MachineStatus { id: id.into(), label: id.into(), outcome }
}

fn root(session: &str) -> ClientRootInput {
    ClientRootInput {
        host_id: "local".into(),
        workspace_id: "workspace".into(),
        session_id: session.into(),
        provider: "pi".into(),
        model: "m".into(),
        root: "/root".into(),
    }
}

fn manifest(machines: Vec<MachineStatus>, clients: Vec<ClientStatus>) -> (Value, bool) {
    let (bytes, summary) = manifest_bytes(machines, clients);
    (serde_json::from_slice(&bytes.unwrap()).unwrap(), summary.complete)
}

#[test]
fn exports_two_live_hosts_and_records_an_offline_host() {
    let (manifest, complete) = manifest(
        vec![
            machine("two", MachineOutcome::Copied { files: 1, errors: 0 }),
            machine("one", MachineOutcome::Copied { files: 1, errors: 0 }),
            machine("offline", MachineOutcome::Offline(Some("disconnected".into()))),
        ],
        vec![],
    );
    assert!(!complete);
    assert_eq!(manifest["status"], "partial");
    assert_eq!(manifest["machines"].as_array().unwrap().len(), 3);
    assert_eq!(safe_host("one"), "6f6e65");
}

#[test]
fn everything_copied_is_complete() {
    let (manifest, complete) = manifest(
        vec![machine("one", MachineOutcome::Copied { files: 1, errors: 0 })],
        vec![],
    );
    assert!(complete);
    assert_eq!(manifest["status"], "complete");
    assert_eq!(manifest["machines"][0]["availability"], "available");
    assert_eq!(manifest["exclusions"].as_array().unwrap().len(), 4);
}

#[test]
fn manifest_errors_make_a_copied_host_partial() {
    let (manifest, complete) = manifest(
        vec![machine("one", MachineOutcome::Copied { files: 1, errors: 1 })],
        vec![],
    );
    assert!(!complete);
    assert_eq!(manifest["machines"][0]["availability"], "partial");
}

#[test]
fn rejects_corrupt_chunks_unsafe_paths_and_bad_file_cursors() {
    let data = b"diagnostic output";
    let mut copy = FileCopy::new(data.len() as u64, &digest(data));
    assert!(copy
        .accept(&Chunk {
            data_base64: "%%%".into(),
            next_offset: data.len() as u64,
            eof: true,
        })
        .is_err());

    let mut list = FileList::new(1);
    assert!(list
        .accept_file(&RemoteFile {
            file_id: "data".into(),
            path: "../escape".into(),
            bytes: data.len() as u64,
            sha256: digest(data),
        })
        .is_err());
    assert!(safe_relative("../escape").is_err());
    assert!(safe_relative("/escape").is_err());
    assert_eq!(safe_relative("data/output.txt"), Ok("data/output.txt"));

    let mut list = FileList::new(1);
    assert!(list
        .accept_page(&FilePage { files: vec![], next_offset: 2, eof: true })
        .is_err());

    let (manifest, complete) = manifest(
        vec![machine("one", MachineOutcome::Failed("unsafe".into()))],
        vec![],
    );
    assert!(!complete);
    assert_eq!(manifest["machines"][0]["availability"], "error");
}

#[test]
fn a_file_is_whole_when_its_bytes_and_their_sum_are() {
    let data = b"diagnostic output";
    let mut copy = FileCopy::new(data.len() as u64, &digest(data));
    assert!(!copy.is_done());
    let first = copy
        .accept(&Chunk { data_base64: "ZGlhZw==".into(), next_offset: 4, eof: false })
        .unwrap();
    assert_eq!(first, b"diag");
    assert_eq!(copy.offset(), 4);
    let rest = copy
        .accept(&Chunk { data_base64: "bm9zdGljIG91dHB1dA==".into(), next_offset: 17, eof: true })
        .unwrap();
    assert_eq!(rest, b"nostic output");
    assert!(copy.is_done());
    assert!(copy.finish().is_ok());

    let mut other = FileCopy::new(4, &digest(b"other"));
    other
        .accept(&Chunk { data_base64: "ZGlhZw==".into(), next_offset: 4, eof: true })
        .unwrap();
    assert!(other.finish().is_err());
}

#[test]
fn preserves_an_existing_destination_and_writes_a_usable_all_offline_manifest() {
    let (manifest, complete) =
        manifest(vec![machine("offline", MachineOutcome::Offline(None))], vec![]);
    assert!(!complete);
    assert_eq!(manifest["machines"][0]["availability"], "offline");
}

#[test]
fn cleaning_up_is_part_of_an_export() {
    assert_eq!(settle_export(Ok(1u8), Ok(())), Ok(1));
    assert_eq!(
        settle_export(Ok(1u8), Err("gone".into())),
        Err("clean diagnostic export: gone".into())
    );
    assert_eq!(
        settle_export::<u8>(Err("cancelled".into()), Err("gone".into())),
        Err("cancelled; clean diagnostic export: gone".into())
    );
    assert_eq!(settle_export::<u8>(Err("cancelled".into()), Ok(())), Err("cancelled".into()));
}

#[test]
fn copies_only_registered_regular_client_pi_files_and_marks_missing_roots_partial() {
    assert_eq!(
        entry_action("", "transcript.jsonl", EntryKind::File),
        EntryAction::Copy("transcript.jsonl".into())
    );
    assert_eq!(entry_action("", "linked.jsonl", EntryKind::Link), EntryAction::Skip);
    assert_eq!(entry_action("", "notes.txt", EntryKind::File), EntryAction::Skip);
    assert_eq!(entry_action("", "deep", EntryKind::Directory), EntryAction::Descend("deep".into()));
    assert_eq!(
        entry_action("deep", "a.jsonl", EntryKind::File),
        EntryAction::Copy("deep/a.jsonl".into())
    );
    assert_eq!(entry_action("../up", "a.jsonl", EntryKind::File), EntryAction::Refuse);

    let mut copy = TranscriptCopy::new(18);
    assert_eq!(copy.limit(), 18);
    copy.accept(b"initial transcript").unwrap();
    assert_eq!(copy.limit(), 0);
    let (bytes, sha256) = copy.finish();
    assert_eq!((bytes, sha256.clone()), (18, digest(b"initial transcript")));

    let (manifest, complete) = manifest(
        vec![],
        vec![
            ClientStatus {
                root: root("session"),
                outcome: ClientOutcome::Copied {
                    files: vec![CopiedFile {
                        relative_path: "transcript.jsonl".into(),
                        bytes,
                        sha256,
                    }],
                    errors: 0,
                },
            },
            ClientStatus {
                root: root("missing"),
                outcome: ClientOutcome::Unreadable("not found".into()),
            },
            ClientStatus { root: root("linked-root"), outcome: ClientOutcome::NotADirectory },
        ],
    );
    assert!(!complete);
    let sessions = manifest["clientPiSessions"].as_array().unwrap();
    let registered = sessions
        .iter()
        .find(|status| status["metadata"]["sessionId"] == "session")
        .unwrap();
    assert_eq!(registered["files"][0]["relativePath"], "transcript.jsonl");
    assert_eq!(registered["files"][0]["bytes"], 18);
    assert_eq!(registered["files"][0]["sha256"], digest(b"initial transcript"));
    for session_id in ["missing", "linked-root"] {
        assert_eq!(
            sessions
                .iter()
                .find(|status| status["metadata"]["sessionId"] == session_id)
                .unwrap()["availability"],
            "partial"
        );
    }
}

#[test]
fn a_transcript_that_changed_is_not_copied() {
    assert!(same_file(true, (1, 2), (1, 2)).is_ok());
    assert_eq!(
        same_file(true, (1, 2), (1, 3)),
        Err("Pi transcript changed before reading".into())
    );
    assert!(same_file(false, (1, 2), (1, 2)).is_err());
}

#[test]
fn transcripts_stand_in_order_in_a_manifest() {
    let file = |path: &str| CopiedFile {
        relative_path: path.into(),
        bytes: 1,
        sha256: digest(b"x"),
    };
    let outcome = settle_transcripts(vec![file("b.jsonl"), file("a/z.jsonl"), file("a.jsonl")], 2);
    let (manifest, complete) =
        manifest(vec![], vec![ClientStatus { root: root("session"), outcome }]);
    assert!(!complete);
    let session = &manifest["clientPiSessions"][0];
    let paths: Vec<&str> = session["files"]
        .as_array()
        .unwrap()
        .iter()
        .map(|file| file["relativePath"].as_str().unwrap())
        .collect();
    assert_eq!(paths, ["a.jsonl", "a/z.jsonl", "b.jsonl"]);
    assert_eq!(session["fileCount"], 3);
    assert_eq!(session["copyErrors"], 2);
}

#[test]
fn machines_and_sessions_stand_in_order_in_a_manifest() {
    let (manifest, _) = manifest(
        vec![
            machine("b", MachineOutcome::Offline(None)),
            machine("a", MachineOutcome::Offline(None)),
        ],
        vec![],
    );
    assert_eq!(manifest["machines"][0]["id"], "a");
    assert_eq!(manifest["machines"][1]["id"], "b");
}

#[test]
fn requests_for_diagnostics_name_their_export() {
    let prepared = Prepared {
        export_id: "export".into(),
        cleanup_token: "token".into(),
        manifest_file: ManifestFile { file_id: "manifest".into(), bytes: 1, sha256: "0".into() },
        file_count: 1,
    };
    assert!(prepare_params().is_object());
    assert_eq!(cleanup_params(&prepared)["exportId"], "export");
    assert_eq!(cleanup_params(&prepared)["cleanupToken"], "token");
    assert_eq!(files_params(&prepared, 7)["offset"], 7);
    assert_eq!(read_params(&prepared, "data", 9)["fileId"], "data");
    assert_eq!(read_params(&prepared, "data", 9)["offset"], 9);
}

#[test]
fn a_walk_looks_into_every_directory_and_counts_what_fails() {
    assert!(matches!(
        TranscriptWalk::start(0, Ok(false)),
        Err(ClientOutcome::NotADirectory)
    ));
    assert!(matches!(
        TranscriptWalk::start(0, Err("gone".into())),
        Err(ClientOutcome::Unreadable(words)) if words == "gone"
    ));
    let start = || TranscriptWalk::start(0, Ok(true)).ok().unwrap();
    let mut walk = start();
    assert_eq!(walk.next_directory(), Some((0, String::new())));
    assert_eq!(walk.meet(1, "", "deep", EntryKind::Directory), None);
    assert_eq!(walk.meet(2, "", "other", EntryKind::Directory), None);
    assert_eq!(walk.meet(3, "", "link", EntryKind::Link), None);
    assert_eq!(walk.meet(4, "", "b.jsonl", EntryKind::File), Some((4, "b.jsonl".into())));
    walk.copied("b.jsonl".into(), Ok((1, digest(b"b"))));
    walk.fail();
    assert_eq!(walk.next_directory(), Some((2, "other".into())));
    walk.fail();
    assert_eq!(walk.next_directory(), Some((1, "deep".into())));
    assert_eq!(
        walk.meet(5, "deep", "a.jsonl", EntryKind::File),
        Some((5, "deep/a.jsonl".into()))
    );
    walk.copied("deep/a.jsonl".into(), Err("changed".into()));
    assert_eq!(walk.meet(6, "", "a.jsonl", EntryKind::File), Some((6, "a.jsonl".into())));
    walk.copied("a.jsonl".into(), Ok((2, digest(b"aa"))));
    assert_eq!(walk.next_directory(), None);
    match walk.finish(false) {
        ClientOutcome::Copied { files, errors } => {
            let paths: Vec<&str> = files.iter().map(|file| file.relative_path.as_str()).collect();
            assert_eq!(paths, ["a.jsonl", "b.jsonl"]);
            assert_eq!(errors, 3);
        }
        _ => panic!("not copied"),
    }
    assert!(matches!(start().finish(true), ClientOutcome::Cancelled));
}
