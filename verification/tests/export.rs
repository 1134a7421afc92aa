use neta::app::ArchivedConversation;
use neta::export::ArchiveExport;
use serde_json::Value;

fn archive() -> ArchivedConversation {
    ArchivedConversation {
        workspace_id: "workspace".into(),
        agent_id: "agent".into(),
        session_id: "saved".into(),
        mission_id: "mission".into(),
        mission_name: "Mission".into(),
        agent_name: "Ada".into(),
        task: "task".into(),
    }
}

fn value(text: &str) -> Value {
    serde_json::from_str(text).unwrap()
}

/// Reads the pages of a Node that answers the first request with the first page, and the request
/// with a cursor with the page that stands beside that cursor.
fn export(first: &str, others: &[(&str, &str)]) -> Result<Vec<u8>, String> {
    let mut export = ArchiveExport::new("saved");
    let mut pages: Vec<Vec<u8>> = vec![];
    loop {
        let params = export.next_params()?;
        assert_eq!(params["sessionId"], "saved");
        assert_eq!(params["limit"], 50);
        assert_eq!(params["direction"], "backward");
        let page = match params.get("cursor").and_then(Value::as_str) {
            None => first,
            Some(cursor) => others.iter().find(|(name, _)| *name == cursor).unwrap().1,
        };
        let (bytes, more) = export.accept(&value(page))?;
        pages.push(bytes);
        if !more {
            return export.assemble("host", &archive(), &pages);
        }
    }
}

#[test]
fn exports_raw_pages_and_preserves_metadata() {
    let file = export(
        r#"{"sessionId":"saved","provider":"pi","model":"m1","turns":[{"id":"t2","at":"later"}],"blocks":[{"turnId":"t2","seq":2,"at":"later","text":"new"}],"prevCursor":"c1"}"#,
        &[(
            "c1",
            r#"{"sessionId":"saved","provider":"pi","model":"m1","turns":[{"id":"t1","at":"early"}],"blocks":[{"turnId":"t1","seq":1,"at":"early","text":"old"}]}"#,
        )],
    )
    .unwrap();
    let output: Value = serde_json::from_slice(&file).unwrap();
    assert_eq!(output["pages"][0]["blocks"][0]["seq"], 1);
    assert_eq!(output["pages"][1]["turns"][0]["at"], "later");
    assert_eq!(output["schemaVersion"], 1);
    assert_eq!(output["hostId"], "host");
    assert_eq!(output["missionName"], "Mission");
    assert_eq!(output["provider"], "pi");
    assert_eq!(output["model"], "m1");
    assert_eq!(file.last(), Some(&b'\n'));
}

#[test]
fn rejects_wrong_session_cycle_and_existing_target() {
    assert_eq!(
        export(r#"{"sessionId":"other","blocks":[],"prevCursor":null}"#, &[]),
        Err("archive response belongs to a different session".into())
    );
    assert_eq!(
        export(
            r#"{"sessionId":"saved","blocks":[],"prevCursor":"c1"}"#,
            &[
                ("c1", r#"{"sessionId":"saved","blocks":[],"prevCursor":"c2"}"#),
                ("c2", r#"{"sessionId":"saved","blocks":[],"prevCursor":"c1"}"#),
            ],
        ),
        Err("archive cursor cycle detected".into())
    );
    assert_eq!(
        export(
            r#"{"sessionId":"saved","blocks":[],"prevCursor":"c1"}"#,
            &[("c1", r#"{"sessionId":"saved","blocks":[],"prevCursor":"c1"}"#)],
        ),
        Err("archive cursor did not advance".into())
    );
    assert!(export(r#"{"sessionId":"saved","blocks":[],"prevCursor":null}"#, &[]).is_ok());
}

#[test]
fn a_page_without_an_author_leaves_none() {
    let file = export(r#"{"sessionId":"saved","blocks":[]}"#, &[]).unwrap();
    let output: Value = serde_json::from_slice(&file).unwrap();
    assert!(output["provider"].is_null());
    assert_eq!(output["pages"].as_array().unwrap().len(), 1);
    assert!(file.starts_with(b"{"));
}
