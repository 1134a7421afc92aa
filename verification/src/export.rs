//! Exporting a saved conversation: its pages are read from the newest to the oldest, and written
//! into one file from the oldest to the newest.

use vstd::prelude::*;
use vstd::string::*;

use crate::app::{has_text, ArchivedConversation};
use crate::json::{
    encode, json, json_written, member, member_of, members_of, null, number_json, number_value,
    optional_json, set_member, text_member, text_member_of, text_value, Json,
};
use crate::requests::{tail_members, tail_params, with_cursor};
use crate::text::{optional, same_optional, same_text, texts};

verus! {

/// How far the pages of a conversation were read.
pub struct ArchiveExport {
    session_id: String,
    cursor: Option<String>,
    seen: Vec<String>,
    provider: Option<serde_json::Value>,
    model: Option<serde_json::Value>,
}

/// How far the pages of a conversation were read: the page that comes next, the pages that were asked
/// for, and what the last page says of who wrote it.
#[verifier::ext_equal]
pub struct ExportView {
    pub session: Seq<char>,
    pub cursor: Option<Seq<char>>,
    pub seen: Seq<Seq<char>>,
    pub provider: Option<Json>,
    pub model: Option<Json>,
}

impl View for ArchiveExport {
    type V = ExportView;

    closed spec fn view(&self) -> ExportView {
        ExportView {
            session: self.session_id@,
            cursor: optional(self.cursor),
            seen: texts(self.seen@),
            provider: optional_json(self.provider),
            model: optional_json(self.model),
        }
    }
}

/// Why a page is not taken, if it is not.
pub open spec fn page_fault(export: ExportView, page: Json) -> Option<Seq<char>> {
    if text_member_of(page, "sessionId"@) != Some(export.session) {
        Some("archive response belongs to a different session"@)
    } else if json_written(page) is Err {
        Some(json_written(page)->Err_0)
    } else {
        match text_member_of(page, "prevCursor"@) {
            Some(next) => if export.cursor == Some(next) {
                Some("archive cursor did not advance"@)
            } else {
                None
            },
            None => None,
        }
    }
}

/// A copy of an optional value.
fn clone_value(value: Option<&serde_json::Value>) -> (copy: Option<serde_json::Value>)
    ensures
        optional_json(copy) == (match value {
            Some(value) => Some(json(*value)),
            None => None,
        }),
{
    match value {
        Some(value) => Some(value.clone()),
        None => None,
    }
}

impl ArchiveExport {
    /// Starts with the newest page of a conversation.
    pub fn new(session_id: &str) -> (export: ArchiveExport)
        ensures
            export@ == (ExportView {
                session: session_id@,
                cursor: None,
                seen: seq![],
                provider: None,
                model: None,
            }),
    {
        let export = ArchiveExport {
            session_id: session_id.to_owned(),
            cursor: None,
            seen: Vec::new(),
            provider: None,
            model: None,
        };
        assert(texts(export.seen@) =~= seq![]);
        export
    }

    /// What the next page is asked for with. No page is asked for twice.
    pub fn next_params(&mut self) -> (params: Result<serde_json::Value, String>)
        ensures
            ({
                let repeats = old(self)@.cursor is Some && old(self)@.seen.contains(
                    old(self)@.cursor->0,
                );
                match params {
                    Ok(params) => {
                        &&& !repeats
                        &&& json(params) == with_cursor(
                            tail_members(old(self)@.session),
                            old(self)@.cursor,
                        )
                        &&& final(self)@ == (ExportView {
                            seen: match old(self)@.cursor {
                                Some(cursor) => old(self)@.seen.push(cursor),
                                None => old(self)@.seen,
                            },
                            ..old(self)@
                        })
                    },
                    Err(message) => repeats && message@ == "archive cursor cycle detected"@
                        && final(self)@ == old(self)@,
                }
            }),
    {
        let ghost before = texts(self.seen@);
        if let Some(cursor) = &self.cursor {
            if has_text(&self.seen, cursor) {
                proof {
                    let i = choose|i: int|
                        0 <= i < self.seen@.len() && (#[trigger] self.seen@[i])@ == cursor@;
                    assert(before[i] == cursor@);
                }
                return Err("archive cursor cycle detected".to_owned());
            }
            proof {
                assert forall|i: int| 0 <= i < before.len() implies before[i] != cursor@ by {
                    assert(before[i] == self.seen@[i]@);
                }
            }
            let cursor = cursor.clone();
            self.seen.push(cursor);
            assert(texts(self.seen@) =~= before.push(cursor@));
        }
        Ok(tail_params(&self.session_id, &self.cursor))
    }

    /// Takes a page, and says what is kept of it and whether there is one before it.
    pub fn accept(&mut self, page: &serde_json::Value) -> (taken: Result<(Vec<u8>, bool), String>)
        ensures
            match (page_fault(old(self)@, json(*page)), taken) {
                (None, Ok((bytes, more))) => {
                    let next = text_member_of(json(*page), "prevCursor"@);
                    &&& json_written(json(*page)) == Ok::<Seq<u8>, Seq<char>>(bytes@)
                    &&& more == (next is Some)
                    &&& final(self)@ == (ExportView {
                        cursor: if next is Some {
                            next
                        } else {
                            old(self)@.cursor
                        },
                        provider: member_of(json(*page), "provider"@),
                        model: member_of(json(*page), "model"@),
                        ..old(self)@
                    })
                },
                (Some(fault), Err(message)) => message@ == fault && final(self)@ == old(self)@,
                _ => false,
            },
    {
        let owned: bool = match text_member(page, "sessionId") {
            Some(session) => same_text(session, &self.session_id),
            None => false,
        };
        if !owned {
            return Err("archive response belongs to a different session".to_owned());
        }
        let bytes = match encode(page) {
            Ok(bytes) => bytes,
            Err(message) => return Err(message),
        };
        let next: Option<String> = match text_member(page, "prevCursor") {
            Some(next) => Some(next.to_owned()),
            None => None,
        };
        let more: bool = next.is_some();
        if more && same_optional(&next, &self.cursor) {
            return Err("archive cursor did not advance".to_owned());
        }
        let provider = clone_value(member(page, "provider"));
        let model = clone_value(member(page, "model"));
        if more {
            self.cursor = next;
        }
        self.provider = provider;
        self.model = model;
        Ok((bytes, more))
    }

    /// The file with the pages in it.
    pub fn assemble(&self, host_id: &str, archive: &ArchivedConversation, pages: &Vec<Vec<u8>>) -> (
        file: Result<Vec<u8>, String>)
        ensures
            match (json_written(header_json(host_id@, *archive, self@)), file) {
                (Ok(header), Ok(file)) => file@ == file_bytes(header, byte_pages(pages@)),
                (Err(words), Err(error)) => error@ == words,
                _ => false,
            },
    {
        let header = match encode(&self.header(host_id, archive)) {
            Ok(header) => header,
            Err(error) => return Err(error),
        };
        let mut file = trim_braces(header);
        let ghost start = file@ + pages_start();
        push_bytes(&mut file, &[44, 34, 112, 97, 103, 101, 115, 34, 58, 91]);
        assert(file@ =~= start);
        let ghost all = byte_pages(pages@);
        let mut left: usize = pages.len();
        assert(all.len() == pages@.len());
        assert(file@ + joined_pages(all.take(left as int)) =~= start + joined_pages(all)) by {
            assert(all.take(left as int) =~= all);
        }
        while left > 0
            invariant
                left <= pages@.len() == all.len(),
                all == byte_pages(pages@),
                file@ + joined_pages(all.take(left as int)) == start + joined_pages(all),
            decreases left,
        {
            let ghost now = all.take(left as int);
            assert(now.last() == pages@[left - 1]@);
            assert(now.drop_last() =~= all.take(left - 1));
            let ghost before = file@;
            push_bytes(&mut file, pages[left - 1].as_slice());
            if left > 1 {
                push_bytes(&mut file, &[44]);
            }
            assert(file@ + joined_pages(all.take(left - 1)) =~= before + joined_pages(now));
            left = left - 1;
        }
        assert(file@ =~= start + joined_pages(all));
        push_bytes(&mut file, &[93, 125, 10]);
        Ok(file)
    }

    fn header(&self, host_id: &str, archive: &ArchivedConversation) -> (value: serde_json::Value)
        ensures
            json(value) == header_json(host_id@, *archive, self@),
    {
        let mut value = null();
        set_member(&mut value, "schemaVersion", number_value(1));
        set_member(&mut value, "scope", text_value("archived session"));
        set_member(&mut value, "hostId", text_value(host_id));
        set_member(&mut value, "workspaceId", text_value(&archive.workspace_id));
        set_member(&mut value, "missionId", text_value(&archive.mission_id));
        set_member(&mut value, "agentId", text_value(&archive.agent_id));
        set_member(&mut value, "sessionId", text_value(&archive.session_id));
        set_member(&mut value, "agentName", text_value(&archive.agent_name));
        set_member(&mut value, "missionName", text_value(&archive.mission_name));
        let provider = match &self.provider {
            Some(provider) => provider.clone(),
            None => null(),
        };
        set_member(&mut value, "provider", provider);
        let model = match &self.model {
            Some(model) => model.clone(),
            None => null(),
        };
        set_member(&mut value, "model", model);
        assert(members_of(json(value)) =~= members_of(header_json(host_id@, *archive, self@)));
        value
    }
}

/// An optional value, or null.
pub open spec fn value_or_null(value: Option<Json>) -> Json {
    match value {
        Some(value) => value,
        None => Json::Null,
    }
}

/// What stands in the file before its pages: whose conversation it is, and who wrote its oldest page.
pub open spec fn header_json(host: Seq<char>, archive: ArchivedConversation, export: ExportView) -> Json {
    Json::Members(
        map![
            "schemaVersion"@ => number_json(1),
            "scope"@ => Json::Text("archived session"@),
            "hostId"@ => Json::Text(host),
            "workspaceId"@ => Json::Text(archive.workspace_id@),
            "missionId"@ => Json::Text(archive.mission_id@),
            "agentId"@ => Json::Text(archive.agent_id@),
            "sessionId"@ => Json::Text(archive.session_id@),
            "agentName"@ => Json::Text(archive.agent_name@),
            "missionName"@ => Json::Text(archive.mission_name@),
            "provider"@ => value_or_null(export.provider),
            "model"@ => value_or_null(export.model),
        ],
    )
}

/// Bytes without the closing braces at their end.
pub open spec fn without_braces(bytes: Seq<u8>) -> Seq<u8>
    decreases bytes.len(),
{
    if bytes.len() > 0 && bytes.last() == 125 {
        without_braces(bytes.drop_last())
    } else {
        bytes
    }
}

/// The bytes of `,"pages":[`.
pub open spec fn pages_start() -> Seq<u8> {
    seq![44, 34, 112, 97, 103, 101, 115, 34, 58, 91]
}

/// The bytes of each page.
pub open spec fn byte_pages(pages: Seq<Vec<u8>>) -> Seq<Seq<u8>> {
    pages.map_values(|page: Vec<u8>| page@)
}

/// Pages from the last to the first, with a comma between each two.
pub open spec fn joined_pages(pages: Seq<Seq<u8>>) -> Seq<u8>
    decreases pages.len(),
{
    if pages.len() == 0 {
        seq![]
    } else if pages.len() == 1 {
        pages[0]
    } else {
        pages.last() + seq![44u8] + joined_pages(pages.drop_last())
    }
}

/// The bytes of the file: the header with one more member, the pages.
pub open spec fn file_bytes(header: Seq<u8>, pages: Seq<Seq<u8>>) -> Seq<u8> {
    without_braces(header) + pages_start() + joined_pages(pages) + seq![93u8, 125, 10]
}

fn trim_braces(bytes: Vec<u8>) -> (rest: Vec<u8>)
    ensures
        rest@ == without_braces(bytes@),
{
    let ghost whole = bytes@;
    let mut rest = bytes;
    while rest.len() > 0 && rest[rest.len() - 1] == 125
        invariant
            without_braces(rest@) == without_braces(whole),
        decreases rest@.len(),
    {
        let ghost before = rest@;
        let _ = rest.pop();
        assert(rest@ =~= before.drop_last());
    }
    rest
}

fn push_bytes(bytes: &mut Vec<u8>, more: &[u8])
    ensures
        final(bytes)@ == old(bytes)@ + more@,
{
    let ghost before = bytes@;
    let mut at: usize = 0;
    while at < more.len()
        invariant
            at <= more@.len(),
            bytes@ == before + more@.take(at as int),
        decreases more@.len() - at,
    {
        bytes.push(more[at]);
        assert(bytes@ =~= before + more@.take(at + 1));
        at = at + 1;
    }
    assert(more@.take(at as int) =~= more@);
}

} // verus!
