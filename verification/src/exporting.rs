//! What holds of exports: of what is accepted from the Nodes, of what is copied from this machine, and
//! of what is written about it.

use vstd::prelude::*;
use vstd::string::*;

use crate::app::ArchivedConversation;
use crate::diagnostics::{
    all_complete, chunk_fault, client_json, entry_asks, file_before, file_json, goes_up,
    machine_before, machine_json, manifest_json, page_follows, root_json, safe_data_path,
    transcript_name, ClientOutcome, ClientStatus, CopiedFile, EntryAction, EntryKind, FilePage,
    MachineOutcome, MachineStatus, TranscriptWalk,
};
use crate::export::{
    file_bytes, header_json, joined_pages, page_fault, pages_start, without_braces, ExportView,
};
use crate::json::{json_written, members_of, number_json, text_member_of, Json};
use crate::paths::joined;
use crate::text::pieces;
use crate::words::pieces_make_up_the_text;

verus! {

/// A chunk is accepted exactly where it brings the bytes that its offsets speak of: they are base64,
/// no more than a chunk may hold, they stay in the file, and only the last chunk may bring none.
pub proof fn a_chunk_brings_what_its_offsets_say(
    offset: u64,
    expected: u64,
    decoded: Option<Seq<u8>>,
    next: u64,
    eof: bool,
)
    ensures
        chunk_fault(offset, expected, decoded, next, eof) is None <==> (exists|bytes: Seq<u8>|
            decoded == Some(bytes) && offset + #[trigger] bytes.len() == next && next <= expected
                && bytes.len() <= 262_144 && (bytes.len() > 0 || eof)),
{
    if decoded is Some {
        let bytes = decoded->0;
        assert(decoded == Some(bytes));
    }
}

/// The chunks of a file, one behind the other, each accepted where the one before it ended: together
/// they never bring more than the file has, and they are counted by the offset.
pub proof fn accepted_chunks_stay_in_the_file(
    copied: Seq<u8>,
    expected: u64,
    bytes: Seq<u8>,
    next: u64,
    eof: bool,
)
    requires
        copied.len() <= expected,
        chunk_fault(copied.len() as u64, expected, Some(bytes), next, eof) is None,
    ensures
        (copied + bytes).len() == next,
        (copied + bytes).len() <= expected,
{
}

/// A page of files follows where it lists as many files as its offset moves on, at most a hundred, and
/// no more than were announced; only the last may list none.
pub proof fn a_page_lists_what_its_offset_says(offset: usize, count: usize, page: FilePage)
    ensures
        page_follows(offset, count, page) <==> offset + page.files@.len() == page.next_offset
            && page.next_offset <= count && page.files@.len() <= 100 && (page.eof
            || page.files@.len() > 0),
{
}

/// A path that is accepted lies below the directory of the data: it starts with it, and each of the
/// names that follow it is there and leads downwards.
pub proof fn accepted_paths_lead_downwards(path: Seq<char>)
    requires
        safe_data_path(path),
    ensures
        path.len() > 5,
        path.take(5) == "data/"@,
        pieces(path, '/').len() >= 2,
        pieces(path, '/')[0] == "data"@,
        forall|i: int|
            0 <= i < pieces(path, '/').len() ==> (#[trigger] pieces(path, '/')[i]) != ".."@
                && pieces(path, '/')[i].len() > 0 && !pieces(path, '/')[i].contains('/'),
{
    reveal_strlit("data/");
    reveal_strlit("data");
    pieces_make_up_the_text(path, '/');
    assert(path.take(5) =~= "data/"@);
    assert forall|i: int| 0 <= i < 5 implies #[trigger] path[i] == "data/"@[i] by {
        assert(path.take(5)[i] == path[i]);
    }
    reveal_with_fuel(crate::text::index_from, 6);
    assert(path[0] == 'd' && path[1] == 'a' && path[2] == 't' && path[3] == 'a' && path[4] == '/');
    assert(crate::text::index_from(path, '/', 0) == 4);
    assert(pieces(path, '/')[0] =~= "data"@);
    let rest = path.skip(5);
    pieces_make_up_the_text(rest, '/');
    assert(pieces(path, '/') == seq![path.take(4)] + pieces(rest, '/'));
    assert(pieces(path, '/')[1] == pieces(rest, '/')[0]);
    if rest.len() == 0 {
        assert(pieces(rest, '/')[0].len() == 0);
    }
}

/// A path that goes up, or is not below the data, is never accepted.
pub proof fn other_paths_are_refused(path: Seq<char>, at: int)
    requires
        0 <= at < pieces(path, '/').len(),
        pieces(path, '/')[at] == ".."@ || pieces(path, '/')[at].len() == 0,
    ensures
        !safe_data_path(path),
{
}

/// What is met in a directory of transcripts: a link is never followed, a directory is always entered,
/// and of the files those are copied that end like a transcript and stay below the root; each keeps
/// its own path.
pub proof fn only_transcripts_are_copied(
    action: EntryAction,
    directory: Seq<char>,
    name: Seq<char>,
    kind: EntryKind,
)
    requires
        entry_asks(action, directory, name, kind),
    ensures
        kind is Link ==> action is Skip,
        kind is Directory ==> action is Descend,
        action is Descend ==> kind is Directory,
        action matches EntryAction::Copy(path) ==> kind is File && path@ == joined(directory, name)
            && !goes_up(path@) && (exists|stem: Seq<char>|
            stem.len() > 0 && name == #[trigger] (stem + ".jsonl"@)),
        kind is File && !goes_up(joined(directory, name)) && (exists|stem: Seq<char>|
            stem.len() > 0 && name == #[trigger] (stem + ".jsonl"@)) ==> action is Copy,
{
    reveal_strlit(".jsonl");
    if transcript_name(name) {
        let stem = name.take(name.len() - 6);
        assert(name =~= stem + ".jsonl"@);
    }
    if exists|stem: Seq<char>| stem.len() > 0 && name == #[trigger] (stem + ".jsonl"@) {
        let stem = choose|stem: Seq<char>| stem.len() > 0 && name == #[trigger] (stem + ".jsonl"@);
        assert(name.skip(name.len() - 6) =~= ".jsonl"@);
    }
}

/// The way through the directories of a session: a transcript that was copied is listed once, with its
/// path, its length and its checksum; one that could not be is counted; nothing that was listed is
/// lost.
pub proof fn a_walk_keeps_what_it_found<P>(
    walk: TranscriptWalk<P>,
    after: TranscriptWalk<P>,
    path: String,
    outcome: Result<(u64, String), String>,
)
    requires
        walk.noted(after, path, outcome),
    ensures
        walk.files@.is_prefix_of(after.files@),
        after.directories == walk.directories,
        outcome matches Ok((bytes, sum)) ==> after.files@.len() == walk.files@.len() + 1
            && after.files@.last().relative_path == path && after.files@.last().bytes == bytes
            && after.files@.last().sha256 == sum && after.errors == walk.errors,
        outcome is Err ==> after.files == walk.files && (walk.errors < u64::MAX ==> after.errors
            == walk.errors + 1),
{
    assert(walk.files@.is_prefix_of(after.files@)) by {
        assert(after.files@.take(walk.files@.len() as int) =~= walk.files@);
    }
}

/// A walk looks into every directory that it meets: one that it met stands last, and the next that it
/// turns to is that one.
pub proof fn a_walk_enters_what_it_met<P>(
    walk: TranscriptWalk<P>,
    met: TranscriptWalk<P>,
    turned: TranscriptWalk<P>,
    place: P,
    action: EntryAction,
    copy: Option<(P, String)>,
    next: Option<(P, String)>,
)
    requires
        walk.met(met, place, action, copy),
        met.turned(turned, next),
    ensures
        action matches EntryAction::Descend(path) ==> copy is None && (next matches Some((
            own,
            below,
        )) && own == place && below@ == path@) && turned.directories@ == walk.directories@,
        action matches EntryAction::Copy(path) ==> met == walk && (copy matches Some((own, below))
            && own == place && below@ == path@),
        !(action is Copy) ==> copy is None,
        met.files == walk.files,
        action is Skip ==> met == walk,
        action is Refuse && walk.errors < u64::MAX ==> met.errors == walk.errors + 1,
        walk.directories@.len() == 0 && !(action is Descend) ==> next is None,
{
}

/// Of an export it is said that it is complete exactly where every machine was copied without an error
/// and every session was.
pub proof fn only_whole_exports_are_complete(
    machines: Seq<MachineStatus>,
    clients: Seq<ClientStatus>,
)
    ensures
        members_of(manifest_json(machines, clients))["status"@] == Json::Text("complete"@) <==> {
            &&& forall|i: int|
                0 <= i < machines.len() ==> ((#[trigger] machines[i]).outcome matches
                    MachineOutcome::Copied { errors, .. } && errors == 0)
            &&& forall|i: int|
                0 <= i < clients.len() ==> ((#[trigger] clients[i]).outcome matches
                    ClientOutcome::Copied { errors, .. } && errors == 0)
        },
        members_of(manifest_json(machines, clients))["status"@] == Json::Text("complete"@)
            || members_of(manifest_json(machines, clients))["status"@] == Json::Text("partial"@),
{
    lemma_manifest_keys();
    let manifest = members_of(manifest_json(machines, clients));
    reveal_strlit("complete");
    reveal_strlit("partial");
    assert(manifest["status"@] == Json::Text(if all_complete(machines, clients) {
        "complete"@
    } else {
        "partial"@
    }));
    assert("complete"@ != "partial"@) by {
        assert("complete"@.len() == 8 && "partial"@.len() == 7);
    }
}

proof fn lemma_manifest_keys()
    ensures
        "status"@ != "schemaVersion"@,
        "status"@ != "scope"@,
        "status"@ != "machines"@,
        "status"@ != "clientPiSessions"@,
        "status"@ != "exclusions"@,
        "machines"@ != "schemaVersion"@,
        "machines"@ != "scope"@,
        "machines"@ != "clientPiSessions"@,
        "machines"@ != "exclusions"@,
        "clientPiSessions"@ != "schemaVersion"@,
        "clientPiSessions"@ != "scope"@,
        "clientPiSessions"@ != "exclusions"@,
{
    reveal_strlit("schemaVersion");
    reveal_strlit("scope");
    reveal_strlit("status");
    reveal_strlit("machines");
    reveal_strlit("clientPiSessions");
    reveal_strlit("exclusions");
    assert("schemaVersion"@.len() == 13);
    assert("scope"@.len() == 5);
    assert("status"@.len() == 6);
    assert("machines"@.len() == 8);
    assert("clientPiSessions"@.len() == 16);
    assert("exclusions"@.len() == 10);
}

/// The manifest says something of every machine and of every session, of each in its own place: which
/// one it is, and what became of it.
pub proof fn the_manifest_names_every_machine(
    machines: Seq<MachineStatus>,
    clients: Seq<ClientStatus>,
    at: int,
)
    requires
        0 <= at < machines.len(),
    ensures
        ({
            let entry = members_of(
                members_of(manifest_json(machines, clients))["machines"@]->List_0[at],
            );
            &&& members_of(manifest_json(machines, clients))["machines"@]->List_0.len()
                == machines.len()
            &&& entry["id"@] == Json::Text(machines[at].id@)
            &&& entry["label"@] == Json::Text(machines[at].label@)
            &&& entry["availability"@] == Json::Text(
                match machines[at].outcome {
                    MachineOutcome::Copied { errors, .. } => if errors == 0 {
                        "available"@
                    } else {
                        "partial"@
                    },
                    MachineOutcome::Failed(_) => "error"@,
                    MachineOutcome::Offline(_) => "offline"@,
                },
            )
            &&& machines[at].outcome matches MachineOutcome::Failed(error) ==> entry["error"@]
                == Json::Text(error@)
            &&& machines[at].outcome matches MachineOutcome::Offline(Some(reason))
                ==> entry["reason"@] == Json::Text(reason@)
            &&& machines[at].outcome matches MachineOutcome::Copied { files, errors }
                ==> entry["files"@] == number_json(files as u64) && entry["copyErrors"@]
                == number_json(errors as u64)
        }),
{
    lemma_manifest_keys();
    reveal_strlit("id");
    reveal_strlit("label");
    reveal_strlit("availability");
    reveal_strlit("files");
    reveal_strlit("copyErrors");
    reveal_strlit("error");
    reveal_strlit("reason");
    assert("id"@.len() == 2);
    assert("label"@.len() == 5 && "label"@[0] == 'l');
    assert("availability"@.len() == 12);
    assert("files"@.len() == 5 && "files"@[0] == 'f');
    assert("copyErrors"@.len() == 10);
    assert("error"@.len() == 5 && "error"@[0] == 'e');
    assert("reason"@.len() == 6);
    let list = members_of(manifest_json(machines, clients))["machines"@]->List_0;
    assert(list == machines.map_values(|status: MachineStatus| machine_json(status)));
    assert(list[at] == machine_json(machines[at]));
}

/// Of every session the manifest says whose it is and how many of its transcripts were copied, and
/// lists each of them.
pub proof fn the_manifest_names_every_session(
    machines: Seq<MachineStatus>,
    clients: Seq<ClientStatus>,
    at: int,
)
    requires
        0 <= at < clients.len(),
    ensures
        ({
            let list = members_of(manifest_json(machines, clients))["clientPiSessions"@]->List_0;
            let entry = members_of(list[at]);
            &&& list.len() == clients.len()
            &&& entry["metadata"@] == root_json(clients[at].root)
            &&& clients[at].outcome matches ClientOutcome::Copied { files, errors } ==> {
                &&& entry["fileCount"@] == number_json(files@.len() as u64)
                &&& entry["files"@]->List_0.len() == files@.len()
                &&& forall|i: int|
                    0 <= i < files@.len() ==> #[trigger] entry["files"@]->List_0[i] == file_json(
                        files@[i],
                    )
                &&& entry["copyErrors"@] == number_json(errors)
            }
            &&& clients[at].outcome matches ClientOutcome::Unreadable(error) ==> entry["error"@]
                == Json::Text("registered Pi root unavailable: "@ + error@)
            &&& clients[at].outcome is Cancelled ==> entry["availability"@] == Json::Text(
                "cancelled"@,
            )
        }),
{
    lemma_manifest_keys();
    reveal_strlit("metadata");
    reveal_strlit("availability");
    reveal_strlit("fileCount");
    reveal_strlit("files");
    reveal_strlit("copyErrors");
    reveal_strlit("error");
    assert("metadata"@.len() == 8);
    assert("availability"@.len() == 12);
    assert("fileCount"@.len() == 9);
    assert("files"@.len() == 5 && "files"@[0] == 'f');
    assert("copyErrors"@.len() == 10);
    assert("error"@.len() == 5 && "error"@[0] == 'e');
    let list = members_of(manifest_json(machines, clients))["clientPiSessions"@]->List_0;
    assert(list == clients.map_values(|status: ClientStatus| client_json(status)));
    assert(list[at] == client_json(clients[at]));
}

/// What is said of a session tells it from every other: its machine, its workspace and its id.
pub proof fn sessions_are_told_apart(
    left: crate::diagnostics::ClientRootInput,
    right: crate::diagnostics::ClientRootInput,
)
    requires
        root_json(left) == root_json(right),
    ensures
        left.host_id@ == right.host_id@,
        left.workspace_id@ == right.workspace_id@,
        left.session_id@ == right.session_id@,
        left.provider@ == right.provider@,
        left.model@ == right.model@,
{
    reveal_strlit("hostId");
    reveal_strlit("workspaceId");
    reveal_strlit("sessionId");
    reveal_strlit("provider");
    reveal_strlit("model");
    reveal_strlit("rootKey");
    assert("hostId"@.len() == 6);
    assert("workspaceId"@.len() == 11);
    assert("sessionId"@.len() == 9);
    assert("provider"@.len() == 8);
    assert("model"@.len() == 5);
    assert("rootKey"@.len() == 7);
    let a = members_of(root_json(left));
    let b = members_of(root_json(right));
    assert(a["hostId"@] == Json::Text(left.host_id@) && b["hostId"@] == Json::Text(right.host_id@));
    assert(a["workspaceId"@] == Json::Text(left.workspace_id@) && b["workspaceId"@] == Json::Text(
        right.workspace_id@,
    ));
    assert(a["sessionId"@] == Json::Text(left.session_id@) && b["sessionId"@] == Json::Text(
        right.session_id@,
    ));
    assert(a["provider"@] == Json::Text(left.provider@) && b["provider"@] == Json::Text(
        right.provider@,
    ));
    assert(a["model"@] == Json::Text(left.model@) && b["model"@] == Json::Text(right.model@));
}

/// Of two files that the manifest lists, the one whose path comes first in the order of texts comes
/// first; so do machines by their ids.
pub proof fn the_manifest_is_ordered_by_names(
    left: CopiedFile,
    right: CopiedFile,
    machine: MachineStatus,
    other: MachineStatus,
)
    ensures
        file_before()(left, right) <==> crate::order::text_before(
            left.relative_path@,
            right.relative_path@,
        ),
        machine_before()(machine, other) <==> crate::order::text_before(machine.id@, other.id@),
{
}

/// A page of another session is never taken, nor one that would be asked for again at once; every
/// other page that can be written is.
pub proof fn only_pages_of_the_session_are_exported(export: ExportView, page: Json)
    ensures
        page_fault(export, page) is None <==> text_member_of(page, "sessionId"@) == Some(
            export.session,
        ) && json_written(page) is Ok && (text_member_of(page, "prevCursor"@) is None
            || text_member_of(page, "prevCursor"@) != export.cursor),
{
}

/// The pages stand in the file from the oldest to the newest, though they were read the other way
/// round: the page that was read last stands first, and all before it follow behind a comma.
pub proof fn the_oldest_page_stands_first(pages: Seq<Seq<u8>>, page: Seq<u8>)
    ensures
        joined_pages(seq![page]) == page,
        pages.len() > 0 ==> joined_pages(pages.push(page)) == page + seq![','  as u8] + joined_pages(
            pages,
        ),
        joined_pages(seq![]) == Seq::<u8>::empty(),
{
    assert(pages.push(page).drop_last() =~= pages);
}

/// The file of an export holds all that its header holds, and its pages behind it: what the header
/// ends with stands at the end of the file, with the end of a line.
pub proof fn the_file_holds_the_header_and_the_pages(start: Seq<u8>, pages: Seq<Seq<u8>>)
    requires
        start.len() > 0,
        start.last() != '}' as u8,
    ensures
        file_bytes(start.push('}' as u8), pages) == start + pages_start() + joined_pages(pages)
            + seq![']' as u8, '}' as u8, '\n' as u8],
        crate::words::spells(pages_start(), ",\"pages\":["@),
{
    let header = start.push('}' as u8);
    assert(header.drop_last() =~= start);
    reveal_with_fuel(without_braces, 2);
    assert(without_braces(header) == start);
    reveal_strlit(",\"pages\":[");
}

/// The header of the file says whose conversation it is: each of its names is that of the archive that
/// was chosen.
pub proof fn the_header_names_the_conversation(
    host: Seq<char>,
    archive: ArchivedConversation,
    export: ExportView,
)
    ensures
        ({
            let header = members_of(header_json(host, archive, export));
            &&& header["hostId"@] == Json::Text(host)
            &&& header["workspaceId"@] == Json::Text(archive.workspace_id@)
            &&& header["missionId"@] == Json::Text(archive.mission_id@)
            &&& header["agentId"@] == Json::Text(archive.agent_id@)
            &&& header["sessionId"@] == Json::Text(archive.session_id@)
            &&& header["agentName"@] == Json::Text(archive.agent_name@)
            &&& header["missionName"@] == Json::Text(archive.mission_name@)
            &&& export.provider matches Some(provider) ==> header["provider"@] == provider
            &&& export.model matches Some(model) ==> header["model"@] == model
        }),
{
    reveal_strlit("schemaVersion");
    reveal_strlit("scope");
    reveal_strlit("hostId");
    reveal_strlit("workspaceId");
    reveal_strlit("missionId");
    reveal_strlit("agentId");
    reveal_strlit("sessionId");
    reveal_strlit("agentName");
    reveal_strlit("missionName");
    reveal_strlit("provider");
    reveal_strlit("model");
    assert("schemaVersion"@.len() == 13);
    assert("scope"@.len() == 5 && "scope"@[0] == 's');
    assert("hostId"@.len() == 6);
    assert("workspaceId"@.len() == 11 && "workspaceId"@[0] == 'w');
    assert("missionId"@.len() == 9 && "missionId"@[0] == 'm');
    assert("agentId"@.len() == 7);
    assert("sessionId"@.len() == 9 && "sessionId"@[0] == 's');
    assert("agentName"@.len() == 9 && "agentName"@[0] == 'a');
    assert("missionName"@.len() == 11 && "missionName"@[0] == 'm');
    assert("provider"@.len() == 8);
    assert("model"@.len() == 5 && "model"@[0] == 'm');
}

} // verus!
