//! The export of diagnostics: what is accepted from the Nodes, what is copied from this machine,
//! and what is written about it.

use vstd::prelude::*;
use vstd::string::*;

use crate::digest::{base64_bytes, base64_decode, sha256, taken_in, Checksum};
use crate::hosts::{hex, hex_bytes, hex_of, hex_text};
use crate::json::{
    bool_value, encode_pretty, json, json_pretty, jsons, list_value, members_of, null, number_json,
    number_value, set_member, text_value, Json,
};
use crate::order::{
    in_order, is_before, lemma_text_order, orders_by_text, sort, sorted, sorting_orders, text_before,
};
use crate::paths::{file_name, file_name_of, join, joined};
use crate::text::{concat2, concat3, pieces, same_text, split_on, starts_with, texts};

verus! {

/// The most files that a page may list.
pub const FILE_PAGE: usize = 100;

/// The most bytes that a chunk may hold.
pub const MAX_CHUNK: usize = 262_144;

/// The most bytes that are read of a transcript at once.
pub const READ_LIMIT: u64 = 65_536;

/// A machine whose diagnostics are wanted. `C` is whatever reaches it.
pub struct HostInput<C> {
    pub id: String,
    pub label: String,
    pub client: Option<C>,
    pub unavailable: Option<String>,
}

/// A directory of transcripts on this machine.
pub struct ClientRootInput {
    pub host_id: String,
    pub workspace_id: String,
    pub session_id: String,
    pub provider: String,
    pub model: String,
    pub root: String,
}

/// How an export ended.
pub struct ExportSummary {
    pub complete: bool,
}

/// What a Node has prepared for an export.
pub struct Prepared {
    pub export_id: String,
    pub cleanup_token: String,
    pub manifest_file: ManifestFile,
    pub file_count: usize,
}

pub struct ManifestFile {
    pub file_id: String,
    pub bytes: u64,
    pub sha256: String,
}

pub struct RemoteFile {
    pub file_id: String,
    pub path: String,
    pub bytes: u64,
    pub sha256: String,
}

pub struct FilePage {
    pub files: Vec<RemoteFile>,
    pub next_offset: usize,
    pub eof: bool,
}

pub struct Chunk {
    pub data_base64: String,
    pub next_offset: u64,
    pub eof: bool,
}

/// A name for a host that is safe in a file name: its bytes in hexadecimal.
pub fn safe_host(id: &str) -> (name: String)
    ensures
        name@ == hex_text(id@),
{
    hex_bytes(id)
}

/// A path below `data` that cannot lead out of it: no part of it is empty, and none goes up.
pub open spec fn safe_data_path(path: Seq<char>) -> bool {
    &&& "data/"@.is_prefix_of(path)
    &&& forall|i: int|
        0 <= i < pieces(path, '/').len() ==> (#[trigger] pieces(path, '/')[i]).len() > 0 && pieces(
            path,
            '/',
        )[i] != ".."@
}

/// Accepts a path below `data` that cannot lead out of it.
pub fn safe_relative(path: &str) -> (accepted: Result<&str, String>)
    ensures
        match accepted {
            Ok(accepted) => safe_data_path(path@) && accepted == path,
            Err(error) => !safe_data_path(path@) && error@
                == "diagnostic file path is not a safe relative data path"@,
        },
{
    let mut safe: bool = starts_with(path, "data/");
    let parts = split_on(path, '/');
    let ghost all = pieces(path@, '/');
    let mut at: usize = 0;
    while safe && at < parts.len()
        invariant
            at <= parts@.len(),
            all == texts(parts@),
            all == pieces(path@, '/'),
            safe ==> "data/"@.is_prefix_of(path@) && forall|i: int|
                0 <= i < at ==> (#[trigger] all[i]).len() > 0 && all[i] != ".."@,
            !safe ==> !safe_data_path(path@),
        decreases parts@.len() - at,
    {
        assert(all[at as int] == parts@[at as int]@);
        if parts[at].as_str().is_empty() || same_text(&parts[at], "..") {
            safe = false;
        }
        at = at + 1;
    }
    if safe {
        Ok(path)
    } else {
        Err("diagnostic file path is not a safe relative data path".to_owned())
    }
}

/// A copy of a file that a Node sends in chunks.
pub struct FileCopy {
    offset: u64,
    expected_bytes: u64,
    expected_sha: String,
    checksum: Checksum,
    done: bool,
}

/// Why a chunk is not accepted at an offset, where it is not.
pub open spec fn chunk_fault(
    offset: u64,
    expected_bytes: u64,
    decoded: Option<Seq<u8>>,
    next_offset: u64,
    eof: bool,
) -> Option<Seq<char>> {
    if next_offset < offset || next_offset > expected_bytes {
        Some("diagnostic chunk offset is invalid"@)
    } else {
        match decoded {
            None => Some("diagnostic chunk is not base64"@),
            Some(bytes) => if bytes.len() > MAX_CHUNK {
                Some("diagnostic chunk exceeds the protocol limit"@)
            } else if bytes.len() != next_offset - offset {
                Some("diagnostic chunk length does not match its offset"@)
            } else if bytes.len() == 0 && !eof {
                Some("diagnostic chunk made no progress"@)
            } else {
                None
            },
        }
    }
}

impl FileCopy {
    /// The bytes that were accepted so far.
    pub closed spec fn copied(self) -> Seq<u8> {
        taken_in(self.checksum)
    }

    /// The number of bytes that the whole file has.
    pub closed spec fn expected_bytes(self) -> u64 {
        self.expected_bytes
    }

    /// The checksum that the whole file has, in hexadecimal.
    pub closed spec fn expected_sha(self) -> Seq<char> {
        self.expected_sha@
    }

    /// Whether the last chunk was accepted.
    pub closed spec fn done(self) -> bool {
        self.done
    }

    /// The offset counts the bytes that were accepted.
    pub closed spec fn wf(self) -> bool {
        self.offset == taken_in(self.checksum).len() && self.offset <= self.expected_bytes
    }

    pub fn new(expected_bytes: u64, expected_sha: &str) -> (copy: FileCopy)
        ensures
            copy.wf(),
            copy.copied() == Seq::<u8>::empty(),
            copy.expected_bytes() == expected_bytes,
            copy.expected_sha() == expected_sha@,
            !copy.done(),
    {
        FileCopy {
            offset: 0,
            expected_bytes,
            expected_sha: expected_sha.to_owned(),
            checksum: Checksum::new(),
            done: false,
        }
    }

    /// Where the next chunk starts.
    pub fn offset(&self) -> (offset: u64)
        requires
            self.wf(),
        ensures
            offset == self.copied().len(),
    {
        self.offset
    }

    /// Whether the last chunk was accepted.
    pub fn is_done(&self) -> (done: bool)
        ensures
            done == self.done(),
    {
        self.done
    }

    /// Accepts the next chunk and returns its bytes, which are to be written.
    pub fn accept(&mut self, chunk: &Chunk) -> (bytes: Result<Vec<u8>, String>)
        requires
            old(self).wf(),
        ensures
            final(self).wf(),
            final(self).expected_bytes() == old(self).expected_bytes(),
            final(self).expected_sha() == old(self).expected_sha(),
            ({
                let fault = chunk_fault(
                    old(self).copied().len() as u64,
                    old(self).expected_bytes(),
                    base64_bytes(chunk.data_base64@),
                    chunk.next_offset,
                    chunk.eof,
                );
                match bytes {
                    Ok(bytes) => {
                        &&& fault is None
                        &&& base64_bytes(chunk.data_base64@) == Some(bytes@)
                        &&& final(self).copied() == old(self).copied() + bytes@
                        &&& final(self).copied().len() == chunk.next_offset
                        &&& final(self).done() == chunk.eof
                    },
                    Err(error) => fault == Some(error@) && *final(self) == *old(self),
                }
            }),
    {
        if chunk.next_offset < self.offset || chunk.next_offset > self.expected_bytes {
            return Err("diagnostic chunk offset is invalid".to_owned());
        }
        let decoded = match base64_decode(&chunk.data_base64) {
            Some(decoded) => decoded,
            None => return Err("diagnostic chunk is not base64".to_owned()),
        };
        if decoded.len() > MAX_CHUNK {
            return Err("diagnostic chunk exceeds the protocol limit".to_owned());
        }
        if decoded.len() as u64 != chunk.next_offset - self.offset {
            return Err("diagnostic chunk length does not match its offset".to_owned());
        }
        if decoded.len() == 0 && !chunk.eof {
            return Err("diagnostic chunk made no progress".to_owned());
        }
        self.checksum.update(decoded.as_slice());
        self.offset = chunk.next_offset;
        self.done = chunk.eof;
        Ok(decoded)
    }

    /// Accepts the whole file: all of its bytes have come, and they have the checksum that was
    /// announced.
    pub fn finish(self) -> (whole: Result<(), String>)
        requires
            self.wf(),
        ensures
            ({
                let same = self.copied().len() == self.expected_bytes() && hex_of(
                    sha256(self.copied()),
                ) == self.expected_sha();
                match whole {
                    Ok(()) => same,
                    Err(error) => !same && error@
                        == "diagnostic file checksum does not match prepared export"@,
                }
            }),
    {
        let sum = hex(self.checksum.finish().as_slice());
        if self.offset == self.expected_bytes && same_text(&sum, &self.expected_sha) {
            Ok(())
        } else {
            Err("diagnostic file checksum does not match prepared export".to_owned())
        }
    }
}

/// A chunk that is accepted and is not the last one brings the copy forward, so that a Node cannot
/// keep a copy going for ever.
pub proof fn accepted_chunks_make_progress(
    offset: u64,
    expected_bytes: u64,
    decoded: Option<Seq<u8>>,
    next_offset: u64,
    eof: bool,
)
    requires
        chunk_fault(offset, expected_bytes, decoded, next_offset, eof) is None,
    ensures
        eof || offset < next_offset,
        offset <= next_offset <= expected_bytes,
{
}

/// The walk over the pages that list the files of an export.
pub struct FileList {
    offset: usize,
    file_count: usize,
    seen: Vec<String>,
    done: bool,
}

/// Whether a page is one that can follow at an offset.
pub open spec fn page_follows(offset: usize, file_count: usize, page: FilePage) -> bool {
    &&& page.files@.len() <= FILE_PAGE
    &&& offset <= page.next_offset <= file_count
    &&& page.next_offset - offset == page.files@.len()
    &&& page.eof || page.next_offset > offset
}

impl FileList {
    pub closed spec fn offset(self) -> usize {
        self.offset
    }

    pub closed spec fn file_count(self) -> usize {
        self.file_count
    }

    /// The ids of the files that were accepted so far.
    pub closed spec fn seen(self) -> Seq<Seq<char>> {
        texts(self.seen@)
    }

    /// Whether the last page was accepted.
    pub closed spec fn done(self) -> bool {
        self.done
    }

    pub fn new(file_count: usize) -> (list: FileList)
        ensures
            list.offset() == 0,
            list.file_count() == file_count,
            list.seen() == Seq::<Seq<char>>::empty(),
            !list.done(),
    {
        let list = FileList { offset: 0, file_count, seen: Vec::new(), done: false };
        assert(list.seen() =~= Seq::<Seq<char>>::empty());
        list
    }

    /// Where the next page starts.
    pub fn next_offset(&self) -> (offset: usize)
        ensures
            offset == self.offset(),
    {
        self.offset
    }

    /// Whether the last page was accepted.
    pub fn is_done(&self) -> (done: bool)
        ensures
            done == self.done(),
    {
        self.done
    }

    /// Accepts the next page.
    pub fn accept_page(&mut self, page: &FilePage) -> (accepted: Result<(), String>)
        ensures
            final(self).file_count() == old(self).file_count(),
            final(self).seen() == old(self).seen(),
            match accepted {
                Ok(()) => {
                    &&& page_follows(old(self).offset(), old(self).file_count(), *page)
                    &&& final(self).offset() == page.next_offset
                    &&& final(self).done() == page.eof
                },
                Err(error) => {
                    &&& !page_follows(old(self).offset(), old(self).file_count(), *page)
                    &&& error@ == "diagnostic file page is invalid"@
                    &&& *final(self) == *old(self)
                },
            },
    {
        if page.files.len() > FILE_PAGE || page.next_offset < self.offset || page.next_offset
            > self.file_count || page.next_offset - self.offset != page.files.len() || (!page.eof
            && page.next_offset == self.offset) {
            return Err("diagnostic file page is invalid".to_owned());
        }
        self.offset = page.next_offset;
        self.done = page.eof;
        Ok(())
    }

    /// Accepts a file of a page: its id is new, and its path is safe.
    pub fn accept_file(&mut self, file: &RemoteFile) -> (path: Result<String, String>)
        ensures
            final(self).offset() == old(self).offset(),
            final(self).file_count() == old(self).file_count(),
            final(self).done() == old(self).done(),
            match path {
                Ok(path) => {
                    &&& !old(self).seen().contains(file.file_id@)
                    &&& safe_data_path(file.path@)
                    &&& path@ == file.path@
                    &&& final(self).seen() == old(self).seen().push(file.file_id@)
                },
                Err(error) => if old(self).seen().contains(file.file_id@) {
                    error@ == "diagnostic file id repeated"@ && final(self).seen()
                        == old(self).seen()
                } else {
                    &&& !safe_data_path(file.path@)
                    &&& error@ == "diagnostic file path is not a safe relative data path"@
                    &&& final(self).seen() == old(self).seen().push(file.file_id@)
                },
            },
    {
        let mut at: usize = 0;
        while at < self.seen.len()
            invariant
                at <= self.seen@.len(),
                *self == *old(self),
                forall|i: int| 0 <= i < at ==> texts(self.seen@)[i] != file.file_id@,
            decreases self.seen@.len() - at,
        {
            if same_text(&self.seen[at], &file.file_id) {
                assert(texts(self.seen@)[at as int] == file.file_id@);
                return Err("diagnostic file id repeated".to_owned());
            }
            at = at + 1;
        }
        assert(!self.seen().contains(file.file_id@));
        let ghost before = self.seen@;
        self.seen.push(file.file_id.clone());
        assert(texts(self.seen@) =~= texts(before).push(file.file_id@));
        match safe_relative(&file.path) {
            Ok(path) => Ok(path.to_owned()),
            Err(error) => Err(error),
        }
    }

    /// Accepts the list: every announced file was listed.
    pub fn finish(&self) -> (whole: Result<(), String>)
        ensures
            match whole {
                Ok(()) => self.offset() == self.file_count(),
                Err(error) => self.offset() != self.file_count() && error@
                    == "diagnostic file pages ended early"@,
            },
    {
        if self.offset != self.file_count {
            Err("diagnostic file pages ended early".to_owned())
        } else {
            Ok(())
        }
    }
}

/// The outcome of an export together with that of cleaning up after it.
pub open spec fn settled<T>(
    result: Result<T, String>,
    cleanup: Result<(), String>,
    outcome: Result<T, String>,
) -> bool {
    match (result, cleanup) {
        (Ok(status), Ok(())) => outcome == Ok::<T, String>(status),
        (Ok(_), Err(error)) => outcome is Err && outcome->Err_0@ == "clean diagnostic export: "@
            + error@,
        (Err(error), Ok(())) => outcome is Err && outcome->Err_0@ == error@,
        (Err(error), Err(cleanup)) => outcome is Err && outcome->Err_0@ == error@
            + "; clean diagnostic export: "@ + cleanup@,
    }
}

/// The outcome of an export together with that of cleaning up after it: cleaning up is part of
/// success, and its failure is told beside any other.
pub fn settle_export<T>(result: Result<T, String>, cleanup: Result<(), String>) -> (outcome: Result<
    T,
    String,
>)
    ensures
        settled(result, cleanup, outcome),
{
    match (result, cleanup) {
        (Ok(status), Ok(())) => Ok(status),
        (Ok(_), Err(error)) => Err(concat2("clean diagnostic export: ", &error)),
        (Err(error), Ok(())) => Err(error),
        (Err(error), Err(cleanup)) => Err(
            concat3(&error, "; clean diagnostic export: ", &cleanup),
        ),
    }
}

/// What is sent with `diagnostics.prepare`.
pub fn prepare_params() -> (params: serde_json::Value)
    ensures
        json(params) == Json::Members(map!["compact"@ => Json::Bool(true)]),
{
    let mut params = null();
    set_member(&mut params, "compact", bool_value(true));
    params
}

/// What names an export towards the Node that prepared it.
pub open spec fn export_members(prepared: Prepared) -> Map<Seq<char>, Json> {
    map![
        "exportId"@ => Json::Text(prepared.export_id@),
        "cleanupToken"@ => Json::Text(prepared.cleanup_token@),
    ]
}

/// What is sent with `diagnostics.cleanup`.
pub fn cleanup_params(prepared: &Prepared) -> (params: serde_json::Value)
    ensures
        json(params) == Json::Members(export_members(*prepared)),
{
    let mut params = null();
    set_member(&mut params, "exportId", text_value(&prepared.export_id));
    set_member(&mut params, "cleanupToken", text_value(&prepared.cleanup_token));
    assert(members_of(json(params)) =~= export_members(*prepared));
    params
}

/// What is sent with `diagnostics.files`.
pub fn files_params(prepared: &Prepared, offset: usize) -> (params: serde_json::Value)
    ensures
        json(params) == Json::Members(
            export_members(*prepared).insert("offset"@, number_json(offset as u64)),
        ),
{
    let mut params = cleanup_params(prepared);
    set_member(&mut params, "offset", number_value(offset as u64));
    params
}

/// What is sent with `diagnostics.read`.
pub fn read_params(prepared: &Prepared, file_id: &str, offset: u64) -> (params: serde_json::Value)
    ensures
        json(params) == Json::Members(
            export_members(*prepared).insert("fileId"@, Json::Text(file_id@)).insert(
                "offset"@,
                number_json(offset),
            ),
        ),
{
    let mut params = cleanup_params(prepared);
    set_member(&mut params, "fileId", text_value(file_id));
    set_member(&mut params, "offset", number_value(offset));
    params
}

/// What an entry of a directory is, without following links.
#[derive(Clone, Copy, Debug, PartialEq, Eq, Structural)]
pub enum EntryKind {
    Link,
    Directory,
    File,
    Other,
}

/// What to do with an entry of a directory of transcripts.
#[derive(Debug, PartialEq, Eq)]
pub enum EntryAction {
    Skip,
    /// Look into the directory at this path below the root.
    Descend(String),
    /// Copy the file at this path below the root.
    Copy(String),
    /// The entry cannot be named safely.
    Refuse,
}

/// A name with the ending of a transcript.
pub open spec fn transcript_name(name: Seq<char>) -> bool {
    name.len() > 6 && name.skip(name.len() - 6) == ".jsonl"@
}

fn is_transcript_name(name: &str) -> (yes: bool)
    ensures
        yes == transcript_name(name@),
{
    let length: usize = name.unicode_len();
    if length <= 6 {
        return false;
    }
    let ending = name.substring_char(length - 6, length);
    assert(ending@ =~= name@.skip(name@.len() - 6));
    same_text(ending, ".jsonl")
}

/// Links are passed over, directories are entered, and of the files only transcripts are copied. A
/// transcript is refused where its path below the root would go up.
pub open spec fn entry_asks(
    action: EntryAction,
    directory: Seq<char>,
    name: Seq<char>,
    kind: EntryKind,
) -> bool {
    match kind {
        EntryKind::Link => action is Skip,
        EntryKind::Other => action is Skip,
        EntryKind::Directory => action is Descend && action->Descend_0@ == joined(directory, name),
        EntryKind::File => if !transcript_name(name) {
            action is Skip
        } else if goes_up(joined(directory, name)) {
            action is Refuse
        } else {
            action is Copy && action->Copy_0@ == joined(directory, name)
        },
    }
}

/// What to do with an entry of a directory.
pub fn entry_action(directory: &str, name: &str, kind: EntryKind) -> (action: EntryAction)
    ensures
        entry_asks(action, directory@, name@, kind),
{
    match kind {
        EntryKind::Link => EntryAction::Skip,
        EntryKind::Other => EntryAction::Skip,
        EntryKind::Directory => EntryAction::Descend(join(directory, name)),
        EntryKind::File => {
            if !is_transcript_name(name) {
                return EntryAction::Skip;
            }
            let path = join(directory, name);
            if has_step_up(&path) {
                EntryAction::Refuse
            } else {
                EntryAction::Copy(path)
            }
        },
    }
}

/// A path that starts at the root or holds a step up.
pub open spec fn goes_up(path: Seq<char>) -> bool {
    crate::paths::absolute(path) || pieces(path, '/').contains(".."@)
}

fn has_step_up(path: &str) -> (found: bool)
    ensures
        found == goes_up(path@),
{
    if crate::paths::is_absolute(path) {
        return true;
    }
    let parts = split_on(path, '/');
    let mut at: usize = 0;
    while at < parts.len()
        invariant
            at <= parts@.len(),
            texts(parts@) == pieces(path@, '/'),
            forall|i: int| 0 <= i < at ==> texts(parts@)[i] != ".."@,
        decreases parts@.len() - at,
    {
        if same_text(&parts[at], "..") {
            assert(texts(parts@)[at as int] == ".."@);
            return true;
        }
        at = at + 1;
    }
    false
}

/// Whether what was opened is the file that was found.
pub fn same_file(opened_is_file: bool, opened: (u64, u64), found: (u64, u64)) -> (same: Result<
    (),
    String,
>)
    ensures
        match same {
            Ok(()) => opened_is_file && opened == found,
            Err(error) => !(opened_is_file && opened == found) && error@
                == "Pi transcript changed before reading"@,
        },
{
    if !opened_is_file || opened.0 != found.0 || opened.1 != found.1 {
        return Err("Pi transcript changed before reading".to_owned());
    }
    Ok(())
}

/// The copy of a transcript up to the length that it had when it was found.
pub struct TranscriptCopy {
    remaining: u64,
    length: u64,
    checksum: Checksum,
}

impl TranscriptCopy {
    pub closed spec fn copied(self) -> Seq<u8> {
        taken_in(self.checksum)
    }

    pub closed spec fn length(self) -> u64 {
        self.length
    }

    pub closed spec fn wf(self) -> bool {
        self.remaining <= self.length && taken_in(self.checksum).len() == self.length
            - self.remaining
    }

    pub fn new(length: u64) -> (copy: TranscriptCopy)
        ensures
            copy.wf(),
            copy.length() == length,
            copy.copied() == Seq::<u8>::empty(),
    {
        TranscriptCopy { remaining: length, length, checksum: Checksum::new() }
    }

    /// How many bytes to read next; none once the copy is whole.
    pub fn limit(&self) -> (limit: u64)
        requires
            self.wf(),
        ensures
            limit == (if self.length() - self.copied().len() < READ_LIMIT {
                self.length() - self.copied().len()
            } else {
                READ_LIMIT as int
            }),
    {
        if self.remaining < READ_LIMIT {
            self.remaining
        } else {
            READ_LIMIT
        }
    }

    /// Accepts bytes that were read, no more than the limit. Where there are none, the file has
    /// become shorter.
    pub fn accept(&mut self, bytes: &[u8]) -> (accepted: Result<(), String>)
        requires
            old(self).wf(),
            bytes@.len() <= old(self).length() - old(self).copied().len(),
        ensures
            final(self).wf(),
            final(self).length() == old(self).length(),
            match accepted {
                Ok(()) => bytes@.len() > 0 && final(self).copied() == old(self).copied() + bytes@,
                Err(error) => bytes@.len() == 0 && error@ == "Pi transcript changed while reading"@
                    && *final(self) == *old(self),
            },
    {
        if bytes.len() == 0 {
            return Err("Pi transcript changed while reading".to_owned());
        }
        self.checksum.update(bytes);
        self.remaining = self.remaining - bytes.len() as u64;
        Ok(())
    }

    /// The length and the checksum of the copy.
    pub fn finish(self) -> (sum: (u64, String))
        requires
            self.wf(),
        ensures
            sum.0 == self.length(),
            sum.1@ == hex_of(sha256(self.copied())),
    {
        (self.length, hex(self.checksum.finish().as_slice()))
    }
}

/// A transcript that was copied.
pub struct CopiedFile {
    pub relative_path: String,
    pub bytes: u64,
    pub sha256: String,
}

/// What became of the transcripts of one session.
pub enum ClientOutcome {
    /// What is registered is not a directory.
    NotADirectory,
    /// What is registered cannot be read.
    Unreadable(String),
    Cancelled,
    Copied { files: Vec<CopiedFile>, errors: u64 },
}

/// The transcripts of one session, and what became of them.
pub struct ClientStatus {
    pub root: ClientRootInput,
    pub outcome: ClientOutcome,
}

/// What became of the diagnostics of one machine.
pub enum MachineOutcome {
    Copied { files: usize, errors: usize },
    Failed(String),
    Offline(Option<String>),
}

/// One machine, and what became of its diagnostics.
pub struct MachineStatus {
    pub id: String,
    pub label: String,
    pub outcome: MachineOutcome,
}

/// Files by their path.
pub open spec fn file_before() -> spec_fn(CopiedFile, CopiedFile) -> bool {
    |left: CopiedFile, right: CopiedFile| text_before(left.relative_path@, right.relative_path@)
}

/// Machines by their id.
pub open spec fn machine_before() -> spec_fn(MachineStatus, MachineStatus) -> bool {
    |left: MachineStatus, right: MachineStatus| text_before(left.id@, right.id@)
}

/// Sessions by their host, their workspace and their id.
pub open spec fn client_before() -> spec_fn(ClientStatus, ClientStatus) -> bool {
    |left: ClientStatus, right: ClientStatus| root_before(left.root, right.root)
}

/// Whether a session stands before another.
pub open spec fn root_before(left: ClientRootInput, right: ClientRootInput) -> bool {
    ||| text_before(left.host_id@, right.host_id@)
    ||| left.host_id@ == right.host_id@ && text_before(left.workspace_id@, right.workspace_id@)
    ||| left.host_id@ == right.host_id@ && left.workspace_id@ == right.workspace_id@ && text_before(
        left.session_id@,
        right.session_id@,
    )
}

fn is_file_before(left: &CopiedFile, right: &CopiedFile) -> (yes: bool)
    ensures
        yes == file_before()(*left, *right),
{
    is_before(&left.relative_path, &right.relative_path)
}

fn is_machine_before(left: &MachineStatus, right: &MachineStatus) -> (yes: bool)
    ensures
        yes == machine_before()(*left, *right),
{
    is_before(&left.id, &right.id)
}

fn is_client_before(left: &ClientStatus, right: &ClientStatus) -> (yes: bool)
    ensures
        yes == client_before()(*left, *right),
{
    is_root_before(&left.root, &right.root)
}

/// What became of the transcripts of a session that could be looked through: those that were
/// copied, in the order of their paths, and how many could not be.
pub fn settle_transcripts(files: Vec<CopiedFile>, errors: u64) -> (outcome: ClientOutcome)
    ensures
        match outcome {
            ClientOutcome::Copied { files: list, errors: count } => list@ == sorted(
                files@,
                file_before(),
            ) && count == errors,
            _ => false,
        },
{
    ClientOutcome::Copied { files: sort(files, is_file_before, Ghost(file_before())), errors }
}

/// One more, or the largest number there is.
pub open spec fn one_more(count: u64) -> u64 {
    if count == u64::MAX {
        count
    } else {
        (count + 1) as u64
    }
}

fn count_one(count: u64) -> (more: u64)
    ensures
        more == one_more(count),
{
    if count == u64::MAX {
        count
    } else {
        count + 1
    }
}

/// The way through the directories of a session, in search of its transcripts: the directories that
/// are still to be looked into, each with its path below the root, the transcripts that were copied,
/// and how much could not be. `P` is whatever a directory is found again by.
pub struct TranscriptWalk<P> {
    pub directories: Vec<(P, String)>,
    pub files: Vec<CopiedFile>,
    pub errors: u64,
}

impl<P> TranscriptWalk<P> {
    /// Whether a walk is about to look into its root, and has met nothing yet.
    pub open spec fn begun(self, root: P) -> bool {
        &&& self.directories@.len() == 1
        &&& self.directories@[0].0 == root
        &&& self.directories@[0].1@.len() == 0
        &&& self.files@.len() == 0
        &&& self.errors == 0
    }

    /// Whether a walk turns to the directory that it met last, if it has one left.
    pub open spec fn turned(self, after: TranscriptWalk<P>, next: Option<(P, String)>) -> bool {
        if self.directories@.len() == 0 {
            next is None && after == self
        } else {
            &&& next == Some(self.directories@.last())
            &&& after.directories@ == self.directories@.drop_last()
            &&& after == (TranscriptWalk { directories: after.directories, ..self })
        }
    }

    /// The walk, with one more thing that could not be read or copied.
    pub open spec fn failed(self) -> TranscriptWalk<P> {
        TranscriptWalk { errors: one_more(self.errors), ..self }
    }

    /// Whether a walk takes note of a transcript that was copied, or could not be.
    pub open spec fn noted(
        self,
        after: TranscriptWalk<P>,
        relative_path: String,
        outcome: Result<(u64, String), String>,
    ) -> bool {
        match outcome {
            Ok((bytes, sha256)) => {
                &&& after.files@ == self.files@.push(CopiedFile { relative_path, bytes, sha256 })
                &&& after == (TranscriptWalk { files: after.files, ..self })
            },
            Err(_) => after == self.failed(),
        }
    }

    /// Starts at the root that is registered: `found` says whether it is a directory, or why it cannot
    /// be read.
    pub fn start(root: P, found: Result<bool, String>) -> (walk: Result<
        TranscriptWalk<P>,
        ClientOutcome,
    >)
        ensures
            match found {
                Ok(true) => {
                    &&& walk is Ok
                    &&& walk->Ok_0.begun(root)
                },
                Ok(false) => walk == Err::<TranscriptWalk<P>, ClientOutcome>(
                    ClientOutcome::NotADirectory,
                ),
                Err(error) => walk == Err::<TranscriptWalk<P>, ClientOutcome>(
                    ClientOutcome::Unreadable(error),
                ),
            },
    {
        match found {
            Ok(true) => {
                let mut directories: Vec<(P, String)> = Vec::new();
                directories.push((root, String::new()));
                Ok(TranscriptWalk { directories, files: Vec::new(), errors: 0 })
            },
            Ok(false) => Err(ClientOutcome::NotADirectory),
            Err(error) => Err(ClientOutcome::Unreadable(error)),
        }
    }

    /// The directory to look into next, with its path below the root: the one that was met last.
    pub fn next_directory(&mut self) -> (next: Option<(P, String)>)
        ensures
            old(self).turned(*final(self), next),
    {
        if self.directories.len() == 0 {
            return None;
        }
        self.directories.pop()
    }

    /// A directory, or an entry of one, could not be read.
    pub fn fail(&mut self)
        ensures
            *final(self) == old(self).failed(),
    {
        self.errors = count_one(self.errors);
    }

    /// Whether a walk meets an entry of a directory: what it asks to be copied, and where it still has
    /// to look.
    pub open spec fn met(
        self,
        after: TranscriptWalk<P>,
        place: P,
        action: EntryAction,
        copy: Option<(P, String)>,
    ) -> bool {
        match action {
            EntryAction::Skip => copy is None && after == self,
            EntryAction::Refuse => copy is None && after == self.failed(),
            EntryAction::Descend(path) => {
                &&& copy is None
                &&& after.directories@.drop_last() == self.directories@
                &&& after.directories@.len() == self.directories@.len() + 1
                &&& after.directories@.last().0 == place
                &&& after.directories@.last().1@ == path@
                &&& after == (TranscriptWalk { directories: after.directories, ..self })
            },
            EntryAction::Copy(path) => copy matches Some((own, below)) && own == place && below@
                == path@ && after == self,
        }
    }

    /// Meets an entry of a directory. A transcript is handed out, to be copied under its path below the
    /// root.
    pub fn meet(&mut self, place: P, directory: &str, name: &str, kind: EntryKind) -> (copy: Option<
        (P, String),
    >)
        ensures
            exists|action: EntryAction| #[trigger]
                entry_asks(action, directory@, name@, kind) && old(self).met(
                    *final(self),
                    place,
                    action,
                    copy,
                ),
    {
        let action = entry_action(directory, name, kind);
        let ghost asked = action;
        assert(entry_asks(asked, directory@, name@, kind));
        match action {
            EntryAction::Skip => {
                assert(old(self).met(*self, place, asked, None));
                None
            },
            EntryAction::Refuse => {
                self.fail();
                assert(old(self).met(*self, place, asked, None));
                None
            },
            EntryAction::Descend(path) => {
                self.directories.push((place, path));
                assert(self.directories@.drop_last() =~= old(self).directories@);
                assert(old(self).met(*self, place, asked, None));
                None
            },
            EntryAction::Copy(path) => {
                assert(old(self).met(*self, place, asked, Some((place, path))));
                Some((place, path))
            },
        }
    }

    /// A transcript was copied, with this length and this checksum, or could not be.
    pub fn copied(&mut self, relative_path: String, outcome: Result<(u64, String), String>)
        ensures
            old(self).noted(*final(self), relative_path, outcome),
    {
        match outcome {
            Ok((bytes, sha256)) => self.files.push(CopiedFile { relative_path, bytes, sha256 }),
            Err(_) => self.fail(),
        }
    }

    /// What became of the transcripts, once every directory was looked into or the export was
    /// cancelled.
    pub fn finish(self, cancelled: bool) -> (outcome: ClientOutcome)
        ensures
            if cancelled {
                outcome is Cancelled
            } else {
                match outcome {
                    ClientOutcome::Copied { files, errors } => files@ == sorted(
                        self.files@,
                        file_before(),
                    ) && errors == self.errors,
                    _ => false,
                }
            },
    {
        if cancelled {
            ClientOutcome::Cancelled
        } else {
            settle_transcripts(self.files, self.errors)
        }
    }
}

/// Machines in the order of their ids.
pub fn sort_machines(machines: Vec<MachineStatus>) -> (list: Vec<MachineStatus>)
    ensures
        list@ == sorted(machines@, machine_before()),
{
    sort(
        machines,
        is_machine_before,
        Ghost(machine_before()),
    )
}

fn is_root_before(left: &ClientRootInput, right: &ClientRootInput) -> (yes: bool)
    ensures
        yes == root_before(*left, *right),
{
    if is_before(&left.host_id, &right.host_id) {
        return true;
    }
    if !same_text(&left.host_id, &right.host_id) {
        return false;
    }
    if is_before(&left.workspace_id, &right.workspace_id) {
        return true;
    }
    if !same_text(&left.workspace_id, &right.workspace_id) {
        return false;
    }
    is_before(&left.session_id, &right.session_id)
}

/// Sessions in the order of their hosts, their workspaces and their ids.
pub fn sort_clients(clients: Vec<ClientStatus>) -> (list: Vec<ClientStatus>)
    ensures
        list@ == sorted(clients@, client_before()),
{
    sort(
        clients,
        is_client_before,
        Ghost(client_before()),
    )
}

/// The manifest lists every machine, every session and every transcript of a session, and nothing
/// else, in order.
pub proof fn the_manifest_is_in_order(
    machines: Seq<MachineStatus>,
    clients: Seq<ClientStatus>,
    files: Seq<CopiedFile>,
)
    ensures
        in_order(sorted(files, file_before()), file_before()),
        sorted(files, file_before()).to_multiset() == files.to_multiset(),
        in_order(sorted(machines, machine_before()), machine_before()),
        sorted(machines, machine_before()).to_multiset() == machines.to_multiset(),
        in_order(sorted(clients, client_before()), client_before()),
        sorted(clients, client_before()).to_multiset() == clients.to_multiset(),
{
    orders_by_text(file_before(), |file: CopiedFile| file.relative_path@);
    sorting_orders(files, file_before());
    orders_by_text(machine_before(), |status: MachineStatus| status.id@);
    sorting_orders(machines, machine_before());
    assert forall|a: ClientStatus, b: ClientStatus| #[trigger]
        client_before()(a, b) implies !client_before()(b, a) by {
        lemma_root_order(a.root, b.root, a.root);
    }
    assert forall|a: ClientStatus, b: ClientStatus, c: ClientStatus|
        #![trigger client_before()(b, a), client_before()(c, b)]
        !client_before()(b, a) && !client_before()(c, b) implies !client_before()(c, a) by {
        lemma_root_order(a.root, b.root, c.root);
    }
    sorting_orders(clients, client_before());
}

proof fn lemma_root_order(a: ClientRootInput, b: ClientRootInput, c: ClientRootInput)
    ensures
        root_before(a, b) ==> !root_before(b, a),
        !root_before(b, a) && !root_before(c, b) ==> !root_before(c, a),
{
    lemma_text_order(a.host_id@, b.host_id@, c.host_id@);
    lemma_text_order(a.workspace_id@, b.workspace_id@, c.workspace_id@);
    lemma_text_order(a.session_id@, b.session_id@, c.session_id@);
}

/// How a count of failed copies is called.
pub open spec fn availability(errors: int) -> Seq<char> {
    if errors == 0 {
        "available"@
    } else {
        "partial"@
    }
}

/// What is written about a machine.
pub open spec fn machine_json(status: MachineStatus) -> Json {
    let named = map!["id"@ => Json::Text(status.id@), "label"@ => Json::Text(status.label@)];
    Json::Members(
        match status.outcome {
            MachineOutcome::Copied { files, errors } => named.insert(
                "availability"@,
                Json::Text(availability(errors as int)),
            ).insert("files"@, number_json(files as u64)).insert(
                "copyErrors"@,
                number_json(errors as u64),
            ),
            MachineOutcome::Failed(error) => named.insert(
                "availability"@,
                Json::Text("error"@),
            ).insert("error"@, Json::Text(error@)),
            MachineOutcome::Offline(reason) => named.insert(
                "availability"@,
                Json::Text("offline"@),
            ).insert(
                "reason"@,
                Json::Text(
                    match reason {
                        Some(reason) => reason@,
                        None => "no fresh snapshot"@,
                    },
                ),
            ),
        },
    )
}

/// What is written about a machine.
pub fn machine_value(status: &MachineStatus) -> (value: serde_json::Value)
    ensures
        json(value) == machine_json(*status),
{
    let mut value = null();
    set_member(&mut value, "id", text_value(&status.id));
    set_member(&mut value, "label", text_value(&status.label));
    assert(members_of(json(value)) =~= map![
        "id"@ => Json::Text(status.id@),
        "label"@ => Json::Text(status.label@),
    ]);
    match &status.outcome {
        MachineOutcome::Copied { files, errors } => {
            let word = if *errors == 0 {
                "available"
            } else {
                "partial"
            };
            set_member(&mut value, "availability", text_value(word));
            set_member(&mut value, "files", number_value(*files as u64));
            set_member(&mut value, "copyErrors", number_value(*errors as u64));
        },
        MachineOutcome::Failed(error) => {
            set_member(&mut value, "availability", text_value("error"));
            set_member(&mut value, "error", text_value(error));
        },
        MachineOutcome::Offline(reason) => {
            set_member(&mut value, "availability", text_value("offline"));
            let word = match reason {
                Some(reason) => text_value(reason),
                None => text_value("no fresh snapshot"),
            };
            set_member(&mut value, "reason", word);
        },
    }
    value
}

/// What is written about a transcript.
pub open spec fn file_json(file: CopiedFile) -> Json {
    Json::Members(
        map![
            "relativePath"@ => Json::Text(file.relative_path@),
            "bytes"@ => number_json(file.bytes),
            "sha256"@ => Json::Text(file.sha256@),
        ],
    )
}

fn file_value(file: &CopiedFile) -> (value: serde_json::Value)
    ensures
        json(value) == file_json(*file),
{
    let mut value = null();
    set_member(&mut value, "relativePath", text_value(&file.relative_path));
    set_member(&mut value, "bytes", number_value(file.bytes));
    set_member(&mut value, "sha256", text_value(&file.sha256));
    assert(members_of(json(value)) =~= members_of(file_json(*file)));
    value
}

fn file_values(files: &Vec<CopiedFile>) -> (value: serde_json::Value)
    ensures
        json(value) == Json::List(files@.map_values(|file: CopiedFile| file_json(file))),
{
    let mut values: Vec<serde_json::Value> = Vec::new();
    let mut at: usize = 0;
    while at < files.len()
        invariant
            at <= files@.len(),
            values@.len() == at,
            forall|i: int| 0 <= i < at ==> json(#[trigger] values@[i]) == file_json(files@[i]),
        decreases files@.len() - at,
    {
        values.push(file_value(&files[at]));
        at = at + 1;
    }
    assert(jsons(values@) =~= files@.map_values(|file: CopiedFile| file_json(file)));
    list_value(values)
}

/// What is written about the session that transcripts belong to.
pub open spec fn root_json(root: ClientRootInput) -> Json {
    Json::Members(
        map![
            "hostId"@ => Json::Text(root.host_id@),
            "workspaceId"@ => Json::Text(root.workspace_id@),
            "sessionId"@ => Json::Text(root.session_id@),
            "provider"@ => Json::Text(root.provider@),
            "model"@ => Json::Text(root.model@),
            "rootKey"@ => Json::Text(
                match file_name_of(root.root@) {
                    Some(name) => name,
                    None => seq![],
                },
            ),
        ],
    )
}

fn root_value(root: &ClientRootInput) -> (value: serde_json::Value)
    ensures
        json(value) == root_json(*root),
{
    let mut value = null();
    set_member(&mut value, "hostId", text_value(&root.host_id));
    set_member(&mut value, "workspaceId", text_value(&root.workspace_id));
    set_member(&mut value, "sessionId", text_value(&root.session_id));
    set_member(&mut value, "provider", text_value(&root.provider));
    set_member(&mut value, "model", text_value(&root.model));
    let key = match file_name(&root.root) {
        Some(name) => name,
        None => String::new(),
    };
    set_member(&mut value, "rootKey", text_value(&key));
    assert(members_of(json(value)) =~= members_of(root_json(*root)));
    value
}

/// What is written about the transcripts of a session.
pub open spec fn client_json(status: ClientStatus) -> Json {
    let base = map!["metadata"@ => root_json(status.root)];
    Json::Members(
        match status.outcome {
            ClientOutcome::NotADirectory => base.insert(
                "availability"@,
                Json::Text("partial"@),
            ).insert("error"@, Json::Text("registered Pi root is not a directory"@)),
            ClientOutcome::Unreadable(error) => base.insert(
                "availability"@,
                Json::Text("partial"@),
            ).insert("error"@, Json::Text("registered Pi root unavailable: "@ + error@)),
            ClientOutcome::Cancelled => base.insert("availability"@, Json::Text("cancelled"@)),
            ClientOutcome::Copied { files, errors } => base.insert(
                "availability"@,
                Json::Text(availability(errors as int)),
            ).insert("fileCount"@, number_json(files@.len() as u64)).insert(
                "files"@,
                Json::List(files@.map_values(|file: CopiedFile| file_json(file))),
            ).insert("copyErrors"@, number_json(errors)),
        },
    )
}

/// What is written about the transcripts of a session.
pub fn client_value(status: &ClientStatus) -> (value: serde_json::Value)
    ensures
        json(value) == client_json(*status),
{
    let mut value = null();
    set_member(&mut value, "metadata", root_value(&status.root));
    match &status.outcome {
        ClientOutcome::NotADirectory => {
            set_member(&mut value, "availability", text_value("partial"));
            set_member(
                &mut value,
                "error",
                text_value("registered Pi root is not a directory"),
            );
        },
        ClientOutcome::Unreadable(error) => {
            set_member(&mut value, "availability", text_value("partial"));
            set_member(
                &mut value,
                "error",
                text_value(&concat2("registered Pi root unavailable: ", error)),
            );
        },
        ClientOutcome::Cancelled => {
            set_member(&mut value, "availability", text_value("cancelled"));
        },
        ClientOutcome::Copied { files, errors } => {
            let word = if *errors == 0 {
                "available"
            } else {
                "partial"
            };
            set_member(&mut value, "availability", text_value(word));
            set_member(&mut value, "fileCount", number_value(files.len() as u64));
            set_member(&mut value, "files", file_values(files));
            set_member(&mut value, "copyErrors", number_value(*errors));
        },
    }
    value
}

/// Whether everything of a machine was copied.
pub open spec fn machine_complete(status: MachineStatus) -> bool {
    status.outcome matches MachineOutcome::Copied { errors, .. } && errors == 0
}

/// Whether everything of a session was copied.
pub open spec fn client_complete(status: ClientStatus) -> bool {
    status.outcome matches ClientOutcome::Copied { errors, .. } && errors == 0
}

/// Whether everything was copied.
pub open spec fn all_complete(machines: Seq<MachineStatus>, clients: Seq<ClientStatus>) -> bool {
    &&& forall|i: int| 0 <= i < machines.len() ==> machine_complete(#[trigger] machines[i])
    &&& forall|i: int| 0 <= i < clients.len() ==> client_complete(#[trigger] clients[i])
}

/// Whether everything was copied.
pub fn is_complete(machines: &Vec<MachineStatus>, clients: &Vec<ClientStatus>) -> (complete: bool)
    ensures
        complete == all_complete(machines@, clients@),
{
    let mut at: usize = 0;
    while at < machines.len()
        invariant
            at <= machines@.len(),
            forall|i: int| 0 <= i < at ==> machine_complete(#[trigger] machines@[i]),
        decreases machines@.len() - at,
    {
        let whole: bool = match &machines[at].outcome {
            MachineOutcome::Copied { errors, .. } => *errors == 0,
            _ => false,
        };
        if !whole {
            assert(!machine_complete(machines@[at as int]));
            return false;
        }
        at = at + 1;
    }
    let mut at: usize = 0;
    while at < clients.len()
        invariant
            at <= clients@.len(),
            forall|i: int| 0 <= i < at ==> client_complete(#[trigger] clients@[i]),
        decreases clients@.len() - at,
    {
        let whole: bool = match &clients[at].outcome {
            ClientOutcome::Copied { errors, .. } => *errors == 0,
            _ => false,
        };
        if !whole {
            assert(!client_complete(clients@[at as int]));
            return false;
        }
        at = at + 1;
    }
    true
}

/// What is written about a whole export.
pub open spec fn manifest_json(machines: Seq<MachineStatus>, clients: Seq<ClientStatus>) -> Json {
    Json::Members(
        map![
            "schemaVersion"@ => number_json(1),
            "scope"@ => Json::Text("all connected machines"@),
            "status"@ => Json::Text(if all_complete(machines, clients) {
                "complete"@
            } else {
                "partial"@
            }),
            "machines"@ => Json::List(
                machines.map_values(|status: MachineStatus| machine_json(status)),
            ),
            "clientPiSessions"@ => Json::List(
                clients.map_values(|status: ClientStatus| client_json(status)),
            ),
            "exclusions"@ => Json::List(
                seq![
                    Json::Text("stored authentication files"@),
                    Json::Text("provider credential stores"@),
                    Json::Text("process environment and argv"@),
                    Json::Text("SSH credentials and tokens"@),
                ],
            ),
        ],
    )
}

/// The manifest of an export, with machines and sessions in order, and whether it is complete.
pub fn manifest_bytes(machines: Vec<MachineStatus>, clients: Vec<ClientStatus>) -> (manifest: (
    Result<Vec<u8>, String>,
    ExportSummary,
))
    ensures
        ({
            let sorted_machines = sorted(machines@, machine_before());
            let sorted_clients = sorted(clients@, client_before());
            &&& match (json_pretty(manifest_json(sorted_machines, sorted_clients)), manifest.0) {
                (Ok(written), Ok(bytes)) => bytes@ == written,
                (Err(words), Err(error)) => error@ == words,
                _ => false,
            }
            &&& manifest.1.complete == all_complete(sorted_machines, sorted_clients)
        }),
{
    let machines = sort_machines(machines);
    let clients = sort_clients(clients);
    let complete: bool = is_complete(&machines, &clients);
    let mut machine_values: Vec<serde_json::Value> = Vec::new();
    let mut at: usize = 0;
    while at < machines.len()
        invariant
            at <= machines@.len(),
            machine_values@.len() == at,
            forall|i: int|
                0 <= i < at ==> json(#[trigger] machine_values@[i]) == machine_json(machines@[i]),
        decreases machines@.len() - at,
    {
        machine_values.push(machine_value(&machines[at]));
        at = at + 1;
    }
    assert(jsons(machine_values@) =~= machines@.map_values(
        |status: MachineStatus| machine_json(status),
    ));
    let mut client_values: Vec<serde_json::Value> = Vec::new();
    let mut at: usize = 0;
    while at < clients.len()
        invariant
            at <= clients@.len(),
            client_values@.len() == at,
            forall|i: int|
                0 <= i < at ==> json(#[trigger] client_values@[i]) == client_json(clients@[i]),
        decreases clients@.len() - at,
    {
        client_values.push(client_value(&clients[at]));
        at = at + 1;
    }
    assert(jsons(client_values@) =~= clients@.map_values(
        |status: ClientStatus| client_json(status),
    ));
    let mut exclusions: Vec<serde_json::Value> = Vec::new();
    exclusions.push(text_value("stored authentication files"));
    exclusions.push(text_value("provider credential stores"));
    exclusions.push(text_value("process environment and argv"));
    exclusions.push(text_value("SSH credentials and tokens"));
    assert(jsons(exclusions@) =~= seq![
        Json::Text("stored authentication files"@),
        Json::Text("provider credential stores"@),
        Json::Text("process environment and argv"@),
        Json::Text("SSH credentials and tokens"@),
    ]);
    let mut value = null();
    set_member(&mut value, "schemaVersion", number_value(1));
    set_member(&mut value, "scope", text_value("all connected machines"));
    set_member(
        &mut value,
        "status",
        text_value(if complete { "complete" } else { "partial" }),
    );
    set_member(&mut value, "machines", list_value(machine_values));
    set_member(&mut value, "clientPiSessions", list_value(client_values));
    set_member(&mut value, "exclusions", list_value(exclusions));
    assert(members_of(json(value)) =~= members_of(manifest_json(machines@, clients@)));
    (encode_pretty(&value), ExportSummary { complete })
}

} // verus!
