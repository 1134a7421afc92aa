//! Saved conversations: reading them, exporting them and following up on them.

use vstd::prelude::*;
use vstd::string::*;

use crate::app::{
    next_number, number_after, App, ArchiveRequest, ArchivedConversation, FollowupPreview,
    SavedTranscript,
};
use crate::hosts::HostId;
use crate::navigation::{find_archive, of_agent, optional_scoped};
use crate::protocol::ConversationBlock;
use crate::seqs::position_is_first;
use crate::text::{blank, concat2, concat3, is_blank, optional, pieces, same_text, split_on};

verus! {

/// Whether a list holds the conversation of an agent.
pub open spec fn lists_agent(archives: Seq<ArchivedConversation>, agent_id: Seq<char>) -> bool {
    exists|i: int| 0 <= i < archives.len() && (#[trigger] archives[i]).agent_id@ == agent_id
}

/// A list with those conversations behind it whose agents it does not hold yet.
pub open spec fn joined(
    archives: Seq<ArchivedConversation>,
    arriving: Seq<ArchivedConversation>,
) -> Seq<ArchivedConversation>
    decreases arriving.len(),
{
    if arriving.len() == 0 {
        archives
    } else {
        let before = joined(archives, arriving.drop_last());
        if lists_agent(before, arriving.last().agent_id@) {
            before
        } else {
            before.push(arriving.last())
        }
    }
}

/// Whether no agent has two conversations in a list.
pub open spec fn agents_differ(archives: Seq<ArchivedConversation>) -> bool {
    forall|i: int, j: int|
        0 <= i < j < archives.len() ==> (#[trigger] archives[i]).agent_id@ != (
        #[trigger] archives[j]).agent_id@
}

/// However often a page of the archive arrives, no agent is listed twice, and what was listed stays
/// where it is.
pub proof fn archives_list_an_agent_once(
    archives: Seq<ArchivedConversation>,
    arriving: Seq<ArchivedConversation>,
)
    requires
        agents_differ(archives),
    ensures
        agents_differ(joined(archives, arriving)),
        archives.is_prefix_of(joined(archives, arriving)),
        forall|i: int|
            0 <= i < arriving.len() ==> lists_agent(
                joined(archives, arriving),
                (#[trigger] arriving[i]).agent_id@,
            ),
    decreases arriving.len(),
{
    if arriving.len() > 0 {
        let before = joined(archives, arriving.drop_last());
        let after = joined(archives, arriving);
        archives_list_an_agent_once(archives, arriving.drop_last());
        assert forall|i: int| 0 <= i < arriving.len() implies lists_agent(
            after,
            (#[trigger] arriving[i]).agent_id@,
        ) by {
            if i < arriving.len() - 1 {
                assert(arriving.drop_last()[i] == arriving[i]);
                assert(lists_agent(before, arriving[i].agent_id@));
                let at = choose|k: int|
                    0 <= k < before.len() && (#[trigger] before[k]).agent_id@
                        == arriving[i].agent_id@;
                assert(after[at] == before[at]);
            } else if !lists_agent(before, arriving.last().agent_id@) {
                assert(after[before.len() as int] == arriving.last());
            }
        }
    }
}

fn join(archives: &Vec<ArchivedConversation>, arriving: &Vec<ArchivedConversation>) -> (list: Vec<
    ArchivedConversation,
>)
    ensures
        list@ == joined(archives@, arriving@),
{
    let mut list: Vec<ArchivedConversation> = Vec::new();
    let mut at: usize = 0;
    while at < archives.len()
        invariant
            at <= archives@.len(),
            list@ == archives@.take(at as int),
        decreases archives@.len() - at,
    {
        list.push(archives[at].clone());
        at = at + 1;
    }
    assert(archives@.take(at as int) =~= archives@);
    let mut at: usize = 0;
    assert(arriving@.take(0) =~= Seq::empty());
    while at < arriving.len()
        invariant
            at <= arriving@.len(),
            list@ == joined(archives@, arriving@.take(at as int)),
        decreases arriving@.len() - at,
    {
        let ghost now = arriving@.take(at + 1);
        assert(now.drop_last() =~= arriving@.take(at as int));
        assert(now.last() == arriving@[at as int]);
        proof {
            position_is_first(list@, of_agent(arriving@[at as int].agent_id@), 0);
        }
        match find_archive(&list, &arriving[at].agent_id) {
            Some(found) => {
                assert(list@[found as int].agent_id@ == arriving@[at as int].agent_id@);
            },
            None => {
                assert forall|i: int| 0 <= i < list@.len() implies (
                #[trigger] list@[i]).agent_id@ != arriving@[at as int].agent_id@ by {
                    assert(!of_agent(arriving@[at as int].agent_id@)(list@[i]));
                }
                list.push(arriving[at].clone());
            },
        }
        at = at + 1;
    }
    assert(arriving@.take(at as int) =~= arriving@);
    list
}

/// A transcript after a page arrived: an older page stands before what was loaded, any other page
/// takes its place.
pub open spec fn paged(
    saved: Option<SavedTranscript>,
    page: SavedTranscript,
    older: bool,
    after: SavedTranscript,
) -> bool {
    match saved {
        Some(saved) if older => {
            &&& after.archive == saved.archive
            &&& after.blocks@ == page.blocks@ + saved.blocks@
            &&& after.prev_cursor == page.prev_cursor
        },
        _ => after == page,
    }
}

fn put_page(saved: Option<SavedTranscript>, page: SavedTranscript, older: bool) -> (after:
    SavedTranscript)
    ensures
        paged(saved, page, older, after),
{
    match saved {
        Some(saved) => if older {
            let mut blocks = page.blocks;
            let mut loaded = saved.blocks;
            blocks.append(&mut loaded);
            SavedTranscript { archive: saved.archive, blocks, prev_cursor: page.prev_cursor }
        } else {
            page
        },
        None => page,
    }
}

/// The number of lines that a line takes where it is broken at a width.
pub open spec fn broken(length: nat, width: nat) -> nat {
    if length == 0 {
        1
    } else {
        ((length + width - 1) / width as int) as nat
    }
}

/// The number of lines that texts take where they are broken at a width.
pub open spec fn broken_lines(lines: Seq<Seq<char>>, width: nat) -> nat
    decreases lines.len(),
{
    if lines.len() == 0 {
        0
    } else {
        broken_lines(lines.drop_last(), width) + broken(lines.last().len(), width)
    }
}

/// A block as it is shown.
pub open spec fn block_text(block: ConversationBlock) -> Seq<char> {
    block.role@ + ": "@ + block.text@
}

/// The number of lines that blocks take where they are broken at a width.
pub open spec fn blocks_height(blocks: Seq<ConversationBlock>, width: nat) -> nat
    decreases blocks.len(),
{
    if blocks.len() == 0 {
        0
    } else {
        blocks_height(blocks.drop_last(), width) + broken_lines(
            pieces(block_text(blocks.last()), '\n'),
            width,
        )
    }
}

/// The number of lines of a transcript: three above its blocks, and one in their place where there
/// are none.
pub open spec fn transcript_height(blocks: Seq<ConversationBlock>, width: nat) -> nat {
    3 + if blocks.len() == 0 {
        1
    } else {
        blocks_height(blocks, width)
    }
}

/// More lines than any screen and any offset hold together.
pub const MANY_LINES: usize = 200_000;

/// A number, or the largest that matters.
pub open spec fn capped(number: nat) -> usize {
    if number > MANY_LINES {
        MANY_LINES
    } else {
        number as usize
    }
}

fn sum_capped(a: usize, b: usize) -> (sum: usize)
    requires
        a <= MANY_LINES,
    ensures
        sum == capped((a + b) as nat),
{
    if b > MANY_LINES - a {
        MANY_LINES
    } else {
        a + b
    }
}

fn count_broken(length: usize, width: usize) -> (lines: usize)
    requires
        width > 0,
    ensures
        lines == broken(length as nat, width as nat),
{
    if length == 0 {
        return 1;
    }
    assert((length + width - 1) / width as int == (length - 1) / width as int + 1)
        by (nonlinear_arith)
        requires
            length > 0,
            width > 0,
    ;
    assert((length - 1) / width as int <= length - 1) by (nonlinear_arith)
        requires
            length > 0,
            width > 0,
    ;
    (length - 1) / width + 1
}

fn count_lines(text: &str, width: usize) -> (lines: usize)
    requires
        width > 0,
    ensures
        lines == capped(broken_lines(pieces(text@, '\n'), width as nat)),
{
    let parts = split_on(text, '\n');
    let ghost all = pieces(text@, '\n');
    let mut lines: usize = 0;
    let mut at: usize = 0;
    assert(all.len() == parts@.len());
    while at < parts.len()
        invariant
            at <= parts@.len(),
            width > 0,
            all.len() == parts@.len(),
            all == crate::text::texts(parts@),
            lines == capped(broken_lines(all.take(at as int), width as nat)),
        decreases parts@.len() - at,
    {
        let ghost now = all.take(at + 1);
        assert(now.drop_last() =~= all.take(at as int));
        assert(now.last() == parts@[at as int]@);
        let length: usize = parts[at].as_str().unicode_len();
        let more: usize = count_broken(length, width);
        lines = sum_capped(lines, more);
        at = at + 1;
    }
    assert(all.take(at as int) =~= all);
    lines
}

fn count_blocks(blocks: &Vec<ConversationBlock>, width: usize) -> (lines: usize)
    requires
        width > 0,
    ensures
        lines == capped(blocks_height(blocks@, width as nat)),
{
    let mut lines: usize = 0;
    let mut at: usize = 0;
    while at < blocks.len()
        invariant
            at <= blocks@.len(),
            width > 0,
            lines == capped(blocks_height(blocks@.take(at as int), width as nat)),
        decreases blocks@.len() - at,
    {
        let ghost now = blocks@.take(at + 1);
        assert(now.drop_last() =~= blocks@.take(at as int));
        assert(now.last() == blocks@[at as int]);
        let text = concat3(&blocks[at].role, ": ", &blocks[at].text);
        let more: usize = count_lines(&text, width);
        lines = sum_capped(lines, more);
        at = at + 1;
    }
    assert(blocks@.take(at as int) =~= blocks@);
    lines
}

/// An offset moved by a number of lines, and no further than a limit.
pub open spec fn scrolled(offset: u16, delta: isize, limit: u16) -> u16 {
    let step = if delta < i16::MIN {
        i16::MIN as int
    } else if delta > i16::MAX {
        i16::MAX as int
    } else {
        delta as int
    };
    let place = offset + step;
    if place < 0 {
        0
    } else if place > limit {
        limit
    } else {
        place as u16
    }
}

fn scroll(offset: u16, delta: isize, limit: u16) -> (place: u16)
    ensures
        place == scrolled(offset, delta, limit),
{
    let step: i32 = if delta < -32768 {
        -32768
    } else if delta > 32767 {
        32767
    } else {
        delta as i32
    };
    let place: i32 = offset as i32 + step;
    if place < 0 {
        0
    } else if place > limit as i32 {
        limit
    } else {
        place as u16
    }
}

/// What the leader is asked for where a mission is to be followed up.
pub open spec fn followup_draft(mission_id: Seq<char>, objective: Seq<char>) -> Seq<char> {
    "Create a new mission with neta_mission. Choose a meaningful name and set its `continues` parameter to `"@
        + mission_id + "`. Use this original objective as context:\n\n> "@ + objective
        + "\n\nDo not resume the archived session."@
}

fn write_followup(mission_id: &str, objective: &str) -> (draft: String)
    ensures
        draft@ == followup_draft(mission_id@, objective@),
{
    let start = concat3(
        "Create a new mission with neta_mission. Choose a meaningful name and set its `continues` parameter to `",
        mission_id,
        "`. Use this original objective as context:\n\n> ",
    );
    concat3(&start, objective, "\n\nDo not resume the archived session.")
}

impl App {
    /// Whether the archive is to be loaded. It is asked for once.
    pub fn take_archive_load(&mut self) -> (wanted: bool)
        ensures
            wanted == old(self).archive_load_requested,
            *final(self) == (App { archive_load_requested: false, ..*old(self) }),
    {
        let wanted: bool = self.archive_load_requested;
        self.archive_load_requested = false;
        wanted
    }

    /// The page of a saved conversation that is wanted. It is asked for once.
    pub fn take_archive_tail(&mut self) -> (request: Option<
        (u64, ArchivedConversation, Option<String>),
    >)
        ensures
            request == (match old(self).pending_archive {
                Some(request) => Some((request.id, request.archive, request.cursor)),
                None => None,
            }),
            *final(self) == (App { pending_archive: None, ..*old(self) }),
    {
        match self.pending_archive.take() {
            Some(request) => Some((request.id, request.archive, request.cursor)),
            None => None,
        }
    }

    /// What a page of the archive does: it is of use only where it belongs to the workspace that is
    /// shown.
    pub open spec fn archives_arrived(
        self,
        after: App,
        workspace_id: Seq<char>,
        archives: Seq<ArchivedConversation>,
        next_cursor: Option<String>,
    ) -> bool {
        if self.workspace() == Some(workspace_id) {
            &&& after.archives@ == joined(self.archives@, archives)
            &&& after == (App { archives: after.archives, archive_next_cursor: next_cursor, ..self })
        } else {
            after == self
        }
    }

    /// Takes a page of the archive in, where it belongs to the workspace that is shown.
    pub fn set_archives(
        &mut self,
        workspace_id: &str,
        archives: Vec<ArchivedConversation>,
        next_cursor: Option<String>,
    )
        ensures
            old(self).archives_arrived(*final(self), workspace_id@, archives@, next_cursor),
    {
        if !self.in_workspace(workspace_id) {
            return;
        }
        let list = join(&self.archives, &archives);
        self.archives = list;
        self.archive_next_cursor = next_cursor;
    }

    /// Whether a page of a saved conversation answers the request that is open, and belongs to what
    /// is shown.
    pub open spec fn awaits_page(
        self,
        request_id: u64,
        archive: ArchivedConversation,
        older: bool,
    ) -> bool {
        &&& self.workspace() == Some(archive.workspace_id@)
        &&& self.active_archive_request == Some(request_id)
        &&& older ==> match self.saved_transcript {
            Some(saved) => saved.archive.agent_id@ == archive.agent_id@,
            None => true,
        }
    }

    fn is_awaited(&self, request_id: u64, archive: &ArchivedConversation, older: bool) -> (yes: bool)
        ensures
            yes == self.awaits_page(request_id, *archive, older),
    {
        if !self.in_workspace(&archive.workspace_id) {
            return false;
        }
        match self.active_archive_request {
            Some(active) => if active != request_id {
                return false;
            },
            None => return false,
        }
        match &self.saved_transcript {
            Some(saved) => !older || same_text(&saved.archive.agent_id, &archive.agent_id),
            None => true,
        }
    }

    /// What a page of a saved conversation does.
    pub open spec fn page_arrived(
        self,
        after: App,
        request_id: u64,
        page: SavedTranscript,
        older: bool,
    ) -> bool {
        if self.awaits_page(request_id, page.archive, older) {
            &&& after.saved_transcript is Some
            &&& paged(self.saved_transcript, page, older, after.saved_transcript->0)
            &&& after == (App {
                saved_transcript: after.saved_transcript,
                archive_loading: false,
                saved_scroll: 0,
                ..self
            })
        } else {
            after == self
        }
    }

    /// Takes a page of a saved conversation in. A page that is not awaited changes nothing, so one
    /// that comes late cannot take the place of what was chosen since.
    pub fn set_saved_transcript(
        &mut self,
        request_id: u64,
        archive: ArchivedConversation,
        blocks: Vec<ConversationBlock>,
        prev_cursor: Option<String>,
        older: bool,
    )
        ensures
            old(self).page_arrived(
                *final(self),
                request_id,
                SavedTranscript { archive, blocks, prev_cursor },
                older,
            ),
    {
        if !self.is_awaited(request_id, &archive, older) {
            return;
        }
        let page = SavedTranscript { archive, blocks, prev_cursor };
        let saved = put_page(self.saved_transcript.take(), page, older);
        self.saved_transcript = Some(saved);
        self.archive_loading = false;
        self.saved_scroll = 0;
    }

    /// The page before the first that was loaded.
    pub open spec fn older_page(self) -> Option<(ArchivedConversation, String)> {
        match self.saved_transcript {
            Some(saved) => match saved.prev_cursor {
                Some(cursor) => Some((saved.archive, cursor)),
                None => None,
            },
            None => None,
        }
    }

    fn find_older_page(&self) -> (page: Option<(ArchivedConversation, String)>)
        ensures
            page == self.older_page(),
    {
        match &self.saved_transcript {
            Some(saved) => match &saved.prev_cursor {
                Some(cursor) => Some((saved.archive.clone(), cursor.clone())),
                None => None,
            },
            None => None,
        }
    }

    /// The page before the first that was loaded is wanted, unless one is being loaded.
    pub open spec fn asked_older(self) -> App {
        match self.older_page() {
            Some((archive, cursor)) if !self.archive_loading => {
                let request = next_number(self.next_archive_request);
                App {
                    next_archive_request: request,
                    pending_archive: Some(
                        ArchiveRequest { id: request, archive, cursor: Some(cursor) },
                    ),
                    active_archive_request: Some(request),
                    archive_loading: true,
                    ..self
                }
            },
            _ => self,
        }
    }

    /// Asks for the page before the first that was loaded, unless one is being loaded.
    pub fn request_older_archive(&mut self)
        ensures
            *final(self) == old(self).asked_older(),
    {
        if self.archive_loading {
            return;
        }
        let (archive, cursor) = match self.find_older_page() {
            Some(page) => page,
            None => return,
        };
        let request: u64 = number_after(self.next_archive_request);
        self.next_archive_request = request;
        self.pending_archive = Some(ArchiveRequest { id: request, archive, cursor: Some(cursor) });
        self.active_archive_request = Some(request);
        self.archive_loading = true;
    }

    /// A page could not be loaded. Of a request that is no longer open nothing is told.
    pub fn archive_failed(&mut self, request_id: u64, message: String)
        ensures
            *final(self) == (if old(self).active_archive_request == Some(request_id) {
                App { archive_loading: false, error: Some(message), ..*old(self) }
            } else {
                *old(self)
            }),
    {
        match self.active_archive_request {
            Some(active) => if active != request_id {
                return;
            },
            None => return,
        }
        self.archive_loading = false;
        self.error = Some(message);
    }

    /// Whether a saved conversation is shown or loaded.
    pub open spec fn reads_archive(self) -> bool {
        self.archive_loading || self.saved_transcript is Some
    }

    /// Whether a saved conversation is shown or loaded.
    pub fn is_read_only_archive(&self) -> (yes: bool)
        ensures
            yes == self.reads_archive(),
    {
        self.archive_loading || self.saved_transcript.is_some()
    }

    /// How far a saved conversation can be scrolled: by the lines that do not fit the pane.
    pub open spec fn scroll_limit(self) -> u16 {
        match self.saved_transcript {
            Some(saved) => {
                let width: nat = if self.pane_area.width <= 3 {
                    1
                } else {
                    (self.pane_area.width - 2) as nat
                };
                let height = if self.pane_area.height <= 2 {
                    0
                } else {
                    self.pane_area.height - 2
                };
                let hidden = transcript_height(saved.blocks@, width) - height;
                if hidden < 0 {
                    0
                } else if hidden > u16::MAX {
                    u16::MAX
                } else {
                    hidden as u16
                }
            },
            None => 0,
        }
    }

    /// How far a saved conversation can be scrolled.
    pub fn saved_scroll_limit(&self) -> (limit: u16)
        ensures
            limit == self.scroll_limit(),
    {
        let saved = match &self.saved_transcript {
            Some(saved) => saved,
            None => return 0,
        };
        let width: usize = if self.pane_area.width <= 3 {
            1
        } else {
            (self.pane_area.width - 2) as usize
        };
        let height: usize = if self.pane_area.height <= 2 {
            0
        } else {
            (self.pane_area.height - 2) as usize
        };
        let lines: usize = if saved.blocks.len() == 0 {
            4
        } else {
            3 + count_blocks(&saved.blocks, width)
        };
        if lines <= height {
            0
        } else if lines - height > 65535 {
            u16::MAX
        } else {
            (lines - height) as u16
        }
    }

    /// The saved conversation scrolled.
    pub open spec fn scrolled_saved(self, delta: isize) -> App {
        App { saved_scroll: scrolled(self.saved_scroll, delta, self.scroll_limit()), ..self }
    }

    /// Scrolls the saved conversation.
    pub fn scroll_saved(&mut self, delta: isize)
        ensures
            *final(self) == old(self).scrolled_saved(delta),
    {
        let limit: u16 = self.saved_scroll_limit();
        self.saved_scroll = scroll(self.saved_scroll, delta, limit);
    }

    /// The state in which no saved conversation is shown, loaded, exported or followed up.
    pub open spec fn without_saved_transcript(self) -> App {
        App {
            pending_archive: None,
            active_archive_request: None,
            archive_loading: false,
            saved_transcript: None,
            saved_scroll: 0,
            export_path: None,
            fixed_preview: None,
            followup_objective_requested: false,
            pending_followup_draft: None,
            ..self
        }
    }

    /// Goes back from a saved conversation to the pane.
    pub fn clear_saved_transcript(&mut self)
        ensures
            *final(self) == old(self).without_saved_transcript(),
    {
        self.pending_archive = None;
        self.active_archive_request = None;
        self.archive_loading = false;
        self.saved_transcript = None;
        self.saved_scroll = 0;
        self.export_path = None;
        self.fixed_preview = None;
        self.followup_objective_requested = false;
        self.pending_followup_draft = None;
    }

    /// The mission of the saved conversation is followed up, and its objective is wanted.
    pub open spec fn begun_followup(self) -> App {
        match self.saved_transcript {
            Some(saved) => App {
                fixed_preview: Some(
                    FollowupPreview {
                        archive: saved.archive,
                        host_id: self.selected_host,
                        objective: None,
                    },
                ),
                followup_objective_requested: true,
                ..self
            },
            None => self,
        }
    }

    /// Starts to follow up on the mission of the saved conversation.
    pub fn begin_followup_preview(&mut self)
        ensures
            *final(self) == old(self).begun_followup(),
    {
        let archive = match &self.saved_transcript {
            Some(saved) => saved.archive.clone(),
            None => return,
        };
        let host_id = self.selected_host.clone();
        self.fixed_preview = Some(FollowupPreview { archive, host_id, objective: None });
        self.followup_objective_requested = true;
    }

    /// The conversation whose objective is wanted. It is asked for once.
    pub fn take_followup_objective_request(&mut self) -> (request: Option<
        (HostId, ArchivedConversation),
    >)
        ensures
            request == (match old(self).fixed_preview {
                Some(preview) if old(self).followup_objective_requested => Some(
                    (preview.host_id, preview.archive),
                ),
                _ => None,
            }),
            *final(self) == (App { followup_objective_requested: false, ..*old(self) }),
    {
        let wanted: bool = self.followup_objective_requested;
        self.followup_objective_requested = false;
        if !wanted {
            return None;
        }
        match &self.fixed_preview {
            Some(preview) => Some((preview.host_id.clone(), preview.archive.clone())),
            None => None,
        }
    }

    /// Whether a mission on a host is the one that is followed up.
    pub open spec fn follows_up(self, host: Seq<char>, archive: ArchivedConversation) -> bool {
        match self.fixed_preview {
            Some(preview) => preview.host_id@ == host && preview.archive.mission_id@
                == archive.mission_id@ && preview.archive.workspace_id@ == archive.workspace_id@,
            None => false,
        }
    }

    fn is_followed_up(&self, host_id: &HostId, archive: &ArchivedConversation) -> (yes: bool)
        ensures
            yes == self.follows_up(host_id@, *archive),
    {
        match &self.fixed_preview {
            Some(preview) => preview.host_id == *host_id && same_text(
                &preview.archive.mission_id,
                &archive.mission_id,
            ) && same_text(&preview.archive.workspace_id, &archive.workspace_id),
            None => false,
        }
    }

    /// What the objective of a mission does.
    pub open spec fn objective_arrived(
        self,
        host: Seq<char>,
        archive: ArchivedConversation,
        objective: String,
    ) -> App {
        if self.follows_up(host, archive) {
            App {
                fixed_preview: Some(
                    FollowupPreview { objective: Some(objective), ..self.fixed_preview->0 },
                ),
                ..self
            }
        } else {
            self
        }
    }

    /// The objective of a mission arrived. It is of use only where that mission is followed up.
    pub fn set_followup_objective(
        &mut self,
        host_id: &HostId,
        archive: &ArchivedConversation,
        objective: String,
    )
        ensures
            *final(self) == old(self).objective_arrived(host_id@, *archive, objective),
    {
        if !self.is_followed_up(host_id, archive) {
            return;
        }
        match self.fixed_preview.take() {
            Some(preview) => {
                self.fixed_preview = Some(
                    FollowupPreview {
                        archive: preview.archive,
                        host_id: preview.host_id,
                        objective: Some(objective),
                    },
                );
            },
            None => {},
        }
    }

    /// The objective could not be loaded.
    pub fn followup_failed(&mut self, message: String)
        ensures
            *final(self) == (if old(self).fixed_preview is Some {
                App { error: Some(message), ..*old(self) }
            } else {
                *old(self)
            }),
    {
        if self.fixed_preview.is_some() {
            self.error = Some(message);
        }
    }

    /// Gives the follow-up up.
    pub fn cancel_followup_preview(&mut self)
        ensures
            *final(self) == (App {
                fixed_preview: None,
                followup_objective_requested: false,
                ..*old(self)
            }),
    {
        self.fixed_preview = None;
        self.followup_objective_requested = false;
    }

    /// The mission that is followed up, and its objective.
    pub open spec fn followup(self) -> Option<(Seq<char>, Seq<char>)> {
        match self.fixed_preview {
            Some(preview) => match preview.objective {
                Some(objective) => Some((preview.archive.mission_id@, objective@)),
                None => None,
            },
            None => None,
        }
    }

    fn draft_followup(&self) -> (draft: Option<String>)
        ensures
            optional(draft) == (match self.followup() {
                Some((mission_id, objective)) => Some(followup_draft(mission_id, objective)),
                None => None,
            }),
    {
        match &self.fixed_preview {
            Some(preview) => match &preview.objective {
                Some(objective) => Some(write_followup(&preview.archive.mission_id, objective)),
                None => None,
            },
            None => None,
        }
    }

    /// What sending a follow-up does: the leader of the workspace is asked for, and the draft is kept
    /// until it is there.
    pub open spec fn sent_followup(self, after: App, draft: Seq<char>) -> bool {
        &&& optional(after.pending_followup_draft) == Some(draft)
        &&& optional_scoped(after.pending_target) == self.leader()
        &&& after == (App {
            fixed_preview: None,
            pending_followup_draft: after.pending_followup_draft,
            pending_target: after.pending_target,
            nav_focused: self.nav_focused && after.pending_target is None,
            ..self
        })
    }

    fn send_followup(&mut self, draft: String)
        ensures
            old(self).sent_followup(*final(self), draft@),
    {
        let target = self.leader_target();
        let focused: bool = self.nav_focused && target.is_none();
        self.fixed_preview = None;
        self.pending_followup_draft = Some(draft);
        self.pending_target = target;
        self.nav_focused = focused;
    }

    /// What submitting a follow-up does: it is sent once its objective is known.
    pub open spec fn submitted_followup(self, after: App) -> bool {
        match self.followup() {
            Some((mission_id, objective)) => self.sent_followup(
                after,
                followup_draft(mission_id, objective),
            ),
            None => if self.fixed_preview is Some {
                &&& optional(after.error) == Some("source mission objective is still loading"@)
                &&& after == (App { error: after.error, ..self })
            } else {
                after == self
            },
        }
    }

    /// Sends the follow-up to the leader of the workspace, once its objective is known.
    pub fn submit_followup_preview(&mut self)
        ensures
            old(self).submitted_followup(*final(self)),
    {
        match self.draft_followup() {
            Some(draft) => self.send_followup(draft),
            None => {
                if self.fixed_preview.is_some() {
                    self.error = Some("source mission objective is still loading".to_owned());
                }
            },
        }
    }

    /// The follow-up that is to be sent. It is given once.
    pub fn take_followup_draft(&mut self) -> (draft: Option<String>)
        ensures
            draft == old(self).pending_followup_draft,
            *final(self) == (App { pending_followup_draft: None, ..*old(self) }),
    {
        self.pending_followup_draft.take()
    }

    /// Asks for the file that the saved conversation is to be exported to.
    pub fn begin_archive_export(&mut self, path: String)
        ensures
            *final(self) == (if old(self).saved_transcript is Some {
                App { export_path: Some(path), ..*old(self) }
            } else {
                *old(self)
            }),
    {
        if self.saved_transcript.is_some() {
            self.export_path = Some(path);
        }
    }

    /// The export that is to be made. It is given once.
    pub fn take_archive_export(&mut self) -> (export: Option<(ArchivedConversation, String)>)
        ensures
            export == old(self).pending_archive_export,
            *final(self) == (App { pending_archive_export: None, ..*old(self) }),
    {
        self.pending_archive_export.take()
    }

    /// What submitting the export of a saved conversation does.
    pub open spec fn submitted_export(self, after: App) -> bool {
        match (self.saved_transcript, self.export_path) {
            (Some(saved), Some(path)) => if blank(path@) {
                &&& optional(after.error) == Some("export path is required"@)
                &&& after == (App { export_path: None, error: after.error, ..self })
            } else {
                after == (App {
                    export_path: None,
                    pending_archive_export: Some((saved.archive, path)),
                    ..self
                })
            },
            _ => after == (App { export_path: None, ..self }),
        }
    }

    /// Exports the saved conversation to the file that was named. Without a name nothing is
    /// exported.
    pub fn submit_archive_export(&mut self)
        ensures
            old(self).submitted_export(*final(self)),
    {
        let path = self.export_path.take();
        let archive: Option<ArchivedConversation> = match &self.saved_transcript {
            Some(saved) => Some(saved.archive.clone()),
            None => None,
        };
        if let (Some(archive), Some(path)) = (archive, path) {
            if is_blank(&path) {
                self.error = Some("export path is required".to_owned());
            } else {
                self.pending_archive_export = Some((archive, path));
            }
        }
    }

    /// Asks for the directory that diagnostics are to be exported to.
    pub fn begin_diagnostics_export(&mut self, path: String)
        ensures
            *final(self) == (if old(self).diagnostics_exporting {
                *old(self)
            } else {
                App { diagnostics_export_path: Some(path), ..*old(self) }
            }),
    {
        if !self.diagnostics_exporting {
            self.diagnostics_export_path = Some(path);
        }
    }

    /// What submitting the export of diagnostics does.
    pub open spec fn submitted_diagnostics(self, after: App) -> bool {
        match self.diagnostics_export_path {
            Some(path) if !self.diagnostics_exporting => if blank(path@) {
                &&& optional(after.error) == Some("export path is required"@)
                &&& after == (App { diagnostics_export_path: None, error: after.error, ..self })
            } else {
                after == (App {
                    diagnostics_export_path: None,
                    pending_diagnostics_export: Some(path),
                    diagnostics_exporting: true,
                    ..self
                })
            },
            _ => after == self,
        }
    }

    /// Exports diagnostics to the directory that was named. There is one export at a time.
    pub fn submit_diagnostics_export(&mut self)
        ensures
            old(self).submitted_diagnostics(*final(self)),
    {
        if self.diagnostics_exporting {
            return;
        }
        if let Some(path) = self.diagnostics_export_path.take() {
            if is_blank(&path) {
                self.error = Some("export path is required".to_owned());
            } else {
                self.pending_diagnostics_export = Some(path);
                self.diagnostics_exporting = true;
            }
        }
    }

    /// The directory that diagnostics are to be exported to. It is given once.
    pub fn take_diagnostics_export(&mut self) -> (path: Option<String>)
        ensures
            path == old(self).pending_diagnostics_export,
            *final(self) == (App { pending_diagnostics_export: None, ..*old(self) }),
    {
        self.pending_diagnostics_export.take()
    }

    /// The diagnostics were exported, or were not.
    pub fn finish_diagnostics_export(&mut self, result: Result<String, String>)
        ensures
            optional(final(self).error) == Some(
                match result {
                    Ok(path) => "Exported diagnostics to "@ + path@,
                    Err(error) => "diagnostics export failed: "@ + error@,
                },
            ),
            *final(self) == (App {
                diagnostics_exporting: false,
                error: final(self).error,
                ..*old(self)
            }),
    {
        let message = match result {
            Ok(path) => concat2("Exported diagnostics to ", &path),
            Err(error) => concat2("diagnostics export failed: ", &error),
        };
        self.diagnostics_exporting = false;
        self.error = Some(message);
    }
}

} // verus!
