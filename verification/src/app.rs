//! The state of the client: what is shown, what is selected and what is asked for.

use vstd::prelude::*;
use vstd::string::*;

use crate::geometry::{starts_out, Rect};
use crate::hosts::{HostId, ScopedTarget, SessionKey};
use crate::protocol::{ConversationBlock, Snapshot};
use crate::text::{clone_optional, optional, same_text};

verus! {

/// The number of fields in the form for a machine.
pub const MACHINE_FORM_FIELDS: usize = 6;

/// A machine to choose from.
#[derive(Debug, Eq, PartialEq)]
pub struct HostChoice {
    pub id: HostId,
    pub label: String,
}

impl Clone for HostChoice {
    fn clone(&self) -> (copy: Self)
        ensures
            copy == *self,
    {
        HostChoice { id: self.id.clone(), label: self.label.clone() }
    }
}

/// A filled form for a machine.
#[derive(Debug, Eq, PartialEq)]
pub struct HostFormSubmission {
    pub editing: Option<HostId>,
    pub fields: [String; MACHINE_FORM_FIELDS],
}

/// A workspace to choose from.
#[derive(Debug, Eq, PartialEq)]
pub struct WorkspaceChoice {
    pub host_id: HostId,
    pub workspace_id: String,
    pub name: String,
    pub path: String,
    pub host_label: String,
    pub connected: bool,
    pub running: usize,
    pub needs_you: usize,
}

impl Clone for WorkspaceChoice {
    fn clone(&self) -> (copy: Self)
        ensures
            copy == *self,
    {
        WorkspaceChoice {
            host_id: self.host_id.clone(),
            workspace_id: self.workspace_id.clone(),
            name: self.name.clone(),
            path: self.path.clone(),
            host_label: self.host_label.clone(),
            connected: self.connected,
            running: self.running,
            needs_you: self.needs_you,
        }
    }
}

/// Which missions the spine shows.
#[derive(Clone, Copy, Debug, Eq, PartialEq, Structural)]
pub enum StatusFilter {
    All,
    Running,
    NeedsYou,
    Archived,
}

impl StatusFilter {
    /// The words for a filter.
    pub open spec fn words(self) -> Seq<char> {
        match self {
            StatusFilter::All => "ALL STATUS"@,
            StatusFilter::Running => "RUNNING"@,
            StatusFilter::NeedsYou => "NEEDS YOU"@,
            StatusFilter::Archived => "ARCHIVED"@,
        }
    }

    /// The words for a filter where there is little room.
    pub open spec fn short_words(self) -> Seq<char> {
        match self {
            StatusFilter::All => "ALL"@,
            StatusFilter::Running => "RUN"@,
            StatusFilter::NeedsYou => "NEEDS"@,
            StatusFilter::Archived => "ARCH"@,
        }
    }

    /// The filter that follows in the cycle.
    pub open spec fn following(self) -> StatusFilter {
        match self {
            StatusFilter::All => StatusFilter::Running,
            StatusFilter::Running => StatusFilter::NeedsYou,
            StatusFilter::NeedsYou => StatusFilter::Archived,
            StatusFilter::Archived => StatusFilter::All,
        }
    }

    /// The words for a filter.
    pub fn label(self) -> (words: &'static str)
        ensures
            words@ == self.words(),
    {
        match self {
            StatusFilter::All => "ALL STATUS",
            StatusFilter::Running => "RUNNING",
            StatusFilter::NeedsYou => "NEEDS YOU",
            StatusFilter::Archived => "ARCHIVED",
        }
    }

    /// The words for a filter where there is little room.
    pub fn short_label(self) -> (words: &'static str)
        ensures
            words@ == self.short_words(),
    {
        match self {
            StatusFilter::All => "ALL",
            StatusFilter::Running => "RUN",
            StatusFilter::NeedsYou => "NEEDS",
            StatusFilter::Archived => "ARCH",
        }
    }

    /// The filter that follows in the cycle.
    pub fn next(self) -> (filter: StatusFilter)
        ensures
            filter == self.following(),
    {
        match self {
            StatusFilter::All => StatusFilter::Running,
            StatusFilter::Running => StatusFilter::NeedsYou,
            StatusFilter::NeedsYou => StatusFilter::Archived,
            StatusFilter::Archived => StatusFilter::All,
        }
    }
}

/// Four steps through the filters lead back to the first, and no fewer do.
pub proof fn status_filters_form_a_cycle(filter: StatusFilter)
    ensures
        filter.following() != filter,
        filter.following().following() != filter,
        filter.following().following().following() != filter,
        filter.following().following().following().following() == filter,
{
}

/// A conversation of a mission that has ended.
#[derive(Debug)]
pub struct ArchivedConversation {
    pub workspace_id: String,
    pub agent_id: String,
    pub session_id: String,
    pub mission_id: String,
    pub mission_name: String,
    pub agent_name: String,
    pub task: String,
}

impl Clone for ArchivedConversation {
    fn clone(&self) -> (copy: Self)
        ensures
            copy == *self,
    {
        ArchivedConversation {
            workspace_id: self.workspace_id.clone(),
            agent_id: self.agent_id.clone(),
            session_id: self.session_id.clone(),
            mission_id: self.mission_id.clone(),
            mission_name: self.mission_name.clone(),
            agent_name: self.agent_name.clone(),
            task: self.task.clone(),
        }
    }
}

/// A page of a saved conversation that is wanted.
pub struct ArchiveRequest {
    pub id: u64,
    pub archive: ArchivedConversation,
    pub cursor: Option<String>,
}

/// A saved conversation as far as it was loaded.
#[derive(Clone, Debug)]
pub struct SavedTranscript {
    pub archive: ArchivedConversation,
    pub blocks: Vec<ConversationBlock>,
    pub prev_cursor: Option<String>,
}

/// A follow-up to an archived mission, before it is sent.
#[derive(Debug)]
pub struct FollowupPreview {
    pub archive: ArchivedConversation,
    pub host_id: HostId,
    pub objective: Option<String>,
}

impl Clone for FollowupPreview {
    fn clone(&self) -> (copy: Self)
        ensures
            copy == *self,
    {
        FollowupPreview {
            archive: self.archive.clone(),
            host_id: self.host_id.clone(),
            objective: clone_optional(&self.objective),
        }
    }
}

/// What a tab shows of its session.
pub struct TabPresentation {
    pub workspace: String,
    pub host: String,
    pub mission: Option<String>,
    pub mission_number: Option<u64>,
    pub actor: String,
    pub role: String,
    pub state: String,
    pub offline: bool,
}

/// The state of the client.
pub struct App {
    pub snapshot: Option<Snapshot>,
    pub snapshot_host: Option<HostId>,
    pub workspace_id: Option<String>,
    pub error: Option<String>,
    pub nav_focused: bool,
    pub copy_view: bool,
    pub picker: bool,
    pub help: bool,
    pub help_scroll: u16,
    pub picker_input: String,
    pub picker_cursor: usize,
    pub picker_path_mode: bool,
    pub workspace_choices: Vec<WorkspaceChoice>,
    pub pending_workspace: Option<WorkspaceChoice>,
    pub host_picker: bool,
    pub hosts: Vec<HostChoice>,
    pub pending_host: Option<HostId>,
    pub requested_host: Option<HostId>,
    pub add_host_form: bool,
    pub editing_host: Option<HostId>,
    pub add_host_fields: [String; MACHINE_FORM_FIELDS],
    pub add_host_field: usize,
    pub pending_add_host: Option<HostFormSubmission>,
    pub host_discovery_request: Option<u64>,
    pub cancelled_host_discovery: Option<u64>,
    pub next_host_discovery_request: u64,
    pub pending_edit_host: Option<HostId>,
    pub remove_host_confirmation: Option<HostChoice>,
    pub pending_remove_host: Option<HostId>,
    pub selected_host: HostId,
    /// The hosts with a fresh snapshot, each once.
    pub live_hosts: Vec<HostId>,
    pub pending_open: Option<u64>,
    pub next_open_request: u64,
    pub cursor: usize,
    pub status_filter: StatusFilter,
    pub pane_area: Rect,
    pub sidebar_area: Rect,
    pub sidebar_scroll: usize,
    pub visible_selectable_rows: usize,
    /// The missions that are folded open, each once.
    pub expanded: Vec<String>,
    pub pending_target: Option<ScopedTarget>,
    pub active_target: Option<ScopedTarget>,
    pub tabs: Vec<ScopedTarget>,
    /// What is known of each tab, under its key.
    pub tab_presentations: Vec<(SessionKey, TabPresentation)>,
    pub row_hitboxes: Vec<(Rect, usize)>,
    pub status_filter_hitbox: Option<Rect>,
    pub tab_hitboxes: Vec<(Rect, SessionKey)>,
    pub tab_close_hitboxes: Vec<(Rect, SessionKey)>,
    pub overflow_tab_hitboxes: Vec<(Rect, SessionKey)>,
    pub overflow_hitbox: Option<Rect>,
    pub hidden_tab_ids: Vec<SessionKey>,
    pub tab_overflow_open: bool,
    pub tab_overflow_cursor: usize,
    pub archived_expanded: bool,
    pub archives: Vec<ArchivedConversation>,
    pub archive_next_cursor: Option<String>,
    pub archive_load_requested: bool,
    pub pending_archive: Option<ArchiveRequest>,
    pub active_archive_request: Option<u64>,
    pub next_archive_request: u64,
    pub saved_transcript: Option<SavedTranscript>,
    pub archive_loading: bool,
    pub saved_scroll: u16,
    pub export_path: Option<String>,
    pub pending_archive_export: Option<(ArchivedConversation, String)>,
    pub diagnostics_export_path: Option<String>,
    pub pending_diagnostics_export: Option<String>,
    pub diagnostics_exporting: bool,
    pub fixed_preview: Option<FollowupPreview>,
    pub followup_objective_requested: bool,
    pub pending_followup_draft: Option<String>,
}

/// Empty fields for the form for a machine.
pub fn blank_fields() -> (fields: [String; MACHINE_FORM_FIELDS])
    ensures
        forall|i: int| 0 <= i < MACHINE_FORM_FIELDS ==> (#[trigger] fields@[i])@.len() == 0,
{
    [
        String::new(),
        String::new(),
        String::new(),
        String::new(),
        String::new(),
        String::new(),
    ]
}

/// Whether every field of a form is empty.
pub open spec fn all_blank(fields: Seq<String>) -> bool {
    forall|i: int| 0 <= i < MACHINE_FORM_FIELDS ==> (#[trigger] fields[i])@.len() == 0
}

impl App {
    /// The state before anything was shown or done.
    pub open spec fn pristine(self) -> bool {
        &&& self.picker_input@.len() == 0
        &&& self.selected_host@ == "local"@
        &&& all_blank(self.add_host_fields@)
        &&& self.workspace_choices@.len() == 0
        &&& self.hosts@.len() == 0
        &&& self.live_hosts@.len() == 0
        &&& self.expanded@.len() == 0
        &&& self.tabs@.len() == 0
        &&& self.tab_presentations@.len() == 0
        &&& self.row_hitboxes@.len() == 0
        &&& self.tab_hitboxes@.len() == 0
        &&& self.tab_close_hitboxes@.len() == 0
        &&& self.overflow_tab_hitboxes@.len() == 0
        &&& self.hidden_tab_ids@.len() == 0
        &&& self.archives@.len() == 0
        &&& self == (App {
            snapshot: None,
            snapshot_host: None,
            workspace_id: None,
            error: None,
            nav_focused: false,
            copy_view: false,
            picker: false,
            help: false,
            help_scroll: 0,
            picker_input: self.picker_input,
            picker_cursor: 0,
            picker_path_mode: false,
            workspace_choices: self.workspace_choices,
            pending_workspace: None,
            host_picker: false,
            hosts: self.hosts,
            pending_host: None,
            requested_host: None,
            add_host_form: false,
            editing_host: None,
            add_host_fields: self.add_host_fields,
            add_host_field: 0,
            pending_add_host: None,
            host_discovery_request: None,
            cancelled_host_discovery: None,
            next_host_discovery_request: 0,
            pending_edit_host: None,
            remove_host_confirmation: None,
            pending_remove_host: None,
            selected_host: self.selected_host,
            live_hosts: self.live_hosts,
            pending_open: None,
            next_open_request: 0,
            cursor: 0,
            status_filter: StatusFilter::All,
            pane_area: Rect::zero(),
            sidebar_area: Rect::zero(),
            sidebar_scroll: 0,
            visible_selectable_rows: 1,
            expanded: self.expanded,
            pending_target: None,
            active_target: None,
            tabs: self.tabs,
            tab_presentations: self.tab_presentations,
            row_hitboxes: self.row_hitboxes,
            status_filter_hitbox: None,
            tab_hitboxes: self.tab_hitboxes,
            tab_close_hitboxes: self.tab_close_hitboxes,
            overflow_tab_hitboxes: self.overflow_tab_hitboxes,
            overflow_hitbox: None,
            hidden_tab_ids: self.hidden_tab_ids,
            tab_overflow_open: false,
            tab_overflow_cursor: 0,
            archived_expanded: false,
            archives: self.archives,
            archive_next_cursor: None,
            archive_load_requested: false,
            pending_archive: None,
            active_archive_request: None,
            next_archive_request: 0,
            saved_transcript: None,
            archive_loading: false,
            saved_scroll: 0,
            export_path: None,
            pending_archive_export: None,
            diagnostics_export_path: None,
            pending_diagnostics_export: None,
            diagnostics_exporting: false,
            fixed_preview: None,
            followup_objective_requested: false,
            pending_followup_draft: None,
        })
    }
}

impl Default for App {
    fn default() -> (app: App)
        ensures
            app.pristine(),
    {
        App {
            snapshot: None,
            snapshot_host: None,
            workspace_id: None,
            error: None,
            nav_focused: false,
            copy_view: false,
            picker: false,
            help: false,
            help_scroll: 0,
            picker_input: String::new(),
            picker_cursor: 0,
            picker_path_mode: false,
            workspace_choices: Vec::new(),
            pending_workspace: None,
            host_picker: false,
            hosts: Vec::new(),
            pending_host: None,
            requested_host: None,
            add_host_form: false,
            editing_host: None,
            add_host_fields: blank_fields(),
            add_host_field: 0,
            pending_add_host: None,
            host_discovery_request: None,
            cancelled_host_discovery: None,
            next_host_discovery_request: 0,
            pending_edit_host: None,
            remove_host_confirmation: None,
            pending_remove_host: None,
            selected_host: HostId::local(),
            live_hosts: Vec::new(),
            pending_open: None,
            next_open_request: 0,
            cursor: 0,
            status_filter: StatusFilter::All,
            pane_area: Rect::empty(),
            sidebar_area: Rect::empty(),
            sidebar_scroll: 0,
            visible_selectable_rows: 1,
            expanded: Vec::new(),
            pending_target: None,
            active_target: None,
            tabs: Vec::new(),
            tab_presentations: Vec::new(),
            row_hitboxes: Vec::new(),
            status_filter_hitbox: None,
            tab_hitboxes: Vec::new(),
            tab_close_hitboxes: Vec::new(),
            overflow_tab_hitboxes: Vec::new(),
            overflow_hitbox: None,
            hidden_tab_ids: Vec::new(),
            tab_overflow_open: false,
            tab_overflow_cursor: 0,
            archived_expanded: false,
            archives: Vec::new(),
            archive_next_cursor: None,
            archive_load_requested: false,
            pending_archive: None,
            active_archive_request: None,
            next_archive_request: 0,
            saved_transcript: None,
            archive_loading: false,
            saved_scroll: 0,
            export_path: None,
            pending_archive_export: None,
            diagnostics_export_path: None,
            pending_diagnostics_export: None,
            diagnostics_exporting: false,
            fixed_preview: None,
            followup_objective_requested: false,
            pending_followup_draft: None,
        }
    }
}

/// The number after another, from the largest back to zero.
pub open spec fn next_number(number: u64) -> u64 {
    if number == u64::MAX {
        0
    } else {
        (number + 1) as u64
    }
}

/// The number after another, from the largest back to zero.
pub fn number_after(number: u64) -> (next: u64)
    ensures
        next == next_number(number),
{
    if number == u64::MAX {
        0
    } else {
        number + 1
    }
}

/// Whether a host stands in a list.
pub open spec fn lists_host(hosts: Seq<HostId>, host: Seq<char>) -> bool {
    exists|i: int| 0 <= i < hosts.len() && (#[trigger] hosts[i])@ == host
}

/// Whether a host stands in a list.
pub fn has_host(hosts: &Vec<HostId>, host: &HostId) -> (found: bool)
    ensures
        found == lists_host(hosts@, host@),
{
    let mut at: usize = 0;
    while at < hosts.len()
        invariant
            at <= hosts@.len(),
            forall|i: int| 0 <= i < at ==> (#[trigger] hosts@[i])@ != host@,
        decreases hosts@.len() - at,
    {
        if hosts[at] == *host {
            assert(hosts@[at as int]@ == host@);
            return true;
        }
        at = at + 1;
    }
    false
}

/// Whether a text stands in a list.
pub open spec fn lists_text(list: Seq<String>, text: Seq<char>) -> bool {
    exists|i: int| 0 <= i < list.len() && (#[trigger] list[i])@ == text
}

/// Whether a text stands in a list.
pub fn has_text(list: &Vec<String>, text: &str) -> (found: bool)
    ensures
        found == lists_text(list@, text@),
{
    let mut at: usize = 0;
    while at < list.len()
        invariant
            at <= list@.len(),
            forall|i: int| 0 <= i < at ==> (#[trigger] list@[i])@ != text@,
        decreases list@.len() - at,
    {
        if same_text(&list[at], text) {
            assert(list@[at as int]@ == text@);
            return true;
        }
        at = at + 1;
    }
    false
}

/// A cursor moved by a number of steps, and no further than the first and the last place.
pub open spec fn moved(cursor: usize, delta: isize, last: usize) -> usize {
    let place = cursor + delta;
    if place < 0 {
        0
    } else if place > last {
        last
    } else {
        place as usize
    }
}

/// A cursor moved by a number of steps, and no further than the first and the last place.
pub fn move_within(cursor: usize, delta: isize, last: usize) -> (place: usize)
    ensures
        place == moved(cursor, delta, last),
{
    let place: i128 = cursor as i128 + delta as i128;
    if place < 0 {
        0
    } else if place > last as i128 {
        last
    } else {
        place as usize
    }
}

impl App {
    /// Whether the chosen machine has no fresh snapshot.
    pub open spec fn offline(self) -> bool {
        !lists_host(self.live_hosts@, self.selected_host@)
    }

    /// Whether the chosen machine has no fresh snapshot.
    pub fn selected_host_is_offline(&self) -> (offline: bool)
        ensures
            offline == self.offline(),
    {
        !has_host(&self.live_hosts, &self.selected_host)
    }

    /// The workspace that is shown.
    pub open spec fn workspace(self) -> Option<Seq<char>> {
        optional(self.workspace_id)
    }

    /// Whether a thing belongs to the workspace that is shown.
    pub fn in_workspace(&self, workspace_id: &str) -> (yes: bool)
        ensures
            yes == (self.workspace() == Some(workspace_id@)),
    {
        match &self.workspace_id {
            Some(id) => same_text(id, workspace_id),
            None => false,
        }
    }

    /// Takes the number of the next request to open a project.
    pub fn next_open_request(&mut self) -> (request: u64)
        ensures
            request == next_number(old(self).next_open_request),
            *final(self) == (App { next_open_request: request, ..*old(self) }),
    {
        self.next_open_request = number_after(self.next_open_request);
        self.next_open_request
    }

    /// A project is being opened.
    pub fn begin_open(&mut self, request_id: u64)
        ensures
            *final(self) == (App { pending_open: Some(request_id), error: None, ..*old(self) }),
    {
        self.pending_open = Some(request_id);
        self.error = None;
    }

    /// What the end of the opening of a project does. An answer to any other request changes nothing.
    pub open spec fn ended_opening(self, request_id: u64, error: Option<String>) -> App {
        if self.pending_open != Some(request_id) {
            self
        } else {
            App {
                pending_open: None,
                error,
                picker: self.picker && error is Some,
                nav_focused: self.nav_focused && error is Some,
                ..self
            }
        }
    }

    /// The project that is being opened was opened, or was not. An answer to any other request
    /// changes nothing.
    pub fn finish_open(&mut self, request_id: u64, error: Option<String>) -> (current: bool)
        ensures
            current == (old(self).pending_open == Some(request_id)),
            *final(self) == old(self).ended_opening(request_id, error),
    {
        match self.pending_open {
            Some(pending) => if pending != request_id {
                return false;
            },
            None => return false,
        }
        let failed: bool = error.is_some();
        self.pending_open = None;
        self.picker = self.picker && failed;
        self.nav_focused = self.nav_focused && failed;
        self.error = error;
        true
    }

    /// Whether nothing on the screen can be clicked.
    pub open spec fn cleared_places(self, after: App) -> bool {
        &&& after.row_hitboxes@.len() == 0
        &&& after.tab_hitboxes@.len() == 0
        &&& after.tab_close_hitboxes@.len() == 0
        &&& after.overflow_tab_hitboxes@.len() == 0
        &&& after.hidden_tab_ids@.len() == 0
        &&& after == (App {
            row_hitboxes: after.row_hitboxes,
            status_filter_hitbox: None,
            tab_hitboxes: after.tab_hitboxes,
            tab_close_hitboxes: after.tab_close_hitboxes,
            overflow_tab_hitboxes: after.overflow_tab_hitboxes,
            overflow_hitbox: None,
            hidden_tab_ids: after.hidden_tab_ids,
            sidebar_area: Rect::zero(),
            ..self
        })
    }

    /// Forgets every place on the screen that can be clicked.
    pub fn clear_copy_view_hitboxes(&mut self)
        ensures
            old(self).cleared_places(*final(self)),
    {
        self.row_hitboxes.clear();
        self.status_filter_hitbox = None;
        self.tab_hitboxes.clear();
        self.tab_close_hitboxes.clear();
        self.overflow_tab_hitboxes.clear();
        self.overflow_hitbox = None;
        self.hidden_tab_ids.clear();
        self.sidebar_area = Rect::empty();
    }

    /// What showing nothing but the pane does.
    pub open spec fn entered_copy_view(self, after: App) -> bool {
        (App {
            copy_view: true,
            nav_focused: false,
            picker: false,
            help: false,
            tab_overflow_open: false,
            ..self
        }).cleared_places(after)
    }

    /// Shows nothing but the pane, so that its text can be selected.
    pub fn enter_copy_view(&mut self)
        ensures
            old(self).entered_copy_view(*final(self)),
    {
        self.copy_view = true;
        self.nav_focused = false;
        self.picker = false;
        self.help = false;
        self.tab_overflow_open = false;
        self.clear_copy_view_hitboxes();
    }

    /// What going back from the copy view does.
    pub open spec fn left_copy_view(self, after: App) -> bool {
        (App { copy_view: false, nav_focused: true, ..self }).cleared_places(after)
    }

    /// Goes back from the copy view to the spine.
    pub fn leave_copy_view(&mut self)
        ensures
            old(self).left_copy_view(*final(self)),
    {
        self.copy_view = false;
        self.nav_focused = true;
        self.clear_copy_view_hitboxes();
    }

    /// Where the pane starts out on a screen.
    pub fn initial_pane_area(area: Rect) -> (pane: Rect)
        ensures
            starts_out(pane, area),
    {
        crate::geometry::initial_pane_area(area)
    }
}

} // verus!
