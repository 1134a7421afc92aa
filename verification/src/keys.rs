//! What a key does.

use vstd::prelude::*;
use vstd::string::*;

use crate::app::{
    has_host, lists_host, next_number, App, HostFormSubmission, MACHINE_FORM_FIELDS,
};
use crate::geometry::{difference, minus, plus, sum};
use crate::hosts::HostId;
use crate::input::{key_token, token_of, KeyCode, KeyEvent, KeyModifiers};
use crate::paths::{join, joined};
use crate::text::{blank, concat3, is_blank, optional, strip_prefix, trim, trimmed, without_prefix};

verus! {

/// What is left to do after a key.
#[derive(Debug)]
pub enum KeyAction {
    /// The client ends.
    Quit,
    /// Nothing.
    Handled,
    /// The pane gets a text.
    Text(String),
    /// The pane gets a key, by the name that rmux has for it.
    Key(String),
    /// A project is to be opened on a machine.
    Open { host_id: HostId, request_id: u64, path: String },
    /// The export of the saved conversation starts with a file of this name in the working
    /// directory.
    NameArchiveExport(String),
    /// The export of diagnostics starts with a directory of this name in the working directory.
    NameDiagnosticsExport(String),
}

/// What is left to do after a key.
#[verifier::ext_equal]
pub enum KeyActionView {
    Quit,
    Handled,
    Text(Seq<char>),
    Key(Seq<char>),
    Open { host: Seq<char>, request_id: u64, path: Seq<char> },
    NameArchiveExport(Seq<char>),
    NameDiagnosticsExport(Seq<char>),
}

impl View for KeyAction {
    type V = KeyActionView;

    open spec fn view(&self) -> KeyActionView {
        match *self {
            KeyAction::Quit => KeyActionView::Quit,
            KeyAction::Handled => KeyActionView::Handled,
            KeyAction::Text(text) => KeyActionView::Text(text@),
            KeyAction::Key(token) => KeyActionView::Key(token@),
            KeyAction::Open { host_id, request_id, path } => KeyActionView::Open {
                host: host_id@,
                request_id,
                path: path@,
            },
            KeyAction::NameArchiveExport(name) => KeyActionView::NameArchiveExport(name@),
            KeyAction::NameDiagnosticsExport(name) => KeyActionView::NameDiagnosticsExport(name@),
        }
    }
}

/// What a key is held against: whether the pane that is shown failed, the machines that are there,
/// and the home directory.
pub struct Surroundings {
    pub pane_failed: bool,
    pub connected: Vec<HostId>,
    pub home: Option<String>,
}

/// A path with the home directory in the place of a tilde.
pub open spec fn expanded(input: Seq<char>, home: Option<Seq<char>>) -> Seq<char> {
    match (without_prefix(input, "~/"@), home) {
        (Some(rest), Some(home)) => joined(home, rest),
        _ => input,
    }
}

/// A path with the home directory in the place of a tilde.
pub fn expand_path(input: &str, home: &Option<String>) -> (path: String)
    ensures
        path@ == expanded(input@, optional(*home)),
{
    if let Some(rest) = strip_prefix(input, "~/") {
        if let Some(home) = home {
            return join(home, &rest);
        }
    }
    input.to_owned()
}

/// Whether a key types a character: no modifier is held with it but shift.
pub open spec fn typing(modifiers: KeyModifiers) -> bool {
    !modifiers.control && !modifiers.alt && !modifiers.other
}

fn is_typing(modifiers: KeyModifiers) -> (yes: bool)
    ensures
        yes == typing(modifiers),
{
    !modifiers.control && !modifiers.alt && !modifiers.other
}

/// Whether control is the only modifier held.
pub open spec fn only_control(modifiers: KeyModifiers) -> bool {
    modifiers.control && !modifiers.shift && !modifiers.alt && !modifiers.other
}

/// A text without its last character.
pub open spec fn shortened(text: Seq<char>) -> Seq<char> {
    if text.len() == 0 {
        text
    } else {
        text.drop_last()
    }
}

fn shorten(text: &str) -> (rest: String)
    ensures
        rest@ == shortened(text@),
{
    let length: usize = text.unicode_len();
    if length == 0 {
        return text.to_owned();
    }
    let rest = text.substring_char(0, length - 1).to_owned();
    assert(rest@ =~= text@.drop_last());
    rest
}

/// A line of text after a key: backspace takes its last character away, control and `u` all of it,
/// and a character is put behind it.
pub open spec fn edited(text: Seq<char>, key: KeyEvent) -> Seq<char> {
    match key.code {
        KeyCode::Backspace => shortened(text),
        KeyCode::Char(c) => if c == 'u' && only_control(key.modifiers) {
            seq![]
        } else if typing(key.modifiers) {
            text.push(c)
        } else {
            text
        },
        _ => text,
    }
}

fn edit(text: &str, key: KeyEvent) -> (line: String)
    ensures
        line@ == edited(text@, key),
{
    match key.code {
        KeyCode::Backspace => shorten(text),
        KeyCode::Char(c) => {
            let only_control: bool = key.modifiers.control && !key.modifiers.shift
                && !key.modifiers.alt && !key.modifiers.other;
            if c == 'u' && only_control {
                let line = String::new();
                assert(line@ =~= seq![]);
                line
            } else {
                let mut line = text.to_owned();
                if is_typing(key.modifiers) {
                    line.push(c);
                }
                line
            }
        },
        _ => text.to_owned(),
    }
}

/// Whether a key moves between the spine and the pane.
pub open spec fn navigates(key: KeyEvent) -> bool {
    (key.modifiers.control && key.code == KeyCode::Char(' ')) || key.code == KeyCode::Null
}

/// Whether a key is a character held with control.
pub open spec fn commands(key: KeyEvent, c: char) -> bool {
    key.modifiers.control && key.code == KeyCode::Char(c)
}

/// Whether a key opens the help or a picker.
pub open spec fn opens_modal(key: KeyEvent) -> bool {
    key.code == KeyCode::F(1) || commands(key, 'k') || commands(key, 'o')
}

fn is_command(key: KeyEvent, c: char) -> (yes: bool)
    ensures
        yes == commands(key, c),
{
    match key.code {
        KeyCode::Char(typed) => key.modifiers.control && typed == c,
        _ => false,
    }
}

fn does_navigate(key: KeyEvent) -> (yes: bool)
    ensures
        yes == navigates(key),
{
    is_command(key, ' ') || key.code == KeyCode::Null
}

/// The message where the pane that is shown failed.
pub open spec fn pane_unavailable() -> Seq<char> {
    "Pi pane unavailable — reselect the tab to retry"@
}

/// The message where the machine of the pane is away.
pub open spec fn machine_offline() -> Seq<char> {
    "Machine offline — reconnect to send"@
}

/// The field after another, from the last back to the first.
pub open spec fn next_field(field: usize) -> usize {
    ((field + 1) % MACHINE_FORM_FIELDS as int) as usize
}

/// The field before another, from the first back to the last.
pub open spec fn previous_field(field: usize) -> usize {
    ((field + MACHINE_FORM_FIELDS - 1) % MACHINE_FORM_FIELDS as int) as usize
}

fn field_after(field: usize) -> (next: usize)
    requires
        field < MACHINE_FORM_FIELDS,
    ensures
        next == next_field(field),
{
    (field + 1) % MACHINE_FORM_FIELDS
}

fn field_before(field: usize) -> (previous: usize)
    requires
        field < MACHINE_FORM_FIELDS,
    ensures
        previous == previous_field(field),
{
    (field + MACHINE_FORM_FIELDS - 1) % MACHINE_FORM_FIELDS
}

impl App {
    /// The state with another error.
    pub open spec fn told(self, after: App, message: Seq<char>) -> bool {
        optional(after.error) == Some(message) && after == (App { error: after.error, ..self })
    }

    pub(crate) fn tell(&mut self, message: &str)
        ensures
            old(self).told(*final(self), message@),
    {
        self.error = Some(message.to_owned());
    }

    /// What a key does to the name of the file of an export.
    pub open spec fn export_path_keyed(self, after: App, key: KeyEvent) -> bool {
        match key.code {
            KeyCode::Esc => after == (App { export_path: None, ..self }),
            KeyCode::Enter => self.submitted_export(after),
            _ => {
                &&& optional(after.export_path) == (match self.export_path {
                    Some(path) => Some(edited(path@, key)),
                    None => None,
                })
                &&& after == (App { export_path: after.export_path, ..self })
            },
        }
    }

    fn edit_export_path(&mut self, key: KeyEvent)
        ensures
            optional(final(self).export_path) == (match old(self).export_path {
                Some(path) => Some(edited(path@, key)),
                None => None,
            }),
            *final(self) == (App { export_path: final(self).export_path, ..*old(self) }),
    {
        let path: Option<String> = match &self.export_path {
            Some(path) => Some(edit(path, key)),
            None => None,
        };
        self.export_path = path;
    }

    fn key_in_export_path(&mut self, key: KeyEvent)
        ensures
            old(self).export_path_keyed(*final(self), key),
    {
        match key.code {
            KeyCode::Esc => self.export_path = None,
            KeyCode::Enter => self.submit_archive_export(),
            _ => self.edit_export_path(key),
        }
    }

    /// What a key does where a follow-up is being written.
    pub open spec fn followup_keyed(self, after: App, key: KeyEvent) -> bool {
        match key.code {
            KeyCode::Esc => after == (App {
                fixed_preview: None,
                followup_objective_requested: false,
                ..self
            }),
            KeyCode::Enter => self.submitted_followup(after),
            _ => after == self,
        }
    }

    fn key_in_followup(&mut self, key: KeyEvent)
        ensures
            old(self).followup_keyed(*final(self), key),
    {
        match key.code {
            KeyCode::Esc => self.cancel_followup_preview(),
            KeyCode::Enter => self.submit_followup_preview(),
            _ => {},
        }
    }

    /// The session of the saved conversation.
    pub open spec fn saved_session(self) -> Seq<char> {
        match self.saved_transcript {
            Some(saved) => saved.archive.session_id@,
            None => seq![],
        }
    }

    fn name_archive_export(&self) -> (name: String)
        ensures
            name@ == "neta-archived-session-"@ + self.saved_session() + ".json"@,
    {
        match &self.saved_transcript {
            Some(saved) => concat3("neta-archived-session-", &saved.archive.session_id, ".json"),
            None => {
                let none = String::new();
                assert(none@ =~= seq![]);
                concat3("neta-archived-session-", &none, ".json")
            },
        }
    }

    /// What a key does where a saved conversation is read.
    pub open spec fn transcript_keyed(self, after: App, action: KeyActionView, key: KeyEvent) -> bool {
        match key.code {
            KeyCode::Up => action is Handled && after == self.scrolled_saved((-1) as isize),
            KeyCode::Down => action is Handled && after == self.scrolled_saved(1),
            KeyCode::End => action is Handled && after == self.scrolled_saved(isize::MAX),
            KeyCode::PageUp => action is Handled && after == self.asked_older(),
            KeyCode::Char('e') => action == KeyActionView::NameArchiveExport(
                "neta-archived-session-"@ + self.saved_session() + ".json"@,
            ) && after == self,
            KeyCode::Char('f') => action is Handled && after == self.begun_followup(),
            KeyCode::Esc => action is Handled && after == (App {
                nav_focused: true,
                ..self.without_saved_transcript()
            }),
            _ => action is Handled && after == self,
        }
    }

    fn leave_transcript(&mut self)
        ensures
            *final(self) == (App {
                nav_focused: true,
                ..old(self).without_saved_transcript()
            }),
    {
        self.clear_saved_transcript();
        self.nav_focused = true;
    }

    fn key_in_transcript(&mut self, key: KeyEvent) -> (action: KeyAction)
        ensures
            old(self).transcript_keyed(*final(self), action@, key),
    {
        match key.code {
            KeyCode::Up => self.scroll_saved(-1),
            KeyCode::Down => self.scroll_saved(1),
            KeyCode::End => self.scroll_saved(isize::MAX),
            KeyCode::PageUp => self.request_older_archive(),
            KeyCode::Char('e') => return KeyAction::NameArchiveExport(self.name_archive_export()),
            KeyCode::Char('f') => self.begin_followup_preview(),
            KeyCode::Esc => self.leave_transcript(),
            _ => {},
        }
        KeyAction::Handled
    }

    /// What a key does where a saved conversation is shown or loaded.
    pub open spec fn archive_keyed(self, after: App, action: KeyActionView, key: KeyEvent) -> bool {
        if self.fixed_preview is Some {
            action is Handled && self.followup_keyed(after, key)
        } else if self.export_path is Some {
            action is Handled && self.export_path_keyed(after, key)
        } else {
            self.transcript_keyed(after, action, key)
        }
    }

    fn key_in_archive(&mut self, key: KeyEvent) -> (action: KeyAction)
        ensures
            old(self).archive_keyed(*final(self), action@, key),
    {
        if self.fixed_preview.is_some() {
            self.key_in_followup(key);
            KeyAction::Handled
        } else if self.export_path.is_some() {
            self.key_in_export_path(key);
            KeyAction::Handled
        } else {
            self.key_in_transcript(key)
        }
    }

    /// What a key does to the name of the directory for diagnostics.
    pub open spec fn diagnostics_keyed(self, after: App, key: KeyEvent) -> bool {
        match key.code {
            KeyCode::Esc => after == (App { diagnostics_export_path: None, ..self }),
            KeyCode::Enter => self.submitted_diagnostics(after),
            _ => {
                &&& optional(after.diagnostics_export_path) == (match self.diagnostics_export_path {
                    Some(path) => Some(edited(path@, key)),
                    None => None,
                })
                &&& after == (App {
                    diagnostics_export_path: after.diagnostics_export_path,
                    ..self
                })
            },
        }
    }

    fn edit_diagnostics_path(&mut self, key: KeyEvent)
        ensures
            optional(final(self).diagnostics_export_path) == (match old(
                self,
            ).diagnostics_export_path {
                Some(path) => Some(edited(path@, key)),
                None => None,
            }),
            *final(self) == (App {
                diagnostics_export_path: final(self).diagnostics_export_path,
                ..*old(self)
            }),
    {
        let path: Option<String> = match &self.diagnostics_export_path {
            Some(path) => Some(edit(path, key)),
            None => None,
        };
        self.diagnostics_export_path = path;
    }

    fn key_in_diagnostics(&mut self, key: KeyEvent)
        ensures
            old(self).diagnostics_keyed(*final(self), key),
    {
        match key.code {
            KeyCode::Esc => self.diagnostics_export_path = None,
            KeyCode::Enter => self.submit_diagnostics_export(),
            _ => self.edit_diagnostics_path(key),
        }
    }

    /// The help opened, or closed where it was open.
    pub open spec fn toggled_help(self) -> App {
        if self.help {
            App { help: false, help_scroll: 0, ..self }
        } else {
            App { help: true, help_scroll: 0, picker: false, ..self }
        }
    }

    fn toggle_help(&mut self)
        ensures
            *final(self) == old(self).toggled_help(),
    {
        let help: bool = !self.help;
        let picker: bool = self.picker && !help;
        self.help = help;
        self.help_scroll = 0;
        self.picker = picker;
    }

    /// The help after a key.
    pub open spec fn help_keyed(self, key: KeyEvent) -> App {
        match key.code {
            KeyCode::Esc => App { help: false, help_scroll: 0, ..self },
            KeyCode::Up => App { help_scroll: minus(self.help_scroll, 1), ..self },
            KeyCode::Down => App { help_scroll: plus(self.help_scroll, 1), ..self },
            KeyCode::PageUp => App { help_scroll: minus(self.help_scroll, 8), ..self },
            KeyCode::PageDown => App { help_scroll: plus(self.help_scroll, 8), ..self },
            _ => self,
        }
    }

    fn key_in_help(&mut self, key: KeyEvent)
        ensures
            *final(self) == old(self).help_keyed(key),
    {
        let (help, scroll): (bool, u16) = match key.code {
            KeyCode::Esc => (false, 0),
            KeyCode::Up => (self.help, difference(self.help_scroll, 1)),
            KeyCode::Down => (self.help, sum(self.help_scroll, 1)),
            KeyCode::PageUp => (self.help, difference(self.help_scroll, 8)),
            KeyCode::PageDown => (self.help, sum(self.help_scroll, 8)),
            _ => (self.help, self.help_scroll),
        };
        self.help = help;
        self.help_scroll = scroll;
    }

    /// What opening the picker for workspaces, or the one for paths, does.
    pub open spec fn opened_picker(self, after: App, path_mode: bool) -> bool {
        &&& after.picker_input@.len() == 0
        &&& after == (App {
            picker: true,
            host_picker: false,
            nav_focused: true,
            picker_path_mode: path_mode,
            picker_input: after.picker_input,
            picker_cursor: 0,
            ..self
        })
    }

    fn open_picker(&mut self, path_mode: bool)
        ensures
            old(self).opened_picker(*final(self), path_mode),
    {
        self.picker = true;
        self.host_picker = false;
        self.nav_focused = true;
        self.picker_path_mode = path_mode;
        self.picker_input = String::new();
        self.picker_cursor = 0;
    }

    /// The question whether to forget a machine, after a key.
    pub open spec fn confirmation_keyed(self, key: KeyEvent) -> App {
        match key.code {
            KeyCode::Esc => App { remove_host_confirmation: None, ..self },
            KeyCode::Enter => self.confirmed_remove(),
            _ => self,
        }
    }

    fn key_in_confirmation(&mut self, key: KeyEvent)
        ensures
            *final(self) == old(self).confirmation_keyed(key),
    {
        match key.code {
            KeyCode::Esc => self.cancel_remove_host(),
            KeyCode::Enter => self.confirm_remove_host(),
            _ => {},
        }
    }

    /// The cursor of the form for a machine stands on one of its fields.
    pub open spec fn wf(self) -> bool {
        self.add_host_field < MACHINE_FORM_FIELDS
    }

    /// A field of the form after a key.
    pub open spec fn typed_field(text: Seq<char>, key: KeyEvent) -> Seq<char> {
        match key.code {
            KeyCode::Backspace => shortened(text),
            KeyCode::Char(c) => if typing(key.modifiers) {
                text.push(c)
            } else {
                text
            },
            _ => text,
        }
    }

    /// What a text in the place of the field of the form that has the cursor does.
    pub open spec fn filled_field(self, after: App, text: Seq<char>) -> bool {
        &&& after.add_host_fields@[self.add_host_field as int]@ == text
        &&& forall|i: int|
            0 <= i < MACHINE_FORM_FIELDS && i != self.add_host_field ==> (
            #[trigger] after.add_host_fields@[i]) == self.add_host_fields@[i]
        &&& after == (App { add_host_fields: after.add_host_fields, ..self })
    }

    /// The field of the form that has the cursor.
    pub open spec fn field_text(self) -> Seq<char> {
        self.add_host_fields@[self.add_host_field as int]@
    }

    /// Puts a text in the place of the field of the form that has the cursor.
    pub fn fill_field(&mut self, text: String)
        requires
            old(self).wf(),
        ensures
            old(self).filled_field(*final(self), text@),
    {
        let field: usize = self.add_host_field;
        self.add_host_fields[field] = text;
    }

    fn key_in_field(&mut self, key: KeyEvent)
        requires
            old(self).wf(),
        ensures
            old(self).filled_field(
                *final(self),
                App::typed_field(old(self).field_text(), key),
            ),
    {
        let field: usize = self.add_host_field;
        let text: String = match key.code {
            KeyCode::Backspace => shorten(self.add_host_fields[field].as_str()),
            KeyCode::Char(c) => {
                let mut text = self.add_host_fields[field].clone();
                if is_typing(key.modifiers) {
                    text.push(c);
                }
                text
            },
            _ => self.add_host_fields[field].clone(),
        };
        self.fill_field(text);
    }

    /// What a key does in the form for a machine.
    pub open spec fn form_keyed(self, after: App, key: KeyEvent) -> bool {
        if self.host_discovery_request is Some {
            after == (if key.code == KeyCode::Esc {
                App {
                    cancelled_host_discovery: self.host_discovery_request,
                    host_discovery_request: None,
                    add_host_form: false,
                    editing_host: None,
                    ..self
                }
            } else {
                self
            })
        } else {
            self.open_form_keyed(after, key)
        }
    }

    /// What submitting the form for a machine does.
    pub open spec fn submitted_form(self, after: App) -> bool {
        &&& after.pending_add_host matches Some(form) && form.editing == self.editing_host
            && form.fields@ == self.add_host_fields@
        &&& after == (App { pending_add_host: after.pending_add_host, ..self })
    }

    fn submit_form(&mut self)
        ensures
            old(self).submitted_form(*final(self)),
    {
        let editing: Option<HostId> = match &self.editing_host {
            Some(host) => Some(host.clone()),
            None => None,
        };
        let fields: [String; MACHINE_FORM_FIELDS] = [
            self.add_host_fields[0].clone(),
            self.add_host_fields[1].clone(),
            self.add_host_fields[2].clone(),
            self.add_host_fields[3].clone(),
            self.add_host_fields[4].clone(),
            self.add_host_fields[5].clone(),
        ];
        assert(fields@ =~= self.add_host_fields@);
        self.pending_add_host = Some(HostFormSubmission { editing, fields });
    }

    fn give_up_discovery(&mut self)
        ensures
            *final(self) == (App {
                cancelled_host_discovery: old(self).host_discovery_request,
                host_discovery_request: None,
                add_host_form: false,
                editing_host: None,
                ..*old(self)
            }),
    {
        self.cancel_host_discovery();
        self.add_host_form = false;
        self.editing_host = None;
    }

    fn close_form(&mut self)
        ensures
            *final(self) == (App { add_host_form: false, editing_host: None, ..*old(self) }),
    {
        self.add_host_form = false;
        self.editing_host = None;
    }

    fn move_field(&mut self, field: usize)
        ensures
            *final(self) == (App { add_host_field: field, ..*old(self) }),
    {
        self.add_host_field = field;
    }

    /// What a key does in the form for a machine, where nothing is being looked for.
    pub open spec fn open_form_keyed(self, after: App, key: KeyEvent) -> bool {
        match key.code {
            KeyCode::Esc => after == (App { add_host_form: false, editing_host: None, ..self }),
            KeyCode::Tab | KeyCode::Down => after == (App {
                add_host_field: next_field(self.add_host_field),
                ..self
            }),
            KeyCode::BackTab | KeyCode::Up => after == (App {
                add_host_field: previous_field(self.add_host_field),
                ..self
            }),
            KeyCode::Enter => self.submitted_form(after),
            _ => self.filled_field(after, App::typed_field(self.field_text(), key)),
        }
    }

    fn key_in_open_form(&mut self, key: KeyEvent)
        requires
            old(self).wf(),
        ensures
            old(self).open_form_keyed(*final(self), key),
    {
        let next: usize = field_after(self.add_host_field);
        let previous: usize = field_before(self.add_host_field);
        match key.code {
            KeyCode::Esc => {
                self.close_form();
                return ;
            },
            KeyCode::Tab | KeyCode::Down => {
                self.move_field(next);
                return ;
            },
            KeyCode::BackTab | KeyCode::Up => {
                self.move_field(previous);
                return ;
            },
            KeyCode::Enter => {
                self.submit_form();
                return ;
            },
            _ => {
                self.key_in_field(key);
                return ;
            },
        }
    }

    fn key_in_form(&mut self, key: KeyEvent)
        requires
            old(self).wf(),
        ensures
            old(self).form_keyed(*final(self), key),
    {
        if self.host_discovery_request.is_none() {
            self.key_in_open_form(key);
        } else if key.code == KeyCode::Esc {
            self.give_up_discovery();
        }
    }

    /// What choosing from the list of machines does.
    pub open spec fn chosen_host(self, after: App) -> bool {
        if self.picker_cursor == self.hosts@.len() {
            self.opened_form(after)
        } else if self.picker_cursor < self.hosts@.len() {
            after == (App {
                pending_host: Some(self.hosts@[self.picker_cursor as int].id),
                host_picker: false,
                picker: false,
                ..self
            })
        } else {
            after == self
        }
    }

    fn choose_host(&mut self)
        ensures
            old(self).chosen_host(*final(self)),
    {
        if self.picker_cursor == self.hosts.len() {
            self.open_add_host();
            return ;
        }
        if self.picker_cursor < self.hosts.len() {
            let id = self.hosts[self.picker_cursor].id.clone();
            self.pending_host = Some(id);
            self.host_picker = false;
            self.picker = false;
            return ;
        }
    }

    /// What asking to open the path that was typed does: the next request has a number, and it is
    /// sent where the chosen machine is there.
    pub open spec fn asked_open(
        self,
        after: App,
        action: KeyActionView,
        around: Surroundings,
    ) -> bool {
        let request_id = next_number(self.next_open_request);
        let numbered = App { next_open_request: request_id, ..self };
        if lists_host(around.connected@, self.selected_host@) {
            &&& after == numbered
            &&& action == (KeyActionView::Open {
                host: self.selected_host@,
                request_id,
                path: expanded(trimmed(self.picker_input@), optional(around.home)),
            })
        } else {
            action is Handled && numbered.told(after, "selected machine is disconnected"@)
        }
    }

    fn ask_open(&mut self, around: &Surroundings) -> (action: KeyAction)
        ensures
            old(self).asked_open(*final(self), action@, *around),
    {
        let path = expand_path(&trim(&self.picker_input), &around.home);
        let host_id = self.selected_host.clone();
        let connected: bool = has_host(&around.connected, &host_id);
        let request_id: u64 = self.next_open_request();
        if !connected {
            self.tell("selected machine is disconnected");
            return KeyAction::Handled;
        }
        KeyAction::Open { host_id, request_id, path }
    }

    /// The request to open a project was handed to its machine, or could not be.
    pub fn finish_open_request(&mut self, request_id: u64, failure: Option<String>)
        ensures
            match failure {
                Some(failure) => old(self).told(
                    *final(self),
                    "cannot queue project switch: "@ + failure@,
                ),
                None => *final(self) == (App {
                    pending_open: Some(request_id),
                    error: None,
                    ..*old(self)
                }),
            },
    {
        match failure {
            Some(failure) => {
                let message = crate::text::concat2("cannot queue project switch: ", &failure);
                self.tell(&message);
                return ;
            },
            None => {
                self.begin_open(request_id);
                return ;
            },
        }
    }

    /// What a text in the place of what was typed in the picker does.
    pub open spec fn typed_in_picker(self, after: App, text: Seq<char>) -> bool {
        &&& after.picker_input@ == text
        &&& after == (App { picker_input: after.picker_input, picker_cursor: 0, ..self })
    }

    /// Puts a text in the place of what was typed in the picker.
    pub fn type_in_picker(&mut self, text: String)
        ensures
            old(self).typed_in_picker(*final(self), text@),
    {
        self.picker_input = text;
        self.picker_cursor = 0;
    }

    /// What enter does in the picker.
    pub open spec fn picker_entered(
        self,
        after: App,
        action: KeyActionView,
        around: Surroundings,
    ) -> bool {
        if self.host_picker {
            action is Handled && self.chosen_host(after)
        } else if self.picker_path_mode {
            if blank(self.picker_input@) {
                action is Handled && after == self
            } else {
                self.asked_open(after, action, around)
            }
        } else {
            action is Handled && after == self.chosen_workspace()
        }
    }

    fn enter_in_picker(&mut self, around: &Surroundings) -> (action: KeyAction)
        ensures
            old(self).picker_entered(*final(self), action@, *around),
    {
        if self.host_picker {
            self.choose_host();
            return KeyAction::Handled;
        }
        if self.picker_path_mode {
            if is_blank(&self.picker_input) {
                return KeyAction::Handled;
            }
            return self.ask_open(around);
        }
        self.select_workspace_choice();
        KeyAction::Handled
    }

    /// What a key that is not enter does in the picker.
    pub open spec fn list_keyed(self, after: App, key: KeyEvent) -> bool {
        match key.code {
            KeyCode::Esc => after == (App { picker: false, host_picker: false, ..self }),
            KeyCode::Up => after == self.moved_picker((-1) as isize),
            KeyCode::Down => after == self.moved_picker(1),
            KeyCode::Backspace => self.typed_in_picker(after, shortened(self.picker_input@)),
            KeyCode::Char(c) => if c == 'e' && self.host_picker {
                after == self.asked_edit()
            } else if c == 'd' && self.host_picker {
                after == self.asked_remove()
            } else if typing(key.modifiers) {
                self.typed_in_picker(after, self.picker_input@.push(c))
            } else {
                after == self
            },
            _ => after == self,
        }
    }

    fn close_picker(&mut self)
        ensures
            *final(self) == (App { picker: false, host_picker: false, ..*old(self) }),
    {
        self.picker = false;
        self.host_picker = false;
    }

    fn char_in_list(&mut self, c: char, key: KeyEvent)
        requires
            key.code == KeyCode::Char(c),
        ensures
            old(self).list_keyed(*final(self), key),
    {
        if c == 'e' && self.host_picker {
            self.request_edit_selected_host();
            return ;
        }
        if c == 'd' && self.host_picker {
            self.request_remove_selected_host();
            return ;
        }
        if is_typing(key.modifiers) {
            let mut text = self.picker_input.clone();
            text.push(c);
            self.type_in_picker(text);
            return ;
        }
    }

    fn key_in_list(&mut self, key: KeyEvent)
        ensures
            old(self).list_keyed(*final(self), key),
    {
        match key.code {
            KeyCode::Esc => {
                self.close_picker();
                return ;
            },
            KeyCode::Up => {
                self.picker_move(-1);
                return ;
            },
            KeyCode::Down => {
                self.picker_move(1);
                return ;
            },
            KeyCode::Backspace => {
                let text = shorten(&self.picker_input);
                self.type_in_picker(text);
                return ;
            },
            KeyCode::Char(c) => {
                self.char_in_list(c, key);
                return ;
            },
            _ => return ,
        }
    }

    /// What a key does where a picker is open.
    pub open spec fn picker_keyed(
        self,
        after: App,
        action: KeyActionView,
        key: KeyEvent,
        around: Surroundings,
    ) -> bool {
        if self.host_picker && self.remove_host_confirmation is Some {
            action is Handled && after == self.confirmation_keyed(key)
        } else if self.host_picker && self.add_host_form {
            action is Handled && self.form_keyed(after, key)
        } else if key.code == KeyCode::Enter {
            self.picker_entered(after, action, around)
        } else {
            action is Handled && self.list_keyed(after, key)
        }
    }

    fn key_in_picker(&mut self, key: KeyEvent, around: &Surroundings) -> (action: KeyAction)
        requires
            old(self).wf(),
        ensures
            old(self).picker_keyed(*final(self), action@, key, *around),
    {
        if self.host_picker && self.remove_host_confirmation.is_some() {
            self.key_in_confirmation(key);
            return KeyAction::Handled;
        }
        if self.host_picker && self.add_host_form {
            self.key_in_form(key);
            return KeyAction::Handled;
        }
        if key.code == KeyCode::Enter {
            return self.enter_in_picker(around);
        }
        self.key_in_list(key);
        KeyAction::Handled
    }

    /// What a key does where the list of more tabs is open.
    pub open spec fn overflow_keyed(self, after: App, key: KeyEvent) -> bool {
        match key.code {
            KeyCode::Esc | KeyCode::Char('t') => after == (App {
                tab_overflow_open: !self.tab_overflow_open,
                ..self
            }),
            KeyCode::Up => after == self.moved_overflow_cursor((-1) as isize),
            KeyCode::Down => after == self.moved_overflow_cursor(1),
            KeyCode::Enter => after == self.selected_overflow_tab(),
            _ => after == self,
        }
    }

    fn key_in_overflow(&mut self, key: KeyEvent)
        ensures
            old(self).overflow_keyed(*final(self), key),
    {
        match key.code {
            KeyCode::Esc | KeyCode::Char('t') => {
                self.toggle_tab_overflow();
                return ;
            },
            KeyCode::Up => {
                self.move_overflow_cursor(-1);
                return ;
            },
            KeyCode::Down => {
                self.move_overflow_cursor(1);
                return ;
            },
            KeyCode::Enter => {
                self.select_overflow_cursor();
                return ;
            },
            _ => return ,
        }
    }

    /// What a character does where the spine has the keys.
    pub open spec fn spine_char_keyed(self, after: App, action: KeyActionView, c: char) -> bool {
        if c == 'E' {
            action == KeyActionView::NameDiagnosticsExport("neta-session-diagnostics"@) && after
                == self
        } else {
            &&& action is Handled
            &&& if c == 'c' {
                self.entered_copy_view(after)
            } else if c == 's' {
                after == self.cycled_filter()
            } else if c == '0' {
                self.asked_leader(after)
            } else if c == '[' {
                after == self.selected_next_tab((-1) as isize)
            } else if c == ']' {
                after == self.selected_next_tab(1)
            } else if c == 'x' {
                self.closed_active_tab(after)
            } else if c == 't' {
                after == (App { tab_overflow_open: !self.tab_overflow_open, ..self })
            } else {
                after == self
            }
        }
    }

    fn char_in_spine(&mut self, c: char) -> (action: KeyAction)
        ensures
            old(self).spine_char_keyed(*final(self), action@, c),
    {
        if c == 'E' {
            return KeyAction::NameDiagnosticsExport("neta-session-diagnostics".to_owned());
        }
        if c == 'c' {
            self.enter_copy_view();
            return KeyAction::Handled;
        }
        if c == 's' {
            self.cycle_status_filter();
            return KeyAction::Handled;
        }
        if c == '0' {
            self.select_leader();
            return KeyAction::Handled;
        }
        if c == '[' {
            self.select_next_tab(-1);
            return KeyAction::Handled;
        }
        if c == ']' {
            self.select_next_tab(1);
            return KeyAction::Handled;
        }
        if c == 'x' {
            self.close_active_tab();
            return KeyAction::Handled;
        }
        if c == 't' {
            self.toggle_tab_overflow();
            return KeyAction::Handled;
        }
        KeyAction::Handled
    }

    /// What a key does where the spine has the keys.
    pub open spec fn spine_keyed(self, after: App, action: KeyActionView, key: KeyEvent) -> bool {
        match key.code {
            KeyCode::Char(c) => self.spine_char_keyed(after, action, c),
            KeyCode::Up => action is Handled && after == self.moved_cursor((-1) as isize),
            KeyCode::Down => action is Handled && after == self.moved_cursor(1),
            KeyCode::Left => action is Handled && self.folded_row(after, false),
            KeyCode::Right => action is Handled && self.folded_row(after, true),
            KeyCode::Enter => action is Handled && self.activated_row(after),
            KeyCode::Home => action is Handled && after == (App { cursor: 0, ..self }),
            KeyCode::End => action is Handled && after == self.ended_cursor(),
            KeyCode::PageUp => action is Handled && after == self.paged_cursor((-1) as isize),
            KeyCode::PageDown => action is Handled && after == self.paged_cursor(1),
            _ => action is Handled && after == self,
        }
    }

    fn key_in_spine(&mut self, key: KeyEvent) -> (action: KeyAction)
        ensures
            old(self).spine_keyed(*final(self), action@, key),
    {
        match key.code {
            KeyCode::Char(c) => return self.char_in_spine(c),
            KeyCode::Up => {
                self.move_cursor(-1);
                return KeyAction::Handled;
            },
            KeyCode::Down => {
                self.move_cursor(1);
                return KeyAction::Handled;
            },
            KeyCode::Left => {
                self.expand_selected(false);
                return KeyAction::Handled;
            },
            KeyCode::Right => {
                self.expand_selected(true);
                return KeyAction::Handled;
            },
            KeyCode::Enter => {
                self.activate();
                return KeyAction::Handled;
            },
            KeyCode::Home => {
                self.move_cursor_home();
                return KeyAction::Handled;
            },
            KeyCode::End => {
                self.move_cursor_end();
                return KeyAction::Handled;
            },
            KeyCode::PageUp => {
                self.move_cursor_page(-1);
                return KeyAction::Handled;
            },
            KeyCode::PageDown => {
                self.move_cursor_page(1);
                return KeyAction::Handled;
            },
            _ => return KeyAction::Handled,
        }
    }

    /// The machine of the pane that is shown.
    pub open spec fn pane_host(self) -> Seq<char> {
        match self.active_target {
            Some(target) => target.key.host_id@,
            None => "local"@,
        }
    }

    /// Why the pane takes no input, if it takes none.
    pub open spec fn pane_fault(self, around: Surroundings) -> Option<Seq<char>> {
        if around.pane_failed {
            Some(pane_unavailable())
        } else if !lists_host(around.connected@, self.pane_host()) {
            Some(machine_offline())
        } else {
            None
        }
    }

    fn find_pane_fault(&self, around: &Surroundings) -> (fault: Option<&'static str>)
        ensures
            match fault {
                Some(fault) => self.pane_fault(*around) == Some(fault@),
                None => self.pane_fault(*around) is None,
            },
    {
        if around.pane_failed {
            return Some("Pi pane unavailable — reselect the tab to retry");
        }
        let host: HostId = match &self.active_target {
            Some(target) => target.key.host_id.clone(),
            None => HostId::local(),
        };
        if !has_host(&around.connected, &host) {
            return Some("Machine offline — reconnect to send");
        }
        None
    }

    /// What the pane is sent for a key: a character that is typed as text, another key by its name.
    pub open spec fn pane_input(key: KeyEvent) -> Option<KeyActionView> {
        match key.code {
            KeyCode::Char(c) if typing(key.modifiers) => Some(KeyActionView::Text(seq![c])),
            _ => match token_of(key) {
                Some(token) => Some(KeyActionView::Key(token)),
                None => None,
            },
        }
    }

    fn find_pane_input(key: KeyEvent) -> (input: Option<KeyAction>)
        ensures
            match input {
                Some(input) => App::pane_input(key) == Some(input@),
                None => App::pane_input(key) is None,
            },
    {
        if let KeyCode::Char(c) = key.code {
            if is_typing(key.modifiers) {
                let mut text = String::new();
                text.push(c);
                assert(text@ =~= seq![c]);
                return Some(KeyAction::Text(text));
            }
        }
        match key_token(key) {
            Some(token) => Some(KeyAction::Key(token)),
            None => None,
        }
    }

    /// What a key does where the pane has the keys: the pane gets it, unless it takes no input.
    pub open spec fn pane_keyed(
        self,
        after: App,
        action: KeyActionView,
        key: KeyEvent,
        around: Surroundings,
    ) -> bool {
        match App::pane_input(key) {
            Some(input) => match self.pane_fault(around) {
                Some(fault) => action is Handled && self.told(after, fault),
                None => action == input && after == self,
            },
            None => action is Handled && after == self,
        }
    }

    fn key_in_pane(&mut self, key: KeyEvent, around: &Surroundings) -> (action: KeyAction)
        ensures
            old(self).pane_keyed(*final(self), action@, key, *around),
    {
        let input = match App::find_pane_input(key) {
            Some(input) => input,
            None => return KeyAction::Handled,
        };
        if let Some(fault) = self.find_pane_fault(around) {
            self.tell(fault);
            return KeyAction::Handled;
        }
        input
    }

    /// Whether a key opens the picker for machines.
    pub open spec fn opens_machines(self, key: KeyEvent) -> bool {
        !self.picker && !self.help && self.nav_focused && key.modifiers.none() && (key.code
            == KeyCode::Char('m') || key.code == KeyCode::Char('M'))
    }

    fn does_open_machines(&self, key: KeyEvent) -> (yes: bool)
        ensures
            yes == self.opens_machines(key),
    {
        !self.picker && !self.help && self.nav_focused && key.modifiers.is_empty() && (key.code
            == KeyCode::Char('m') || key.code == KeyCode::Char('M'))
    }

    /// What a key does below what opens over everything.
    pub open spec fn focus_keyed(
        self,
        after: App,
        action: KeyActionView,
        key: KeyEvent,
        around: Surroundings,
    ) -> bool {
        if navigates(key) {
            action is Handled && after == (App { nav_focused: !self.nav_focused, ..self })
        } else if self.tab_overflow_open {
            action is Handled && self.overflow_keyed(after, key)
        } else if self.nav_focused {
            self.spine_keyed(after, action, key)
        } else {
            self.pane_keyed(after, action, key, around)
        }
    }

    fn key_in_focus(&mut self, key: KeyEvent, around: &Surroundings) -> (action: KeyAction)
        ensures
            old(self).focus_keyed(*final(self), action@, key, *around),
    {
        if does_navigate(key) {
            self.nav_focused = !self.nav_focused;
            return KeyAction::Handled;
        }
        if self.tab_overflow_open {
            self.key_in_overflow(key);
            return KeyAction::Handled;
        }
        if self.nav_focused {
            return self.key_in_spine(key);
        }
        self.key_in_pane(key, around)
    }

    /// What a key does: whatever is open over everything else takes it first.
    pub open spec fn dispatched(
        self,
        after: App,
        action: KeyActionView,
        key: KeyEvent,
        around: Surroundings,
    ) -> bool {
        if self.reads_archive() {
            self.archive_keyed(after, action, key)
        } else if self.diagnostics_export_path is Some {
            action is Handled && self.diagnostics_keyed(after, key)
        } else if key.code == KeyCode::F(1) {
            action is Handled && after == self.toggled_help()
        } else if self.help {
            action is Handled && after == self.help_keyed(key)
        } else if commands(key, 'k') {
            action is Handled && self.opened_picker(after, false)
        } else if self.opens_machines(key) {
            action is Handled && after == self.opened_machines()
        } else if commands(key, 'o') {
            action is Handled && self.opened_picker(after, true)
        } else if self.picker {
            self.picker_keyed(after, action, key, around)
        } else {
            self.focus_keyed(after, action, key, around)
        }
    }

    fn dispatch_key(&mut self, key: KeyEvent, around: &Surroundings) -> (action: KeyAction)
        requires
            old(self).wf(),
        ensures
            old(self).dispatched(*final(self), action@, key, *around),
    {
        if self.is_read_only_archive() {
            return self.key_in_archive(key);
        }
        if self.diagnostics_export_path.is_some() {
            self.key_in_diagnostics(key);
            return KeyAction::Handled;
        }
        if key.code == KeyCode::F(1) {
            self.toggle_help();
            return KeyAction::Handled;
        }
        if self.help {
            self.key_in_help(key);
            return KeyAction::Handled;
        }
        if is_command(key, 'k') {
            self.open_picker(false);
            return KeyAction::Handled;
        }
        if self.does_open_machines(key) {
            self.open_host_picker();
            return KeyAction::Handled;
        }
        if is_command(key, 'o') {
            self.open_picker(true);
            return KeyAction::Handled;
        }
        if self.picker {
            return self.key_in_picker(key, around);
        }
        self.key_in_focus(key, around)
    }

    /// What a key does. Control and `q` end the client whatever is open. From the copy view, the key
    /// for navigation only leads back, and one that opens the help or a picker leads back first.
    pub open spec fn keyed(
        self,
        after: App,
        action: KeyActionView,
        key: KeyEvent,
        around: Surroundings,
    ) -> bool {
        if commands(key, 'q') {
            action is Quit && after == self
        } else if self.copy_view && navigates(key) {
            action is Handled && self.left_copy_view(after)
        } else if self.copy_view && opens_modal(key) {
            exists|back: App| #[trigger]
                self.left_copy_view(back) && back.dispatched(after, action, key, around)
        } else {
            self.dispatched(after, action, key, around)
        }
    }

    /// Takes a key.
    pub fn handle_key(&mut self, key: KeyEvent, around: &Surroundings) -> (action: KeyAction)
        requires
            old(self).wf(),
        ensures
            old(self).keyed(*final(self), action@, key, *around),
            final(self).wf(),
    {
        if is_command(key, 'q') {
            return KeyAction::Quit;
        }
        if self.copy_view && does_navigate(key) {
            self.leave_copy_view();
            return KeyAction::Handled;
        }
        if self.copy_view && (key.code == KeyCode::F(1) || is_command(key, 'k') || is_command(
            key,
            'o',
        )) {
            self.leave_copy_view();
            let ghost back = *self;
            let action = self.dispatch_key(key, around);
            assert(old(self).left_copy_view(back));
            return action;
        }
        self.dispatch_key(key, around)
    }
}

} // verus!
