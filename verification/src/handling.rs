//! What the keys, the mouse and a paste come to: who gets them, and what each of them is for.

use vstd::prelude::*;
use vstd::string::*;

use crate::app::{lists_host, App, MACHINE_FORM_FIELDS};
use crate::input::{sequence_of, token_of, KeyCode, KeyEvent, KeyModifiers, MouseEvent};
use crate::keys::{edited, expanded, next_field, previous_field, KeyActionView, Surroundings};
use crate::pointer::PaneAccess;
use crate::tabs::hit;
use crate::text::{blank, optional, trimmed};

verus! {

/// A key without any modifier.
pub open spec fn plain(code: KeyCode) -> KeyEvent {
    KeyEvent {
        code,
        modifiers: KeyModifiers { shift: false, control: false, alt: false, other: false },
    }
}

/// A character held with control alone.
pub open spec fn with_control(c: char) -> KeyEvent {
    KeyEvent {
        code: KeyCode::Char(c),
        modifiers: KeyModifiers { shift: false, control: true, alt: false, other: false },
    }
}

/// Whether a key is a character held with control.
pub open spec fn holds_control(key: KeyEvent, c: char) -> bool {
    key.modifiers.control && key.code == KeyCode::Char(c)
}

impl App {
    /// Whether nothing lies over the spine and the pane.
    pub open spec fn lies_open(self) -> bool {
        &&& !self.archive_loading && self.saved_transcript is None
        &&& self.diagnostics_export_path is None
        &&& !self.help && !self.picker && !self.copy_view && !self.tab_overflow_open
    }
}

/// Whether a key is kept from the pane: it ends the client, opens something, or leads to the spine.
pub open spec fn is_reserved(key: KeyEvent) -> bool {
    ||| holds_control(key, 'q')
    ||| holds_control(key, 'k')
    ||| holds_control(key, 'o')
    ||| holds_control(key, ' ')
    ||| key.code == KeyCode::Null
    ||| key.code == KeyCode::F(1)
}

/// Control and `q` end the client whatever is shown, and nothing else does.
pub proof fn only_control_and_q_end_the_client(
    app: App,
    after: App,
    action: KeyActionView,
    key: KeyEvent,
    around: Surroundings,
)
    requires
        app.keyed(after, action, key, around),
    ensures
        action is Quit <==> holds_control(key, 'q'),
        action is Quit ==> after == app,
{
}

/// Where the pane has the keys and takes them, every key that is not kept from it reaches it, a typed
/// character as itself and any other under its name, and changes nothing here.
pub proof fn a_key_reaches_the_pane(
    app: App,
    after: App,
    action: KeyActionView,
    key: KeyEvent,
    around: Surroundings,
)
    requires
        app.keyed(after, action, key, around),
        app.lies_open(),
        !app.nav_focused,
        !around.pane_failed,
        app.active_target is Some,
        lists_host(around.connected@, app.active_target->0.key.host_id@),
        !is_reserved(key),
    ensures
        after == app,
        match key.code {
            KeyCode::Char(c) => if key.modifiers.control || key.modifiers.alt || key.modifiers.other {
                token_of(key) is Some && action == KeyActionView::Key(token_of(key)->0)
            } else {
                action == KeyActionView::Text(seq![c])
            },
            KeyCode::Other => action is Handled,
            _ => token_of(key) is Some && action == KeyActionView::Key(token_of(key)->0),
        },
{
}

/// The pane gets a key only where it has the keys, nothing lies over it, it has not failed, and its
/// machine is there; whoever cannot be reached is told of.
pub proof fn nothing_else_reaches_the_pane(
    app: App,
    after: App,
    action: KeyActionView,
    key: KeyEvent,
    around: Surroundings,
)
    requires
        app.keyed(after, action, key, around),
        app.active_target is Some,
    ensures
        action is Text || action is Key ==> {
            &&& !app.archive_loading && app.saved_transcript is None
            &&& app.diagnostics_export_path is None
            &&& !app.help && !app.picker && !app.tab_overflow_open
            &&& !app.nav_focused
            &&& !around.pane_failed
            &&& lists_host(around.connected@, app.active_target->0.key.host_id@)
            &&& after == app
        },
        app.lies_open() && !app.nav_focused && !is_reserved(key) && (around.pane_failed
            || !lists_host(around.connected@, app.active_target->0.key.host_id@))
            && key.code != KeyCode::Other ==> action is Handled && after.error is Some
            && after.active_target == app.active_target,
{
}

/// Control and space lead from the pane to the spine and back, and change nothing else.
pub proof fn control_and_space_change_sides(
    app: App,
    there: App,
    back: App,
    first: KeyActionView,
    second: KeyActionView,
    around: Surroundings,
)
    requires
        app.lies_open(),
        app.keyed(there, first, with_control(' '), around),
        there.keyed(back, second, with_control(' '), around),
    ensures
        there.nav_focused == !app.nav_focused,
        there == (App { nav_focused: !app.nav_focused, ..app }),
        back == app,
        first is Handled,
{
}

/// On the spine the arrows move the cursor by a row, and Home and End to the first row and the last;
/// nothing else changes.
pub proof fn arrows_move_over_the_spine(
    app: App,
    after: App,
    action: KeyActionView,
    key: KeyEvent,
    around: Surroundings,
)
    requires
        app.keyed(after, action, key, around),
        app.lies_open(),
        app.nav_focused,
        app.spine().len() > 0,
        app.spine().len() <= usize::MAX,
        app.cursor < app.spine().len(),
        key.code is Down || key.code is Up || key.code is Home || key.code is End,
    ensures
        action is Handled,
        after == (App { cursor: after.cursor, ..app }),
        key.code is Down ==> after.cursor == if app.cursor + 1 < app.spine().len() {
            app.cursor + 1
        } else {
            app.cursor as int
        },
        key.code is Up ==> after.cursor == if app.cursor > 0 {
            app.cursor - 1
        } else {
            0
        },
        key.code is Home ==> after.cursor == 0,
        key.code is End ==> after.cursor == app.spine().len() - 1,
{
}

/// On the spine a page up goes towards the first row, a page down towards the last, by the rows that can
/// be seen.
pub proof fn pages_move_over_the_spine(
    app: App,
    after: App,
    action: KeyActionView,
    key: KeyEvent,
    around: Surroundings,
)
    requires
        app.keyed(after, action, key, around),
        app.lies_open(),
        app.nav_focused,
        app.spine().len() > 0,
        app.spine().len() <= usize::MAX,
        app.cursor < app.spine().len(),
        0 < app.visible_selectable_rows <= isize::MAX,
        key.code is PageDown || key.code is PageUp,
    ensures
        after == (App { cursor: after.cursor, ..app }),
        key.code is PageDown ==> after.cursor == if app.cursor + app.visible_selectable_rows
            < app.spine().len() {
            app.cursor + app.visible_selectable_rows
        } else {
            app.spine().len() - 1
        },
        key.code is PageUp ==> after.cursor == if app.cursor >= app.visible_selectable_rows {
            app.cursor - app.visible_selectable_rows
        } else {
            0
        },
{
}

/// On the spine enter chooses the row at the cursor, and left and right fold the mission there shut and
/// open.
pub proof fn enter_chooses_and_left_and_right_fold(
    app: App,
    after: App,
    action: KeyActionView,
    key: KeyEvent,
    around: Surroundings,
)
    requires
        app.keyed(after, action, key, around),
        app.lies_open(),
        app.nav_focused,
    ensures
        key.code is Enter ==> app.activated_row(after),
        key.code is Left ==> app.folded_row(after, false),
        key.code is Right ==> app.folded_row(after, true),
{
}

/// The characters that the spine knows: `s` goes on to the next filter, `0` asks for the leader, `[` and
/// `]` step through the tabs, `x` closes the tab that is shown, `t` opens or closes the list of more
/// tabs, `c` shows nothing but the pane, `E` exports diagnostics, and `m` opens the list of machines.
pub proof fn the_spine_knows_its_characters(
    app: App,
    after: App,
    action: KeyActionView,
    c: char,
    around: Surroundings,
)
    requires
        app.keyed(after, action, plain(KeyCode::Char(c)), around),
        app.lies_open(),
        app.nav_focused,
    ensures
        c == 's' ==> after.status_filter == app.status_filter.following(),
        c == '0' ==> app.asked_leader(after),
        c == '[' ==> after == app.selected_next_tab((-1) as isize),
        c == ']' ==> after == app.selected_next_tab(1),
        c == 'x' && app.active_target is Some ==> app.closed_tab(after, app.active_target->0.key@),
        c == 't' ==> after == (App { tab_overflow_open: true, ..app }),
        c == 'c' ==> after.copy_view && !after.nav_focused && after.row_hitboxes@.len() == 0
            && after.tab_hitboxes@.len() == 0,
        c == 'E' ==> action is NameDiagnosticsExport && after == app,
        c == 'm' || c == 'M' ==> after.picker && after.host_picker && after.picker_cursor == 0,
        c != 'E' ==> action is Handled,
        c != 's' && c != '0' && c != '[' && c != ']' && c != 'x' && c != 't' && c != 'c' && c != 'E'
            && c != 'm' && c != 'M' ==> after == app,
{
}

/// Control and `k` open the picker for workspaces, control and `o` the one for paths, each with nothing
/// typed yet.
pub proof fn pickers_are_opened_by_their_keys(
    app: App,
    after: App,
    action: KeyActionView,
    path_mode: bool,
    around: Surroundings,
)
    requires
        app.lies_open(),
        app.keyed(
            after,
            action,
            with_control(
                if path_mode {
                    'o'
                } else {
                    'k'
                },
            ),
            around,
        ),
    ensures
        action is Handled,
        after.picker,
        !after.host_picker,
        after.picker_path_mode == path_mode,
        after.picker_input@.len() == 0,
        after.picker_cursor == 0,
        after.active_target == app.active_target,
{
}

/// Escape closes what lies over the spine and the pane: a picker, the help, the form for a machine, the
/// question whether to forget one, and a saved conversation.
pub proof fn escape_closes_what_is_open(
    app: App,
    after: App,
    action: KeyActionView,
    around: Surroundings,
)
    requires
        app.keyed(after, action, plain(KeyCode::Esc), around),
    ensures
        action is Handled || (app.lies_open() && !app.nav_focused) || app.copy_view,
        app.reads_archive() && app.fixed_preview is None && app.export_path is None
            ==> !after.reads_archive() && after.nav_focused,
        app.reads_archive() && app.fixed_preview is Some ==> after.fixed_preview is None
            && after.saved_transcript == app.saved_transcript,
        app.reads_archive() && app.fixed_preview is None && app.export_path is Some
            ==> after.export_path is None && after.saved_transcript == app.saved_transcript,
        !app.reads_archive() && app.diagnostics_export_path is Some
            ==> after.diagnostics_export_path is None && after.pending_diagnostics_export
            == app.pending_diagnostics_export,
        !app.reads_archive() && app.diagnostics_export_path is None && app.help ==> !after.help,
        !app.reads_archive() && app.diagnostics_export_path is None && !app.help && app.picker ==> {
            &&& app.host_picker && app.remove_host_confirmation is Some
                ==> after.remove_host_confirmation is None && after.pending_remove_host
                == app.pending_remove_host
            &&& app.host_picker && app.remove_host_confirmation is None && app.add_host_form
                ==> !after.add_host_form && after.pending_add_host == app.pending_add_host
                && after.host_discovery_request is None
            &&& !(app.host_picker && (app.remove_host_confirmation is Some || app.add_host_form))
                ==> !after.picker && !after.host_picker
        },
{
}

/// In a saved conversation the arrows scroll by a line, towards its start and its end, and page up asks
/// for what is older.
pub proof fn a_saved_conversation_is_read_with_the_arrows(
    app: App,
    after: App,
    action: KeyActionView,
    key: KeyEvent,
    around: Surroundings,
)
    requires
        app.keyed(after, action, key, around),
        app.reads_archive(),
        app.fixed_preview is None,
        app.export_path is None,
        !app.copy_view,
        app.saved_scroll <= app.scroll_limit(),
    ensures
        key.code is Up ==> after.saved_scroll == if app.saved_scroll > 0 {
            app.saved_scroll - 1
        } else {
            0
        },
        key.code is Down ==> after.saved_scroll == if app.saved_scroll < app.scroll_limit() {
            app.saved_scroll + 1
        } else {
            app.scroll_limit() as int
        },
        key.code is End && app.scroll_limit() <= i16::MAX ==> after.saved_scroll
            == app.scroll_limit(),
        key.code is PageUp ==> after == app.asked_older(),
        key.code == KeyCode::Char('f') ==> after == app.begun_followup(),
        key.code == KeyCode::Char('e') && app.saved_transcript is Some ==> action
            is NameArchiveExport && after == app,
        key.code is Up || key.code is Down || key.code is End ==> after == (App {
            saved_scroll: after.saved_scroll,
            ..app
        }),
{
}

/// The help is opened and closed by the same key, and scrolled by the arrows and the page keys.
pub proof fn the_help_is_opened_and_read(
    app: App,
    after: App,
    action: KeyActionView,
    key: KeyEvent,
    around: Surroundings,
)
    requires
        app.keyed(after, action, key, around),
        !app.reads_archive(),
        app.diagnostics_export_path is None,
        !app.copy_view,
        !holds_control(key, 'q'),
    ensures
        key.code == KeyCode::F(1) ==> after.help == !app.help && after.help_scroll == 0,
        app.help && key.code is Down && app.help_scroll < u16::MAX ==> after.help_scroll
            == app.help_scroll + 1,
        app.help && key.code is Up && app.help_scroll > 0 ==> after.help_scroll == app.help_scroll
            - 1,
        app.help && key.code is PageDown && app.help_scroll <= u16::MAX - 8 ==> after.help_scroll
            == app.help_scroll + 8,
        app.help && key.code is PageUp && app.help_scroll >= 8 ==> after.help_scroll
            == app.help_scroll - 8,
        app.help ==> after.cursor == app.cursor && after.pending_target == app.pending_target,
{
}

/// A line that is typed holds what was typed: a character is put behind it, backspace takes back the
/// last one, and control and `u` take all of it.
pub proof fn backspace_takes_back_what_was_typed(text: Seq<char>, c: char)
    ensures
        edited(text, plain(KeyCode::Char(c))) == text.push(c),
        edited(edited(text, plain(KeyCode::Char(c))), plain(KeyCode::Backspace)) == text,
        edited(text, with_control('u')).len() == 0,
        edited(Seq::empty(), plain(KeyCode::Backspace)).len() == 0,
        edited(text, plain(KeyCode::Left)) == text,
        c != 'u' ==> edited(text, with_control(c)) == text,
{
    assert(text.push(c).drop_last() =~= text);
}

/// The fields of the form for a machine are gone through in their order, and backwards in the reverse
/// order, from the last to the first and from the first to the last.
pub proof fn fields_are_gone_through_in_their_order(field: usize)
    requires
        field < MACHINE_FORM_FIELDS,
    ensures
        next_field(field) < MACHINE_FORM_FIELDS,
        field + 1 < MACHINE_FORM_FIELDS ==> next_field(field) == field + 1,
        field + 1 == MACHINE_FORM_FIELDS ==> next_field(field) == 0,
        previous_field(next_field(field)) == field,
        next_field(previous_field(field)) == field,
{
}

/// In the form for a machine, tab goes to the next field and back tab to the one before it; a character
/// is typed into the field that has the cursor, and into no other; enter hands over what was typed, for
/// the machine that is edited.
pub proof fn the_form_takes_what_is_typed(
    app: App,
    after: App,
    action: KeyActionView,
    key: KeyEvent,
    around: Surroundings,
    field: int,
)
    requires
        app.keyed(after, action, key, around),
        app.wf(),
        !app.reads_archive(),
        app.diagnostics_export_path is None,
        !app.help,
        !app.copy_view,
        app.picker,
        app.host_picker,
        app.add_host_form,
        app.remove_host_confirmation is None,
        app.host_discovery_request is None,
        key.modifiers.none(),
        0 <= field < MACHINE_FORM_FIELDS,
    ensures
        action is Handled || key.code is F,
        key.code is Tab || key.code is Down ==> after.add_host_field == next_field(
            app.add_host_field,
        ) && after.add_host_fields == app.add_host_fields,
        key.code is BackTab || key.code is Up ==> after.add_host_field == previous_field(
            app.add_host_field,
        ) && after.add_host_fields == app.add_host_fields,
        key.code matches KeyCode::Char(c) ==> after.add_host_fields@[field]@ == if field
            == app.add_host_field {
            app.add_host_fields@[field]@.push(c)
        } else {
            app.add_host_fields@[field]@
        },
        key.code is Backspace && app.add_host_fields@[field]@.len() > 0
            ==> after.add_host_fields@[field]@ == if field == app.add_host_field {
            app.add_host_fields@[field]@.drop_last()
        } else {
            app.add_host_fields@[field]@
        },
        key.code is Enter ==> after.pending_add_host is Some
            && after.pending_add_host->0.fields@[field] == app.add_host_fields@[field]
            && after.pending_add_host->0.editing == app.editing_host,
{
}

/// In the list of machines, enter chooses the machine at the cursor, and below the last one opens an
/// empty form.
pub proof fn enter_chooses_a_machine(
    app: App,
    after: App,
    action: KeyActionView,
    around: Surroundings,
)
    requires
        app.keyed(after, action, plain(KeyCode::Enter), around),
        !app.reads_archive(),
        app.diagnostics_export_path is None,
        !app.help,
        !app.copy_view,
        app.picker,
        app.host_picker,
        !app.add_host_form,
        app.remove_host_confirmation is None,
    ensures
        action is Handled,
        app.picker_cursor < app.hosts@.len() ==> after.pending_host == Some(
            app.hosts@[app.picker_cursor as int].id,
        ) && !after.picker && !after.host_picker,
        app.picker_cursor == app.hosts@.len() ==> after.add_host_form && after.editing_host is None
            && after.add_host_field == 0 && (forall|i: int|
            0 <= i < MACHINE_FORM_FIELDS ==> (#[trigger] after.add_host_fields@[i])@.len() == 0)
            && after.pending_host == app.pending_host,
{
}

/// Enter opens the path that was typed, without the space around it and with the home directory in the
/// place of a tilde, on the machine that is shown, where that is there; without a path nothing is opened.
pub proof fn enter_opens_the_path_that_was_typed(
    app: App,
    after: App,
    action: KeyActionView,
    around: Surroundings,
)
    requires
        app.keyed(after, action, plain(KeyCode::Enter), around),
        !app.reads_archive(),
        app.diagnostics_export_path is None,
        !app.help,
        !app.copy_view,
        app.picker,
        !app.host_picker,
        app.picker_path_mode,
    ensures
        blank(app.picker_input@) ==> action is Handled && after == app,
        !blank(app.picker_input@) && lists_host(around.connected@, app.selected_host@) ==> {
            &&& action matches KeyActionView::Open { host, request_id, path } && host
                == app.selected_host@ && request_id == after.next_open_request && request_id
                != app.next_open_request && path == expanded(
                trimmed(app.picker_input@),
                optional(around.home),
            )
        },
        !blank(app.picker_input@) && !lists_host(around.connected@, app.selected_host@)
            ==> action is Handled && after.error is Some,
{
}

/// A path that starts with a tilde lies below the home directory; any other is taken as it is.
pub proof fn a_tilde_stands_for_the_home_directory(rest: Seq<char>, home: Seq<char>, path: Seq<char>)
    ensures
        expanded(seq!['~', '/'] + rest, Some(home)) == crate::paths::joined(home, rest),
        expanded(path, None) == path,
        path.len() < 2 || path[0] != '~' || path[1] != '/' ==> expanded(path, Some(home)) == path,
{
    reveal_strlit("~/");
    assert("~/"@ =~= seq!['~', '/']);
    let whole = seq!['~', '/'] + rest;
    assert(whole.take(2) =~= "~/"@);
    assert(whole.skip(2) =~= rest);
    assert("~/"@.is_prefix_of(whole));
    if "~/"@.is_prefix_of(path) {
        assert(path[0] == '~');
        assert(path[1] == '/');
    }
}

/// In a picker, what is typed goes into its line, from where the list is looked through anew.
pub proof fn a_picker_takes_what_is_typed(
    app: App,
    after: App,
    action: KeyActionView,
    c: char,
    around: Surroundings,
)
    requires
        app.keyed(after, action, plain(KeyCode::Char(c)), around),
        !app.reads_archive(),
        app.diagnostics_export_path is None,
        !app.help,
        !app.copy_view,
        app.picker,
        !app.host_picker,
    ensures
        action is Handled,
        after.picker_input@ == app.picker_input@.push(c),
        after.picker_cursor == 0,
        after.pending_workspace == app.pending_workspace,
{
}

/// A click on a row of the spine puts the cursor there and chooses that row.
pub proof fn a_click_chooses_the_row_under_it(
    app: App,
    after: App,
    sent: Option<Seq<char>>,
    event: MouseEvent,
    pane: PaneAccess,
    row: usize,
)
    requires
        app.moused(after, sent, event, pane),
        app.lies_open(),
        event.kind is Down,
        app.sidebar_area.holds((event.column, event.row)),
        !app.header_holds((event.column, event.row)),
        !app.filter_holds((event.column, event.row)),
        hit(app.row_hitboxes@, (event.column, event.row)) == Some(row),
    ensures
        sent is None,
        (App { nav_focused: true, cursor: row, ..app }).activated_row(after),
{
}

/// A click on a tab chooses it, a click on the sign beside it closes it, a click on the filter goes on to
/// the next one, and a click on the name of the machine opens the list of machines. The pane gets none
/// of them.
pub proof fn a_click_does_what_stands_under_it(
    app: App,
    after: App,
    sent: Option<Seq<char>>,
    event: MouseEvent,
    pane: PaneAccess,
)
    requires
        app.moused(after, sent, event, pane),
        app.lies_open(),
        event.kind is Down,
    ensures
        ({
            let point = (event.column, event.row);
            let elsewhere = !app.header_holds(point) && !app.filter_holds(point)
                && !app.sidebar_area.holds(point) && hit(app.overflow_tab_hitboxes@, point) is None
                && !app.overflow_holds(point);
            &&& app.header_holds(point) ==> sent is None && after.picker && after.host_picker
            &&& !app.header_holds(point) && app.filter_holds(point) ==> sent is None
                && after.status_filter == app.status_filter.following() && after.nav_focused
            &&& elsewhere && hit(app.tab_close_hitboxes@, point) is Some ==> sent is None
                && app.closed_tab(after, hit(app.tab_close_hitboxes@, point)->0@)
            &&& elsewhere && hit(app.tab_close_hitboxes@, point) is None && hit(
                app.tab_hitboxes@,
                point,
            ) is Some ==> sent is None && after == app.selected_tab(
                hit(app.tab_hitboxes@, point)->0@,
            )
        }),
{
}

/// A mouse event in the pane, and nowhere else, is told to the pane, at its place there; the pane has
/// the keys then.
pub proof fn the_pane_gets_the_mouse_over_it(
    app: App,
    after: App,
    sent: Option<Seq<char>>,
    event: MouseEvent,
    pane: PaneAccess,
)
    requires
        app.moused(after, sent, event, pane),
        app.lies_open(),
        !(event.kind is Down && app.click_lands((event.column, event.row))),
    ensures
        ({
            let inside = app.pane_area.holds((event.column, event.row));
            &&& !inside ==> sent is None && after == app
            &&& inside ==> !after.nav_focused
            &&& inside && !pane.failed && pane.connected ==> sent == sequence_of(
                event,
                app.pane_area.x,
                app.pane_area.y,
            ) && after.error == app.error
            &&& inside && (pane.failed || !pane.connected) ==> sent is None && after.error is Some
        }),
{
}

/// Over a saved conversation the wheel scrolls, up towards its start and down towards its end; the pane
/// gets nothing.
pub proof fn the_wheel_scrolls_a_saved_conversation(
    app: App,
    after: App,
    sent: Option<Seq<char>>,
    event: MouseEvent,
    pane: PaneAccess,
)
    requires
        app.moused(after, sent, event, pane),
        app.reads_archive(),
        app.diagnostics_export_path is None,
        !app.tab_overflow_open,
        app.saved_scroll <= app.scroll_limit(),
    ensures
        sent is None,
        event.kind is ScrollUp && app.saved_scroll >= 3 ==> after.saved_scroll == app.saved_scroll - 3,
        event.kind is ScrollDown && app.saved_scroll + 3 <= app.scroll_limit() ==> after.saved_scroll
            == app.saved_scroll + 3,
        !(event.kind is ScrollUp || event.kind is ScrollDown) ==> after == app,
{
}

/// A paste reaches the pane as it is, between the signs that announce it, where the pane has the keys
/// and takes them; in a line that is typed it is put behind what stands there.
pub proof fn a_paste_goes_where_typing_goes(
    app: App,
    after: App,
    sent: Option<Seq<char>>,
    text: Seq<char>,
    pane: PaneAccess,
)
    requires
        app.took_paste(after, sent, text, pane),
        app.wf(),
    ensures
        app.lies_open() && !app.nav_focused && !pane.failed && pane.connected ==> sent is Some
            && after == app && sent->0 == seq!['\x1b', '[', '2', '0', '0', '~'] + text + seq![
            '\x1b',
            '[',
            '2',
            '0',
            '1',
            '~',
        ],
        sent is Some ==> !app.nav_focused && !pane.failed && pane.connected && !app.picker
            && !app.help && !app.reads_archive(),
        app.diagnostics_export_path is Some ==> optional(after.diagnostics_export_path) == Some(
            app.diagnostics_export_path->0@ + text,
        ),
        app.diagnostics_export_path is None && !app.reads_archive() && !app.tab_overflow_open
            && app.picker && !(app.host_picker && app.add_host_form) ==> after.picker_input@
            == app.picker_input@ + text,
        app.diagnostics_export_path is None && !app.reads_archive() && !app.tab_overflow_open
            && app.picker && app.host_picker && app.add_host_form
            ==> after.add_host_fields@[app.add_host_field as int]@
            == app.add_host_fields@[app.add_host_field as int]@ + text,
{
    reveal_strlit("\x1b[200~");
    reveal_strlit("\x1b[201~");
    assert("\x1b[200~"@ =~= seq!['\x1b', '[', '2', '0', '0', '~']);
    assert("\x1b[201~"@ =~= seq!['\x1b', '[', '2', '0', '1', '~']);
}

/// In the list of more tabs the arrows move the cursor, enter chooses the tab there, and a click on a tab
/// chooses it.
pub proof fn the_list_of_more_tabs_is_chosen_from(
    app: App,
    after: App,
    action: KeyActionView,
    key: KeyEvent,
    around: Surroundings,
)
    requires
        app.keyed(after, action, key, around),
        !app.reads_archive(),
        app.diagnostics_export_path is None,
        !app.help && !app.picker && !app.copy_view,
        app.tab_overflow_open,
        app.hidden_tab_ids@.len() <= usize::MAX,
        app.tab_overflow_cursor < app.hidden_tab_ids@.len(),
        key.modifiers.none(),
    ensures
        key.code is Down ==> after.tab_overflow_cursor == if app.tab_overflow_cursor + 1
            < app.hidden_tab_ids@.len() {
            app.tab_overflow_cursor + 1
        } else {
            app.tab_overflow_cursor as int
        },
        key.code is Up ==> after.tab_overflow_cursor == if app.tab_overflow_cursor > 0 {
            app.tab_overflow_cursor - 1
        } else {
            0
        },
        key.code is Enter ==> after == app.selected_tab(
            app.hidden_tab_ids@[app.tab_overflow_cursor as int]@,
        ),
        key.code is Esc ==> !after.tab_overflow_open,
{
}

} // verus!
