//! What the mouse does, and what pasted text does.

use vstd::prelude::*;
use vstd::string::*;

use crate::app::App;
use crate::input::{mouse_sequence, sequence_of, MouseEvent, MouseEventKind};
use crate::keys::{machine_offline, pane_unavailable};
use crate::tabs::hit;
use crate::text::{concat2, concat3, optional};

verus! {

/// The pane that is shown: whether it failed, and whether its machine is there.
#[derive(Clone, Copy, Debug, PartialEq, Eq, Structural)]
pub struct PaneAccess {
    pub failed: bool,
    pub connected: bool,
}

impl PaneAccess {
    /// Why the pane takes no input, if it takes none.
    pub open spec fn fault(self) -> Option<Seq<char>> {
        if self.failed {
            Some(pane_unavailable())
        } else if !self.connected {
            Some(machine_offline())
        } else {
            None
        }
    }

    fn find_fault(&self) -> (fault: Option<&'static str>)
        ensures
            match fault {
                Some(fault) => self.fault() == Some(fault@),
                None => self.fault() is None,
            },
    {
        if self.failed {
            Some("Pi pane unavailable — reselect the tab to retry")
        } else if !self.connected {
            Some("Machine offline — reconnect to send")
        } else {
            None
        }
    }
}

/// A text as a terminal announces a paste, so that an editor takes it without acting on it.
pub open spec fn pasted(text: Seq<char>) -> Seq<char> {
    "\x1b[200~"@ + text + "\x1b[201~"@
}

/// A text as a terminal announces a paste.
pub fn bracketed_paste(text: &str) -> (sequence: String)
    ensures
        sequence@ == pasted(text@),
{
    concat3("\x1b[200~", text, "\x1b[201~")
}

impl App {
    /// What lies under a point in the list of more tabs.
    pub open spec fn overflow_holds(self, point: (u16, u16)) -> bool {
        match self.overflow_hitbox {
            Some(area) => area.holds(point),
            None => false,
        }
    }

    /// Whether the status filter lies under a point.
    pub open spec fn filter_holds(self, point: (u16, u16)) -> bool {
        match self.status_filter_hitbox {
            Some(area) => area.holds(point),
            None => false,
        }
    }

    /// What a click does where the list of more tabs is open: a tab is chosen, or the list closes.
    pub open spec fn overflow_clicked(self, point: (u16, u16)) -> App {
        match hit(self.overflow_tab_hitboxes@, point) {
            Some(key) => self.selected_tab(key@),
            None => if self.overflow_holds(point) {
                self
            } else {
                App { tab_overflow_open: !self.tab_overflow_open, ..self }
            },
        }
    }

    fn click_in_overflow(&mut self, point: (u16, u16))
        ensures
            *final(self) == old(self).overflow_clicked(point),
    {
        if let Some(key) = self.overflow_tab_at(point) {
            self.select_tab(&key);
            return ;
        }
        if !self.overflow_at(point) {
            self.toggle_tab_overflow();
            return ;
        }
    }

    /// What a click on the spine does: it gets the keys, and a row under the point is chosen.
    pub open spec fn spine_clicked(self, after: App, point: (u16, u16)) -> bool {
        match hit(self.row_hitboxes@, point) {
            Some(row) => (App { nav_focused: true, cursor: row, ..self }).activated_row(after),
            None => after == (App { nav_focused: true, ..self }),
        }
    }

    fn click_in_spine(&mut self, point: (u16, u16))
        ensures
            old(self).spine_clicked(*final(self), point),
    {
        let row = self.row_at(point);
        self.nav_focused = true;
        if let Some(row) = row {
            self.cursor = row;
            self.activate();
            return ;
        }
    }

    /// Whether a click lands on something other than the pane.
    pub open spec fn click_lands(self, point: (u16, u16)) -> bool {
        ||| self.header_holds(point)
        ||| self.filter_holds(point)
        ||| self.sidebar_area.holds(point)
        ||| hit(self.overflow_tab_hitboxes@, point) is Some
        ||| self.overflow_holds(point)
        ||| hit(self.tab_close_hitboxes@, point) is Some
        ||| hit(self.tab_hitboxes@, point) is Some
    }

    /// What a click does that lands on something other than the pane.
    pub open spec fn clicked(self, after: App, point: (u16, u16)) -> bool {
        if self.header_holds(point) {
            after == self.opened_machines()
        } else if self.filter_holds(point) {
            after == (App { nav_focused: true, ..self }).cycled_filter()
        } else if self.sidebar_area.holds(point) {
            self.spine_clicked(after, point)
        } else {
            match hit(self.overflow_tab_hitboxes@, point) {
                Some(key) => after == self.selected_tab(key@),
                None => if self.overflow_holds(point) {
                    after == (App { tab_overflow_open: !self.tab_overflow_open, ..self })
                } else {
                    match hit(self.tab_close_hitboxes@, point) {
                        Some(key) => self.closed_tab(after, key@),
                        None => match hit(self.tab_hitboxes@, point) {
                            Some(key) => after == self.selected_tab(key@),
                            None => after == self,
                        },
                    }
                },
            }
        }
    }

    fn cycle_from_header(&mut self)
        ensures
            *final(self) == (App { nav_focused: true, ..*old(self) }).cycled_filter(),
    {
        self.nav_focused = true;
        self.cycle_status_filter();
    }

    fn click(&mut self, point: (u16, u16)) -> (landed: bool)
        ensures
            landed == old(self).click_lands(point),
            old(self).clicked(*final(self), point),
            !landed ==> *final(self) == *old(self),
    {
        if self.host_header_at(point) {
            self.open_host_picker();
            return true;
        }
        if self.status_filter_at(point) {
            self.cycle_from_header();
            return true;
        }
        if self.sidebar_area.contains(point) {
            self.click_in_spine(point);
            return true;
        }
        if let Some(key) = self.overflow_tab_at(point) {
            self.select_tab(&key);
            return true;
        }
        if self.overflow_at(point) {
            self.toggle_tab_overflow();
            return true;
        }
        if let Some(key) = self.tab_close_at(point) {
            self.close_tab(&key);
            return true;
        }
        if let Some(key) = self.tab_at(point) {
            self.select_tab(&key);
            return true;
        }
        false
    }

    /// What the mouse does over the pane: the pane gets the keys and the event, unless it takes no
    /// input.
    pub open spec fn pane_moused(
        self,
        after: App,
        sent: Option<Seq<char>>,
        event: MouseEvent,
        pane: PaneAccess,
    ) -> bool {
        if !self.pane_area.holds((event.column, event.row)) {
            sent is None && after == self
        } else {
            let focused = App { nav_focused: false, ..self };
            match pane.fault() {
                Some(fault) => sent is None && focused.told(after, fault),
                None => after == focused && sent == sequence_of(
                    event,
                    self.pane_area.x,
                    self.pane_area.y,
                ),
            }
        }
    }

    fn focus_failed_pane(&mut self, fault: &str)
        ensures
            (App { nav_focused: false, ..*old(self) }).told(*final(self), fault@),
    {
        self.nav_focused = false;
        self.error = Some(fault.to_owned());
    }

    fn mouse_in_pane(&mut self, event: MouseEvent, pane: PaneAccess) -> (sent: Option<String>)
        ensures
            old(self).pane_moused(*final(self), optional(sent), event, pane),
    {
        if !self.pane_area.contains((event.column, event.row)) {
            return None;
        }
        let sequence = mouse_sequence(event, self.pane_area.x, self.pane_area.y);
        if let Some(fault) = pane.find_fault() {
            self.focus_failed_pane(fault);
            return None;
        }
        self.nav_focused = false;
        sequence
    }

    /// What the mouse does over a saved conversation: it scrolls.
    pub open spec fn transcript_moused(self, event: MouseEvent) -> App {
        match event.kind {
            MouseEventKind::ScrollUp => self.scrolled_saved((-3) as isize),
            MouseEventKind::ScrollDown => self.scrolled_saved(3),
            _ => self,
        }
    }

    fn mouse_in_transcript(&mut self, event: MouseEvent)
        ensures
            *final(self) == old(self).transcript_moused(event),
    {
        match event.kind {
            MouseEventKind::ScrollUp => {
                self.scroll_saved(-3);
                return ;
            },
            MouseEventKind::ScrollDown => {
                self.scroll_saved(3);
                return ;
            },
            _ => return ,
        }
    }

    /// What the mouse does, and what the pane is sent for it.
    pub open spec fn moused(
        self,
        after: App,
        sent: Option<Seq<char>>,
        event: MouseEvent,
        pane: PaneAccess,
    ) -> bool {
        let point = (event.column, event.row);
        if self.diagnostics_export_path is Some {
            sent is None && after == self
        } else if self.tab_overflow_open {
            sent is None && after == (if event.kind is Down {
                self.overflow_clicked(point)
            } else {
                self
            })
        } else if self.reads_archive() {
            sent is None && after == self.transcript_moused(event)
        } else if self.picker || self.help {
            sent is None && after == self
        } else if event.kind is Down && self.click_lands(point) {
            sent is None && self.clicked(after, point)
        } else {
            self.pane_moused(after, sent, event, pane)
        }
    }

    /// Takes a mouse event.
    pub fn handle_mouse(&mut self, event: MouseEvent, pane: PaneAccess) -> (sent: Option<String>)
        ensures
            old(self).moused(*final(self), optional(sent), event, pane),
    {
        let point: (u16, u16) = (event.column, event.row);
        let down: bool = match event.kind {
            MouseEventKind::Down(_) => true,
            _ => false,
        };
        if self.diagnostics_export_path.is_some() {
            return None;
        }
        if self.tab_overflow_open {
            if down {
                self.click_in_overflow(point);
                return None;
            }
            return None;
        }
        if self.is_read_only_archive() {
            self.mouse_in_transcript(event);
            return None;
        }
        if self.picker || self.help {
            return None;
        }
        if down && self.click(point) {
            return None;
        }
        self.mouse_in_pane(event, pane)
    }

    /// What pasted text does: a path or a field that is being typed takes it, else the pane does,
    /// unless it takes no input.
    pub open spec fn took_paste(
        self,
        after: App,
        sent: Option<Seq<char>>,
        text: Seq<char>,
        pane: PaneAccess,
    ) -> bool {
        match self.diagnostics_export_path {
            Some(path) => {
                &&& sent is None
                &&& optional(after.diagnostics_export_path) == Some(path@ + text)
                &&& after == (App {
                    diagnostics_export_path: after.diagnostics_export_path,
                    ..self
                })
            },
            None => if self.reads_archive() || self.tab_overflow_open {
                sent is None && after == self
            } else if self.picker {
                &&& sent is None
                &&& if self.host_picker && self.add_host_form {
                    self.filled_field(after, self.field_text() + text)
                } else {
                    self.typed_in_picker(after, self.picker_input@ + text)
                }
            } else if self.nav_focused || self.help {
                sent is None && after == self
            } else {
                match pane.fault() {
                    Some(fault) => sent is None && self.told(after, fault),
                    None => after == self && sent == Some(pasted(text)),
                }
            },
        }
    }

    fn paste_path(&mut self, path: String)
        ensures
            *final(self) == (App { diagnostics_export_path: Some(path), ..*old(self) }),
    {
        self.diagnostics_export_path = Some(path);
    }

    /// Takes pasted text.
    pub fn handle_paste(&mut self, text: &str, pane: PaneAccess) -> (sent: Option<String>)
        requires
            old(self).wf(),
        ensures
            old(self).took_paste(*final(self), optional(sent), text@, pane),
            final(self).wf(),
    {
        if let Some(path) = &self.diagnostics_export_path {
            let path = concat2(path, text);
            self.paste_path(path);
            return None;
        }
        if self.is_read_only_archive() || self.tab_overflow_open {
            return None;
        }
        if self.picker {
            if self.host_picker && self.add_host_form {
                let field: usize = self.add_host_field;
                let line = concat2(self.add_host_fields[field].as_str(), text);
                self.fill_field(line);
                return None;
            }
            let line = concat2(&self.picker_input, text);
            self.type_in_picker(line);
            return None;
        }
        if self.nav_focused || self.help {
            return None;
        }
        if let Some(fault) = pane.find_fault() {
            self.error = Some(fault.to_owned());
            return None;
        }
        Some(bracketed_paste(text))
    }
}

} // verus!
