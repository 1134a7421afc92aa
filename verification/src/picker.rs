//! The pickers for machines and workspaces.

use vstd::prelude::*;
use vstd::string::*;

use crate::app::{
    all_blank, blank_fields, move_within, moved, next_number, number_after, App, HostChoice,
    HostFormSubmission, WorkspaceChoice, MACHINE_FORM_FIELDS,
};
use crate::hosts::HostId;
use crate::seqs::{position, position_is_first};
use crate::text::{contains, holds, lower_case, same_text, to_lower_case};

verus! {

/// Whether a workspace answers to what was typed: its name, its path or its machine holds it,
/// whatever the case.
pub open spec fn answers(choice: WorkspaceChoice, query: Seq<char>) -> bool {
    ||| holds(lower_case(choice.name@), lower_case(query))
    ||| holds(lower_case(choice.path@), lower_case(query))
    ||| holds(lower_case(choice.host_label@), lower_case(query))
}

/// The workspaces that answer.
pub open spec fn answering(query: Seq<char>) -> spec_fn(WorkspaceChoice) -> bool {
    |choice: WorkspaceChoice| answers(choice, query)
}

/// The workspace of a machine.
pub open spec fn same_workspace(host: Seq<char>, workspace: Seq<char>) -> spec_fn(
    WorkspaceChoice,
) -> bool {
    |choice: WorkspaceChoice| choice.host_id@ == host && choice.workspace_id@ == workspace
}

/// The place of the last element, or the first place of an empty list.
pub open spec fn last_place(length: nat) -> usize {
    if length == 0 {
        0
    } else {
        (length - 1) as usize
    }
}

/// The workspaces that the picker offers.
pub open spec fn offered(choices: Seq<WorkspaceChoice>, path_mode: bool, query: Seq<char>) -> Seq<
    WorkspaceChoice,
> {
    if path_mode {
        seq![]
    } else {
        choices.filter(answering(query))
    }
}

/// Where the cursor goes when the list behind it changes: with the workspace that it stood on, else
/// as near to its place as the new list allows.
pub open spec fn followed_cursor(
    before: Seq<WorkspaceChoice>,
    after: Seq<WorkspaceChoice>,
    cursor: usize,
) -> usize {
    let clamped = if cursor < last_place(after.len()) {
        cursor
    } else {
        last_place(after.len())
    };
    if cursor < before.len() {
        let wanted = same_workspace(
            before[cursor as int].host_id@,
            before[cursor as int].workspace_id@,
        );
        let place = position(after, wanted, 0);
        if place < after.len() {
            place as usize
        } else {
            clamped
        }
    } else {
        clamped
    }
}

impl App {
    /// The workspaces that the picker offers.
    pub open spec fn offers(self) -> Seq<WorkspaceChoice> {
        offered(self.workspace_choices@, self.picker_path_mode, self.picker_input@)
    }

    /// The places, in the list of all workspaces, of those that the picker offers.
    pub fn filtered_workspaces(&self) -> (places: Vec<usize>)
        ensures
            places@.len() == self.offers().len(),
            forall|i: int|
                0 <= i < places@.len() ==> (#[trigger] places@[i]) < self.workspace_choices@.len()
                    && self.workspace_choices@[places@[i] as int] == self.offers()[i],
    {
        let mut places: Vec<usize> = Vec::new();
        if self.picker_path_mode {
            return places;
        }
        let query = to_lower_case(&self.picker_input);
        let ghost wanted = answering(self.picker_input@);
        let mut at: usize = 0;
        while at < self.workspace_choices.len()
            invariant
                at <= self.workspace_choices@.len(),
                query@ == lower_case(self.picker_input@),
                wanted == answering(self.picker_input@),
                places@.len() == self.workspace_choices@.take(at as int).filter(wanted).len(),
                forall|i: int|
                    0 <= i < places@.len() ==> (#[trigger] places@[i]) < at
                        && self.workspace_choices@[places@[i] as int]
                        == self.workspace_choices@.take(at as int).filter(wanted)[i],
            decreases self.workspace_choices@.len() - at,
        {
            let choice = &self.workspace_choices[at];
            let ghost now = self.workspace_choices@.take(at + 1);
            assert(now.drop_last() =~= self.workspace_choices@.take(at as int));
            assert(now.last() == *choice);
            proof {
                reveal(Seq::filter);
            }
            if contains(&to_lower_case(&choice.name), &query) || contains(
                &to_lower_case(&choice.path),
                &query,
            ) || contains(&to_lower_case(&choice.host_label), &query) {
                places.push(at);
            }
            at = at + 1;
        }
        assert(self.workspace_choices@.take(at as int) =~= self.workspace_choices@);
        places
    }

    /// Offers machines to choose from.
    pub fn set_hosts(&mut self, hosts: Vec<HostChoice>)
        ensures
            *final(self) == (App { hosts, ..*old(self) }),
    {
        self.hosts = hosts;
    }

    /// The picker for machines is open.
    pub open spec fn opened_machines(self) -> App {
        App { host_picker: true, picker: true, picker_cursor: 0, error: None, ..self }
    }

    /// Opens the picker for machines.
    pub fn open_host_picker(&mut self)
        ensures
            *final(self) == old(self).opened_machines(),
    {
        self.host_picker = true;
        self.picker = true;
        self.picker_cursor = 0;
        self.error = None;
    }

    /// Takes the machine that was chosen.
    pub fn take_host(&mut self) -> (host: Option<HostId>)
        ensures
            host == old(self).pending_host,
            *final(self) == (App { pending_host: None, ..*old(self) }),
    {
        self.pending_host.take()
    }

    /// Takes the form that was filled.
    pub fn take_add_host(&mut self) -> (form: Option<HostFormSubmission>)
        ensures
            form == old(self).pending_add_host,
            *final(self) == (App { pending_add_host: None, ..*old(self) }),
    {
        self.pending_add_host.take()
    }

    /// The machine at the cursor, unless it is this one.
    pub open spec fn saved_host_at_cursor(self) -> Option<HostChoice> {
        if self.picker_cursor < self.hosts@.len() && self.hosts@[self.picker_cursor as int].id@
            != "local"@ {
            Some(self.hosts@[self.picker_cursor as int])
        } else {
            None
        }
    }

    fn selected_saved_host(&self) -> (host: Option<HostChoice>)
        ensures
            host == self.saved_host_at_cursor(),
    {
        if self.picker_cursor < self.hosts.len() {
            let host = &self.hosts[self.picker_cursor];
            if host.id != HostId::local() {
                return Some(host.clone());
            }
        }
        None
    }

    /// The machine at the cursor is to be edited. This machine cannot be.
    pub open spec fn asked_edit(self) -> App {
        match self.saved_host_at_cursor() {
            Some(host) => App { pending_edit_host: Some(host.id), ..self },
            None => self,
        }
    }

    /// Asks to edit the machine at the cursor. This machine cannot be edited.
    pub fn request_edit_selected_host(&mut self)
        ensures
            *final(self) == old(self).asked_edit(),
    {
        if let Some(host) = self.selected_saved_host() {
            self.pending_edit_host = Some(host.id);
        }
    }

    /// Takes the machine that is to be edited.
    pub fn take_edit_host(&mut self) -> (host: Option<HostId>)
        ensures
            host == old(self).pending_edit_host,
            *final(self) == (App { pending_edit_host: None, ..*old(self) }),
    {
        self.pending_edit_host.take()
    }

    /// Opens the form with what is known of a machine.
    pub fn open_edit_host(&mut self, host_id: HostId, fields: [String; MACHINE_FORM_FIELDS])
        ensures
            *final(self) == (App {
                add_host_form: true,
                editing_host: Some(host_id),
                add_host_fields: fields,
                add_host_field: 0,
                error: None,
                ..*old(self)
            }),
    {
        self.add_host_form = true;
        self.editing_host = Some(host_id);
        self.add_host_fields = fields;
        self.add_host_field = 0;
        self.error = None;
    }

    /// It is asked whether to forget the machine at the cursor. This machine cannot be forgotten.
    pub open spec fn asked_remove(self) -> App {
        match self.saved_host_at_cursor() {
            Some(host) => App { remove_host_confirmation: Some(host), ..self },
            None => self,
        }
    }

    /// Asks whether to forget the machine at the cursor. This machine cannot be forgotten.
    pub fn request_remove_selected_host(&mut self)
        ensures
            *final(self) == old(self).asked_remove(),
    {
        if let Some(host) = self.selected_saved_host() {
            self.remove_host_confirmation = Some(host);
        }
    }

    /// The machine of which it is asked whether to forget it.
    pub fn remove_confirmation(&self) -> (host: Option<&HostChoice>)
        ensures
            match host {
                Some(host) => self.remove_host_confirmation == Some(*host),
                None => self.remove_host_confirmation is None,
            },
    {
        match &self.remove_host_confirmation {
            Some(host) => Some(host),
            None => None,
        }
    }

    /// The machine of which it was asked is to be forgotten.
    pub open spec fn confirmed_remove(self) -> App {
        App {
            pending_remove_host: match self.remove_host_confirmation {
                Some(host) => Some(host.id),
                None => None,
            },
            remove_host_confirmation: None,
            ..self
        }
    }

    /// The machine is to be forgotten.
    pub fn confirm_remove_host(&mut self)
        ensures
            *final(self) == old(self).confirmed_remove(),
    {
        self.pending_remove_host = match self.remove_host_confirmation.take() {
            Some(host) => Some(host.id),
            None => None,
        };
    }

    /// The machine is not to be forgotten.
    pub fn cancel_remove_host(&mut self)
        ensures
            *final(self) == (App { remove_host_confirmation: None, ..*old(self) }),
    {
        self.remove_host_confirmation = None;
    }

    /// Takes the machine that is to be forgotten.
    pub fn take_remove_host(&mut self) -> (host: Option<HostId>)
        ensures
            host == old(self).pending_remove_host,
            *final(self) == (App { pending_remove_host: None, ..*old(self) }),
    {
        self.pending_remove_host.take()
    }

    /// What opening an empty form for a machine does.
    pub open spec fn opened_form(self, after: App) -> bool {
        &&& all_blank(after.add_host_fields@)
        &&& after == (App {
            add_host_form: true,
            editing_host: None,
            add_host_fields: after.add_host_fields,
            add_host_field: 0,
            error: None,
            ..self
        })
    }

    /// Opens an empty form for a machine.
    pub fn open_add_host(&mut self)
        ensures
            old(self).opened_form(*final(self)),
    {
        self.add_host_form = true;
        self.editing_host = None;
        self.add_host_fields = blank_fields();
        self.add_host_field = 0;
        self.error = None;
    }

    /// Starts to look for the home directory of a machine, unless that is under way.
    pub fn begin_host_discovery(&mut self) -> (request: Option<u64>)
        ensures
            match request {
                Some(request) => {
                    &&& old(self).host_discovery_request is None
                    &&& request == next_number(old(self).next_host_discovery_request)
                    &&& *final(self) == (App {
                        next_host_discovery_request: request,
                        host_discovery_request: Some(request),
                        ..*old(self)
                    })
                },
                None => old(self).host_discovery_request is Some && *final(self) == *old(self),
            },
    {
        if self.host_discovery_request.is_some() {
            return None;
        }
        self.next_host_discovery_request = number_after(self.next_host_discovery_request);
        self.host_discovery_request = Some(self.next_host_discovery_request);
        Some(self.next_host_discovery_request)
    }

    /// The home directory was found, or was not. Only the answer to the request that is under way
    /// counts, and only while the form is open.
    pub fn finish_host_discovery(&mut self, request: u64) -> (current: bool)
        ensures
            current == (old(self).add_host_form && old(self).host_discovery_request == Some(
                request,
            )),
            *final(self) == (if current {
                App { host_discovery_request: None, ..*old(self) }
            } else {
                *old(self)
            }),
    {
        let waiting: bool = match self.host_discovery_request {
            Some(pending) => pending == request,
            None => false,
        };
        if self.add_host_form && waiting {
            self.host_discovery_request = None;
            true
        } else {
            false
        }
    }

    /// The search for the home directory is given up.
    pub fn cancel_host_discovery(&mut self)
        ensures
            *final(self) == (App {
                cancelled_host_discovery: old(self).host_discovery_request,
                host_discovery_request: None,
                ..*old(self)
            }),
    {
        self.cancelled_host_discovery = self.host_discovery_request.take();
    }

    /// Takes the search that was given up.
    pub fn take_cancelled_host_discovery(&mut self) -> (request: Option<u64>)
        ensures
            request == old(self).cancelled_host_discovery,
            *final(self) == (App { cancelled_host_discovery: None, ..*old(self) }),
    {
        self.cancelled_host_discovery.take()
    }

    /// Chooses a machine.
    pub fn select_host(&mut self, host: HostId)
        ensures
            *final(self) == (App { requested_host: None, selected_host: host, ..*old(self) }),
    {
        self.requested_host = None;
        self.selected_host = host;
    }

    /// Says which machines have a fresh snapshot.
    pub fn set_live_hosts(&mut self, hosts: Vec<HostId>)
        ensures
            *final(self) == (App { live_hosts: hosts, ..*old(self) }),
    {
        self.live_hosts = hosts;
    }

    /// Offers workspaces to choose from. The cursor stays on the workspace that it stands on.
    pub fn set_workspace_choices(&mut self, choices: Vec<WorkspaceChoice>)
        ensures
            *final(self) == (App {
                workspace_choices: choices,
                picker_cursor: followed_cursor(
                    old(self).offers(),
                    offered(choices@, old(self).picker_path_mode, old(self).picker_input@),
                    old(self).picker_cursor,
                ),
                ..*old(self)
            }),
    {
        let before = self.filtered_workspaces();
        let cursor: usize = self.picker_cursor;
        let selected: Option<(HostId, String)> = if cursor < before.len() {
            let choice = &self.workspace_choices[before[cursor]];
            Some((choice.host_id.clone(), choice.workspace_id.clone()))
        } else {
            None
        };
        self.workspace_choices = choices;
        let after = self.filtered_workspaces();
        let last: usize = if after.len() == 0 {
            0
        } else {
            after.len() - 1
        };
        let clamped: usize = if cursor < last {
            cursor
        } else {
            last
        };
        self.picker_cursor = match selected {
            Some((host_id, workspace_id)) => match self.find_offer(&host_id, &workspace_id) {
                Some(at) => at,
                None => clamped,
            },
            None => clamped,
        };
    }

    fn find_offer(&self, host_id: &HostId, workspace_id: &str) -> (found: Option<usize>)
        ensures
            ({
                let place = position(self.offers(), same_workspace(host_id@, workspace_id@), 0);
                match found {
                    Some(at) => place == at && at < self.offers().len(),
                    None => place >= self.offers().len(),
                }
            }),
    {
        let places = self.filtered_workspaces();
        let ghost offers = self.offers();
        let ghost wanted = same_workspace(host_id@, workspace_id@);
        let mut at: usize = 0;
        while at < places.len()
            invariant
                at <= places@.len() == offers.len(),
                offers == self.offers(),
                forall|i: int|
                    0 <= i < places@.len() ==> (#[trigger] places@[i])
                        < self.workspace_choices@.len()
                        && self.workspace_choices@[places@[i] as int] == offers[i],
                wanted == same_workspace(host_id@, workspace_id@),
                position(offers, wanted, at as int) == position(offers, wanted, 0),
            decreases places@.len() - at,
        {
            let choice = &self.workspace_choices[places[at]];
            assert(*choice == offers[at as int]);
            if choice.host_id == *host_id && same_text(&choice.workspace_id, workspace_id) {
                return Some(at);
            }
            at = at + 1;
        }
        None
    }

    /// The cursor of the picker moved.
    pub open spec fn moved_picker(self, delta: isize) -> App {
        if self.host_picker {
            App {
                picker_cursor: moved(self.picker_cursor, delta, self.hosts@.len() as usize),
                ..self
            }
        } else if self.picker_path_mode {
            self
        } else {
            App {
                picker_cursor: moved(self.picker_cursor, delta, last_place(self.offers().len())),
                ..self
            }
        }
    }

    /// Moves the cursor of the picker.
    pub fn picker_move(&mut self, delta: isize)
        ensures
            *final(self) == old(self).moved_picker(delta),
    {
        if self.host_picker {
            self.picker_cursor = move_within(self.picker_cursor, delta, self.hosts.len());
            return;
        }
        if self.picker_path_mode {
            return;
        }
        let count: usize = self.filtered_workspaces().len();
        let last: usize = if count == 0 {
            0
        } else {
            count - 1
        };
        self.picker_cursor = move_within(self.picker_cursor, delta, last);
    }

    /// The workspace at the cursor is chosen.
    pub open spec fn chosen_workspace(self) -> App {
        if self.picker_path_mode {
            self
        } else {
            App {
                pending_workspace: if self.picker_cursor < self.offers().len() {
                    Some(self.offers()[self.picker_cursor as int])
                } else {
                    None
                },
                ..self
            }
        }
    }

    /// Chooses the workspace at the cursor.
    pub fn select_workspace_choice(&mut self)
        ensures
            *final(self) == old(self).chosen_workspace(),
    {
        if self.picker_path_mode {
            return;
        }
        let places = self.filtered_workspaces();
        self.pending_workspace = if self.picker_cursor < places.len() {
            Some(self.workspace_choices[places[self.picker_cursor]].clone())
        } else {
            None
        };
    }

    /// Takes the workspace that was chosen.
    pub fn take_workspace_choice(&mut self) -> (choice: Option<WorkspaceChoice>)
        ensures
            choice == old(self).pending_workspace,
            *final(self) == (App { pending_workspace: None, ..*old(self) }),
    {
        self.pending_workspace.take()
    }
}

/// When the list of workspaces changes, the cursor stays on the workspace that it stood on, as long
/// as that is still offered.
pub proof fn the_cursor_follows_its_workspace(
    before: Seq<WorkspaceChoice>,
    after: Seq<WorkspaceChoice>,
    cursor: usize,
)
    requires
        cursor < before.len(),
        after.len() <= usize::MAX,
        exists|i: int|
            0 <= i < after.len() && (#[trigger] after[i]).host_id@
                == before[cursor as int].host_id@ && after[i].workspace_id@
                == before[cursor as int].workspace_id@,
    ensures
        ({
            let place = followed_cursor(before, after, cursor);
            &&& place < after.len()
            &&& after[place as int].host_id@ == before[cursor as int].host_id@
            &&& after[place as int].workspace_id@ == before[cursor as int].workspace_id@
        }),
{
    let wanted = same_workspace(before[cursor as int].host_id@, before[cursor as int].workspace_id@);
    position_is_first(after, wanted, 0);
    let i = choose|i: int|
        0 <= i < after.len() && (#[trigger] after[i]).host_id@ == before[cursor as int].host_id@
            && after[i].workspace_id@ == before[cursor as int].workspace_id@;
    assert(wanted(after[i]));
}

} // verus!
