//! The machines of the client: connecting to them, and keeping the list of them.

use vstd::prelude::*;

use crate::app::{
    has_host, next_number, number_after, App, HostFormSubmission, WorkspaceChoice,
    MACHINE_FORM_FIELDS,
};
use crate::host_table::{get_host, put_host, standing};
use crate::hosts::{HostId, KeyView, ScopedTarget, SessionKey};
use crate::node::NodeCommand;
use crate::paths::{absolute, is_absolute, join, joined};
use crate::protocol::Snapshot;
use crate::registry::{host_with, HostRegistry, LauncherConfig, SavedHost, SavedView};
use crate::remote::LauncherView;
use crate::seqs::{find, position};
use crate::sets::{hosts_in, keep_host};
use crate::shell::Shell;
use crate::text::{
    blank, clone_optional, concat2, is_blank, optional, same_text, strip_prefix, texts,
    without_prefix,
};

verus! {

/// The id under which a host is saved. The Node on this machine has none.
pub open spec fn saved_id(host: Seq<char>) -> Option<Seq<char>> {
    without_prefix(host, "saved:"@)
}

/// The host that is saved under a name.
pub open spec fn saved_host(hosts: Seq<SavedView>, host: Seq<char>) -> Option<SavedView> {
    match saved_id(host) {
        Some(id) => find(hosts, host_with(id)),
        None => None,
    }
}

fn find_saved_host(registry: &HostRegistry, host_id: &HostId) -> (host: Option<SavedHost>)
    ensures
        match host {
            Some(host) => saved_host(registry@, host_id@) == Some(host@),
            None => saved_host(registry@, host_id@) is None,
        },
{
    match strip_prefix(host_id.as_str(), "saved:") {
        Some(id) => match registry.get(&id) {
            Some(host) => Some(host.clone()),
            None => None,
        },
        None => None,
    }
}

/// A connection that is to be made.
pub struct ConnectRequest {
    pub host_id: HostId,
    pub generation: u64,
    pub host: SavedHost,
    /// The project that is opened first; empty where there is none.
    pub workspace_root: String,
}

/// A text, or nothing written.
pub open spec fn or_empty(text: Option<Seq<char>>) -> Seq<char> {
    match text {
        Some(text) => text,
        None => seq![],
    }
}

fn text_or_empty(text: &Option<String>) -> (written: String)
    ensures
        written@ == or_empty(optional(*text)),
{
    match text {
        Some(text) => text.clone(),
        None => String::new(),
    }
}

/// The number of the next connection to a machine.
pub open spec fn next_generation(generations: Map<Seq<char>, u64>, host: Seq<char>) -> u64 {
    if generations.contains_key(host) {
        next_number(generations[host])
    } else {
        1
    }
}

pub(crate) fn find_next_generation(generations: &Vec<(HostId, u64)>, host_id: &HostId) -> (next: u64)
    ensures
        next == next_generation(standing(generations@), host_id@),
{
    match get_host(generations, host_id) {
        Some(last) => number_after(*last),
        None => 1,
    }
}

impl App {
    /// A machine that is connected is shown, with the workspace that was open there.
    pub open spec fn shows_machine(self, host_id: HostId, workspace_id: Option<String>) -> App {
        App {
            requested_host: None,
            selected_host: host_id,
            workspace_id: if workspace_id is Some {
                workspace_id
            } else {
                self.workspace_id
            },
            ..self
        }
    }

    fn show_machine(&mut self, host_id: HostId, workspace_id: &Option<String>)
        ensures
            *final(self) == old(self).shows_machine(host_id, *workspace_id),
    {
        let workspace: Option<String> = match workspace_id {
            Some(id) => Some(id.clone()),
            None => clone_optional(&self.workspace_id),
        };
        self.select_host(host_id);
        self.workspace_id = workspace;
    }

    /// What choosing a machine with a fresh snapshot does: it is shown, and its leader is asked for.
    pub open spec fn entered_machine(
        self,
        after: App,
        host_id: HostId,
        workspace_id: Option<String>,
        snapshot: Snapshot,
    ) -> bool {
        exists|copy: Snapshot, mid: App| #[trigger]
            self.shows_machine(host_id, workspace_id).replaced_snapshot(mid, host_id, copy)
                && snapshot.same(copy) && mid.asked_leader(after)
    }

    fn enter_machine(
        &mut self,
        host_id: &HostId,
        workspace_id: &Option<String>,
        snapshot: &Snapshot,
    )
        ensures
            old(self).entered_machine(*final(self), *host_id, *workspace_id, *snapshot),
    {
        let copy = snapshot.clone();
        self.show_machine(host_id.clone(), workspace_id);
        let ghost shown = copy;
        self.replace_snapshot_for_host(host_id, copy);
        let ghost mid = *self;
        assert(old(self).shows_machine(*host_id, *workspace_id).replaced_snapshot(
            mid,
            *host_id,
            shown,
        ));
        self.select_leader();
    }
}

impl Shell {
    /// What turning to a machine does. One with a fresh snapshot is shown. To one that is not
    /// connected a connection is made, unless that is under way. One that is not saved is unknown.
    #[verifier::opaque]
    pub open spec fn turned_to(
        self,
        after: Shell,
        host_id: HostId,
        hosts: Seq<SavedView>,
        request: Option<ConnectRequest>,
    ) -> bool {
        if self.connected(host_id@) {
            let runtime = standing(self.runtimes@)[host_id@];
            &&& request is None
            &&& after == (Shell { app: after.app, ..self })
            &&& if runtime.fresh {
                self.app.entered_machine(
                    after.app,
                    host_id,
                    runtime.workspace_id,
                    standing(self.snapshots@)[host_id@],
                )
            } else {
                after.app == self.app
            }
        } else if hosts_in(self.connecting@).contains(host_id@) {
            request is None && after == self
        } else {
            let generation = next_generation(standing(self.generations@), host_id@);
            &&& standing(after.generations@) == standing(self.generations@).insert(
                host_id@,
                generation,
            )
            &&& after == (Shell {
                app: after.app,
                generations: after.generations,
                connecting: after.connecting,
                ..self
            })
            &&& match saved_host(hosts, host_id@) {
                None => {
                    &&& request is None
                    &&& after.connecting == self.connecting
                    &&& self.app.told(after.app, "unknown machine: "@ + host_id@)
                },
                Some(host) => {
                    &&& hosts_in(after.connecting@) == hosts_in(self.connecting@).insert(host_id@)
                    &&& after.app == (App { requested_host: Some(host_id), ..self.app })
                    &&& request is Some
                    &&& request->0.host_id == host_id
                    &&& request->0.generation == generation
                    &&& request->0.host@ == host
                    &&& request->0.workspace_root@ == or_empty(host.last_remote_workspace_path)
                },
            }
        }
    }

    /// What taking the machine that was chosen does: it is no longer pending.
    #[verifier::opaque]
    pub open spec fn took_chosen(self, after: Shell) -> bool {
        after == (Shell { app: App { pending_host: None, ..self.app }, ..self })
    }

    /// What choosing a machine does: the client turns to it.
    pub open spec fn chose_machine(
        self,
        after: Shell,
        hosts: Seq<SavedView>,
        request: Option<ConnectRequest>,
    ) -> bool {
        match self.app.pending_host {
            None => request is None && self.took_chosen(after),
            Some(host_id) => exists|taken: Shell| #[trigger]
                self.took_chosen(taken) && taken.turned_to(after, host_id, hosts, request),
        }
    }

    fn show_connected(&mut self, host_id: &HostId)
        requires
            old(self).wf(),
            old(self).connected(host_id@),
        ensures
            *final(self) == (Shell { app: final(self).app, ..*old(self) }),
            if standing(old(self).runtimes@)[host_id@].fresh {
                old(self).app.entered_machine(
                    final(self).app,
                    *host_id,
                    standing(old(self).runtimes@)[host_id@].workspace_id,
                    standing(old(self).snapshots@)[host_id@],
                )
            } else {
                final(self).app == old(self).app
            },
            final(self).wf(),
    {
        match (get_host(&self.runtimes, host_id), get_host(&self.snapshots, host_id)) {
            (Some(runtime), Some(snapshot)) => {
                if runtime.fresh {
                    self.app.enter_machine(host_id, &runtime.workspace_id, snapshot);
                    return ;
                }
                return ;
            },
            _ => {
                return ;
            },
        }
    }

    fn start_connecting(&mut self, host_id: HostId, host: Option<SavedHost>) -> (request: Option<
        ConnectRequest,
    >)
        requires
            old(self).wf(),
            !hosts_in(old(self).connecting@).contains(host_id@),
        ensures
            ({
                let generation = next_generation(standing(old(self).generations@), host_id@);
                &&& standing(final(self).generations@) == standing(old(self).generations@).insert(
                    host_id@,
                    generation,
                )
                &&& *final(self) == (Shell {
                    app: final(self).app,
                    generations: final(self).generations,
                    connecting: final(self).connecting,
                    ..*old(self)
                })
                &&& match host {
                    None => {
                        &&& request is None
                        &&& final(self).connecting == old(self).connecting
                        &&& old(self).app.told(final(self).app, "unknown machine: "@ + host_id@)
                    },
                    Some(host) => {
                        &&& hosts_in(final(self).connecting@) == hosts_in(
                            old(self).connecting@,
                        ).insert(host_id@)
                        &&& final(self).app == (App {
                            requested_host: Some(host_id),
                            ..old(self).app
                        })
                        &&& request is Some
                        &&& request->0.host_id == host_id
                        &&& request->0.generation == generation
                        &&& request->0.host@ == host@
                        &&& request->0.workspace_root@ == or_empty(
                            host@.last_remote_workspace_path,
                        )
                    },
                }
            }),
            final(self).wf(),
    {
        let generation: u64 = find_next_generation(&self.generations, &host_id);
        put_host(&mut self.generations, host_id.clone(), generation);
        match host {
            None => {
                let message = concat2("unknown machine: ", host_id.as_str());
                self.app.tell(&message);
                None
            },
            Some(host) => {
                let _ = keep_host(&mut self.connecting, &host_id);
                self.app.requested_host = Some(host_id.clone());
                let workspace_root = text_or_empty(&host.last_remote_workspace_path);
                Some(ConnectRequest { host_id, generation, host, workspace_root })
            },
        }
    }

    fn turn_to(&mut self, host_id: HostId, registry: &HostRegistry) -> (request: Option<
        ConnectRequest,
    >)
        requires
            old(self).wf(),
        ensures
            old(self).turned_to(*final(self), host_id, registry@, request),
            final(self).wf(),
    {
        proof {
            reveal(Shell::turned_to);
        }
        if self.is_connected(&host_id) {
            self.show_connected(&host_id);
            return None;
        }
        if has_host(&self.connecting, &host_id) {
            return None;
        }
        let host = find_saved_host(registry, &host_id);
        self.start_connecting(host_id, host)
    }

    fn take_chosen(&mut self) -> (host_id: Option<HostId>)
        requires
            old(self).wf(),
        ensures
            host_id == old(self).app.pending_host,
            old(self).took_chosen(*final(self)),
            final(self).wf(),
    {
        proof {
            reveal(Shell::took_chosen);
        }
        self.app.take_host()
    }

    /// Turns to the machine that was chosen. A connection that has to be made for it is returned.
    pub fn choose_machine(&mut self, registry: &HostRegistry) -> (request: Option<ConnectRequest>)
        requires
            old(self).wf(),
        ensures
            old(self).chose_machine(*final(self), registry@, request),
            final(self).wf(),
    {
        let host_id = self.take_chosen();
        let ghost taken = *self;
        match host_id {
            Some(host_id) => {
                let request = self.turn_to(host_id, registry);
                assert(taken.turned_to(*self, host_id, registry@, request));
                return request;
            },
            None => {
                return None;
            },
        }
    }
}

/// The tab of a workspace of a machine.
pub open spec fn tab_in(host: Seq<char>, workspace: Seq<char>) -> spec_fn(ScopedTarget) -> bool {
    |tab: ScopedTarget| tab.key.host_id@ == host && tab.target.workspace_id@ == workspace
}

fn find_tab_in(tabs: &Vec<ScopedTarget>, host_id: &HostId, workspace_id: &str) -> (key: Option<
    SessionKey,
>)
    ensures
        match key {
            Some(key) => {
                &&& find(tabs@, tab_in(host_id@, workspace_id@)) is Some
                &&& key == find(tabs@, tab_in(host_id@, workspace_id@))->0.key
            },
            None => find(tabs@, tab_in(host_id@, workspace_id@)) is None,
        },
{
    let ghost wanted = tab_in(host_id@, workspace_id@);
    let mut at: usize = 0;
    while at < tabs.len()
        invariant
            at <= tabs@.len(),
            wanted == tab_in(host_id@, workspace_id@),
            position(tabs@, wanted, at as int) == position(tabs@, wanted, 0),
        decreases tabs@.len() - at,
    {
        if tabs[at].key.host_id == *host_id && same_text(
            &tabs[at].target.workspace_id,
            workspace_id,
        ) {
            assert(wanted(tabs@[at as int]));
            return Some(tabs[at].key.clone());
        }
        at = at + 1;
    }
    None
}

impl App {
    /// What taking the workspace that was chosen does: it is no longer pending.
    #[verifier::opaque]
    pub open spec fn took_workspace(self, after: App) -> bool {
        after == (App { pending_workspace: None, ..self })
    }

    fn take_chosen_workspace(&mut self) -> (choice: Option<WorkspaceChoice>)
        requires
            old(self).wf(),
        ensures
            choice == old(self).pending_workspace,
            old(self).took_workspace(*final(self)),
            final(self).wf(),
    {
        proof {
            reveal(App::took_workspace);
        }
        self.take_workspace_choice()
    }

    /// What showing a machine of which a snapshot is known does; `None` where none is known.
    #[verifier::opaque]
    pub open spec fn showed_known(
        self,
        after: App,
        host_id: HostId,
        snapshot: Option<Snapshot>,
    ) -> bool {
        match snapshot {
            Some(snapshot) => exists|copy: Snapshot|
                snapshot.same(copy) && #[trigger] self.shows_machine(
                    host_id,
                    None,
                ).replaced_snapshot(after, host_id, copy),
            None => after == self,
        }
    }

    fn show_known(&mut self, host_id: &HostId, snapshot: Option<&Snapshot>)
        requires
            old(self).wf(),
        ensures
            old(self).showed_known(
                *final(self),
                *host_id,
                match snapshot {
                    Some(snapshot) => Some(*snapshot),
                    None => None,
                },
            ),
            final(self).wf(),
    {
        proof {
            reveal(App::showed_known);
        }
        if let Some(snapshot) = snapshot {
            let copy = snapshot.clone();
            let ghost shown = copy;
            self.show_machine(host_id.clone(), &None);
            assert(*self == old(self).shows_machine(*host_id, None));
            self.replace_snapshot_for_host(host_id, copy);
            assert(snapshot.same(shown) && old(self).shows_machine(*host_id, None).replaced_snapshot(
                *self,
                *host_id,
                shown,
            ));
            return ;
        }
    }

    /// What turning to a tab of a workspace does: the workspace is shown with what is known of its
    /// machine, and the picker is closed.
    pub open spec fn entered_tab(
        self,
        after: App,
        key: KeyView,
        choice: WorkspaceChoice,
        snapshot: Option<Snapshot>,
    ) -> bool {
        exists|mid: App| #[trigger]
            self.selected_tab(key).showed_known(mid, choice.host_id, snapshot) && after == (App {
                workspace_id: Some(choice.workspace_id),
                picker: false,
                nav_focused: false,
                ..mid
            })
    }

    fn enter_tab(&mut self, key: &SessionKey, choice: WorkspaceChoice, snapshot: Option<&Snapshot>)
        requires
            old(self).wf(),
        ensures
            old(self).entered_tab(
                *final(self),
                key@,
                choice,
                match snapshot {
                    Some(snapshot) => Some(*snapshot),
                    None => None,
                },
            ),
            final(self).wf(),
    {
        self.select_tab(key);
        assert(*self == old(self).selected_tab(key@));
        self.show_known(&choice.host_id, snapshot);
        let ghost mid = *self;
        self.workspace_id = Some(choice.workspace_id);
        self.picker = false;
        self.nav_focused = false;
    }

    /// What choosing a workspace does. A machine that is offline, or is no longer connected, cannot
    /// open one. A workspace with a tab is shown there; any other is opened on its machine.
    #[verifier::opaque]
    pub open spec fn chose_workspace(
        self,
        after: App,
        choice: WorkspaceChoice,
        there: bool,
        snapshot: Option<Snapshot>,
        command: Option<NodeCommand>,
    ) -> bool {
        if !choice.connected {
            &&& command is None
            &&& self.told(
                after,
                choice.host_label@ + " is offline; cached workspace cannot open"@,
            )
        } else if !there {
            &&& command is None
            &&& self.told(after, choice.host_label@ + " disconnected before workspace switch"@)
        } else {
            match find(self.tabs@, tab_in(choice.host_id@, choice.workspace_id@)) {
                Some(tab) => command is None && self.entered_tab(
                    after,
                    tab.key@,
                    choice,
                    snapshot,
                ),
                None => {
                    let request_id = next_number(self.next_open_request);
                    &&& command == Some(
                        NodeCommand::Open {
                            host_id: choice.host_id,
                            request_id,
                            path: choice.path,
                        },
                    )
                    &&& after == (App { next_open_request: request_id, ..self })
                },
            }
        }
    }

    fn choose_workspace(
        &mut self,
        choice: WorkspaceChoice,
        there: bool,
        snapshot: Option<&Snapshot>,
    ) -> (command: Option<NodeCommand>)
        requires
            old(self).wf(),
        ensures
            old(self).chose_workspace(
                *final(self),
                choice,
                there,
                match snapshot {
                    Some(snapshot) => Some(*snapshot),
                    None => None,
                },
                command,
            ),
            final(self).wf(),
    {
        proof {
            reveal(App::chose_workspace);
        }
        if !choice.connected {
            let message = concat2(
                &choice.host_label,
                " is offline; cached workspace cannot open",
            );
            self.tell(&message);
            return None;
        }
        if !there {
            let message = concat2(&choice.host_label, " disconnected before workspace switch");
            self.tell(&message);
            return None;
        }
        if let Some(key) = find_tab_in(&self.tabs, &choice.host_id, &choice.workspace_id) {
            self.enter_tab(&key, choice, snapshot);
            return None;
        }
        let request_id: u64 = self.next_open_request();
        Some(NodeCommand::Open { host_id: choice.host_id, request_id, path: choice.path })
    }

    /// The workspace that was chosen is being opened on its machine.
    pub fn workspace_queued(&mut self, host_id: HostId, request_id: u64)
        ensures
            *final(self) == (App {
                requested_host: Some(host_id),
                pending_open: Some(request_id),
                error: None,
                ..*old(self)
            }),
    {
        self.requested_host = Some(host_id);
        self.begin_open(request_id);
    }
}

impl Shell {
    /// The snapshot that is known of a machine.
    pub open spec fn snapshot_of(self, host: Seq<char>) -> Option<Snapshot> {
        if standing(self.snapshots@).contains_key(host) {
            Some(standing(self.snapshots@)[host])
        } else {
            None
        }
    }

    /// What choosing a workspace does.
    pub open spec fn chose_workspace(self, after: Shell, command: Option<NodeCommand>) -> bool {
        &&& after == (Shell { app: after.app, ..self })
        &&& match self.app.pending_workspace {
            None => command is None && self.app.took_workspace(after.app),
            Some(choice) => exists|taken: App| #[trigger]
                self.app.took_workspace(taken) && taken.chose_workspace(
                    after.app,
                    choice,
                    self.connected(choice.host_id@),
                    self.snapshot_of(choice.host_id@),
                    command,
                ),
        }
    }

    /// Turns to the workspace that was chosen. A command that opens it is returned.
    pub fn choose_workspace(&mut self) -> (command: Option<NodeCommand>)
        requires
            old(self).wf(),
        ensures
            old(self).chose_workspace(*final(self), command),
            final(self).wf(),
    {
        match self.app.take_chosen_workspace() {
            Some(choice) => {
                let ghost taken = self.app;
                let there: bool = self.is_connected(&choice.host_id);
                let snapshot = get_host(&self.snapshots, &choice.host_id);
                return self.app.choose_workspace(choice, there, snapshot);
            },
            None => {
                return None;
            },
        }
    }
}

/// The fields of the form as a saved host fills them.
pub open spec fn form_of(host: SavedView) -> Seq<Seq<char>> {
    seq![
        host.ssh_destination,
        host.display_name,
        host.remote_neta_dir,
        or_empty(host.last_remote_workspace_path),
        or_empty(host.ssh_config),
        match host.remote_launcher {
            Some(launcher) => launcher.executable,
            None => seq![],
        },
    ]
}

fn fill_form(host: &SavedHost) -> (fields: [String; MACHINE_FORM_FIELDS])
    ensures
        texts(fields@) == form_of(host@),
{
    let launcher: String = match &host.remote_launcher {
        Some(launcher) => launcher.executable.clone(),
        None => String::new(),
    };
    let fields = [
        host.ssh_destination.clone(),
        host.display_name.clone(),
        host.remote_neta_dir.clone(),
        text_or_empty(&host.last_remote_workspace_path),
        text_or_empty(&host.ssh_config),
        launcher,
    ];
    assert(texts(fields@) =~= form_of(host@));
    fields
}

impl App {
    /// What editing a machine does: the form is opened with what is saved of it. The Node on this
    /// machine cannot be edited.
    pub open spec fn edited_machine(self, after: App, host_id: HostId, hosts: Seq<SavedView>) -> bool {
        match saved_id(host_id@) {
            None => self.told(after, "Local machine cannot be edited"@),
            Some(id) => match find(hosts, host_with(id)) {
                None => self.told(after, "saved machine no longer exists"@),
                Some(host) => {
                    &&& texts(after.add_host_fields@) == form_of(host)
                    &&& after == (App {
                        add_host_form: true,
                        editing_host: Some(host_id),
                        add_host_fields: after.add_host_fields,
                        add_host_field: 0,
                        error: None,
                        ..self
                    })
                },
            },
        }
    }

    /// Opens the form for a machine.
    pub fn edit_machine(&mut self, host_id: HostId, registry: &HostRegistry)
        requires
            old(self).wf(),
        ensures
            old(self).edited_machine(*final(self), host_id, registry@),
            final(self).wf(),
    {
        let id = match strip_prefix(host_id.as_str(), "saved:") {
            Some(id) => id,
            None => {
                self.tell("Local machine cannot be edited");
                return ;
            },
        };
        match registry.get(&id) {
            Some(host) => {
                let fields = fill_form(host);
                self.open_edit_host(host_id, fields);
                return ;
            },
            None => {
                self.tell("saved machine no longer exists");
                return ;
            },
        }
    }
}

/// What becomes of a filled form.
pub enum FormStep {
    /// Nothing more.
    Done,
    /// The home directory of the machine is to be looked for.
    Discover { request: u64, submission: HostFormSubmission },
    /// The host is to be saved, in the place of the one with its id where it is edited.
    Save { host: SavedHost, editing: bool },
}

/// Something written, where it is not blank.
pub open spec fn unless_blank(text: Seq<char>) -> Option<Seq<char>> {
    if blank(text) {
        None
    } else {
        Some(text)
    }
}

fn written(text: &String) -> (kept: Option<String>)
    ensures
        optional(kept) == unless_blank(text@),
{
    if is_blank(text) {
        None
    } else {
        Some(text.clone())
    }
}

/// The id of the host that a form is about: that of the host that is edited, else a new one.
pub open spec fn form_id(editing: Option<HostId>, new_id: Seq<char>) -> Seq<char> {
    match editing {
        Some(host_id) => match saved_id(host_id@) {
            Some(id) => id,
            None => new_id,
        },
        None => new_id,
    }
}

/// The launcher that was saved of the host that a form is about.
pub open spec fn prior_args(editing: Option<HostId>, hosts: Seq<SavedView>) -> Seq<Seq<char>> {
    match editing {
        Some(host_id) => match saved_host(hosts, host_id@) {
            Some(host) => match host.remote_launcher {
                Some(launcher) => launcher.args,
                None => seq![],
            },
            None => seq![],
        },
        None => seq![],
    }
}

/// The host that a filled form describes. It is shown under its destination where it has no name of
/// its own. The arguments of a launcher have no place in the form: those that were saved stay.
pub open spec fn described(
    fields: Seq<Seq<char>>,
    editing: Option<HostId>,
    hosts: Seq<SavedView>,
    new_id: Seq<char>,
) -> SavedView {
    SavedView {
        id: form_id(editing, new_id),
        display_name: if blank(fields[1]) {
            fields[0]
        } else {
            fields[1]
        },
        ssh_destination: fields[0],
        ssh_config: unless_blank(fields[4]),
        remote_neta_dir: fields[2],
        remote_launcher: if blank(fields[5]) {
            None
        } else {
            Some(LauncherView { executable: fields[5], args: prior_args(editing, hosts) })
        },
        last_remote_workspace_path: unless_blank(fields[3]),
    }
}

fn find_form_id(editing: &Option<HostId>, new_id: &str) -> (id: String)
    ensures
        id@ == form_id(*editing, new_id@),
{
    match editing {
        Some(host_id) => match strip_prefix(host_id.as_str(), "saved:") {
            Some(id) => id,
            None => new_id.to_owned(),
        },
        None => new_id.to_owned(),
    }
}

fn find_prior_args(editing: &Option<HostId>, registry: &HostRegistry) -> (args: Vec<String>)
    ensures
        texts(args@) == prior_args(*editing, registry@),
{
    let none: Vec<String> = Vec::new();
    assert(texts(none@) =~= Seq::<Seq<char>>::empty());
    match editing {
        Some(host_id) => match find_saved_host(registry, host_id) {
            Some(host) => match host.remote_launcher {
                Some(launcher) => launcher.args,
                None => none,
            },
            None => none,
        },
        None => none,
    }
}

fn describe(submission: &HostFormSubmission, registry: &HostRegistry, new_id: &str) -> (host:
    SavedHost)
    ensures
        host@ == described(
            texts(submission.fields@),
            submission.editing,
            registry@,
            new_id@,
        ),
{
    let fields = &submission.fields;
    let ghost views = texts(submission.fields@);
    assert(views[0] == submission.fields@[0]@);
    assert(views[1] == submission.fields@[1]@);
    assert(views[2] == submission.fields@[2]@);
    assert(views[3] == submission.fields@[3]@);
    assert(views[4] == submission.fields@[4]@);
    assert(views[5] == submission.fields@[5]@);
    let display_name: String = if is_blank(&fields[1]) {
        fields[0].clone()
    } else {
        fields[1].clone()
    };
    let remote_launcher: Option<LauncherConfig> = if is_blank(&fields[5]) {
        None
    } else {
        Some(
            LauncherConfig {
                executable: fields[5].clone(),
                args: find_prior_args(&submission.editing, registry),
            },
        )
    };
    SavedHost {
        id: find_form_id(&submission.editing, new_id),
        display_name,
        ssh_destination: fields[0].clone(),
        ssh_config: written(&fields[4]),
        remote_neta_dir: fields[2].clone(),
        remote_launcher,
        last_remote_workspace_path: written(&fields[3]),
    }
}

fn with_home(submission: HostFormSubmission, home: &str) -> (filled: HostFormSubmission)
    ensures
        filled.editing == submission.editing,
        texts(filled.fields@) == texts(submission.fields@).update(2, joined(home@, ".neta"@)),
{
    let mut fields = submission.fields;
    let path = join(home, ".neta");
    fields[2] = path;
    assert(texts(fields@) =~= texts(submission.fields@).update(2, path@));
    HostFormSubmission { editing: submission.editing, fields }
}

/// Whether the paths of a form are absolute, as paths on another machine must be.
pub open spec fn absolute_paths(fields: Seq<Seq<char>>) -> bool {
    absolute(fields[2]) && (blank(fields[3]) || absolute(fields[3]))
}

impl App {
    /// What a filled form does. Where it does not say where Neta is kept, the home directory of the
    /// machine is looked for, unless that is under way. Relative paths are refused. Else the host
    /// that it describes is to be saved.
    pub open spec fn took_form(
        self,
        after: App,
        submission: HostFormSubmission,
        hosts: Seq<SavedView>,
        new_id: Seq<char>,
        step: FormStep,
    ) -> bool {
        let fields = texts(submission.fields@);
        if blank(fields[2]) {
            if self.host_discovery_request is Some {
                step == FormStep::Done && after == self
            } else {
                let request = next_number(self.next_host_discovery_request);
                &&& step == (FormStep::Discover { request, submission })
                &&& after == (App {
                    next_host_discovery_request: request,
                    host_discovery_request: Some(request),
                    ..self
                })
            }
        } else if !absolute_paths(fields) {
            &&& step == FormStep::Done
            &&& self.told(
                after,
                "remote NETA dir and workspace must be absolute remote paths"@,
            )
        } else {
            &&& after == self
            &&& match step {
                FormStep::Save { host, editing } => {
                    &&& host@ == described(fields, submission.editing, hosts, new_id)
                    &&& editing == (submission.editing is Some)
                },
                _ => false,
            }
        }
    }

    /// Takes a filled form.
    pub fn take_form(
        &mut self,
        submission: HostFormSubmission,
        registry: &HostRegistry,
        new_id: &str,
    ) -> (step: FormStep)
        requires
            old(self).wf(),
        ensures
            old(self).took_form(*final(self), submission, registry@, new_id@, step),
            final(self).wf(),
    {
        let ghost views = texts(submission.fields@);
        assert(views[2] == submission.fields@[2]@);
        assert(views[3] == submission.fields@[3]@);
        if is_blank(&submission.fields[2]) {
            match self.begin_host_discovery() {
                Some(request) => {
                    return FormStep::Discover { request, submission };
                },
                None => {
                    return FormStep::Done;
                },
            }
        }
        if !is_absolute(&submission.fields[2]) || (!is_blank(&submission.fields[3])
            && !is_absolute(&submission.fields[3])) {
            self.tell("remote NETA dir and workspace must be absolute remote paths");
            return FormStep::Done;
        }
        let host = describe(&submission, registry, new_id);
        FormStep::Save { host, editing: submission.editing.is_some() }
    }

    /// What the end of a search for a home directory does: none is under way any more.
    #[verifier::opaque]
    pub open spec fn ended_search(self, after: App) -> bool {
        after == (App { host_discovery_request: None, ..self })
    }

    fn end_search(&mut self, request: u64) -> (awaited: bool)
        requires
            old(self).wf(),
        ensures
            awaited == (old(self).add_host_form && old(self).host_discovery_request == Some(
                request,
            )),
            awaited ==> old(self).ended_search(*final(self)),
            !awaited ==> *final(self) == *old(self),
            final(self).wf(),
    {
        proof {
            reveal(App::ended_search);
        }
        self.finish_host_discovery(request)
    }

    /// What a home directory that was found does: it is filled in, and the form is taken once more.
    #[verifier::opaque]
    pub open spec fn filled_home(
        self,
        after: App,
        submission: HostFormSubmission,
        home: Seq<char>,
    ) -> bool {
        &&& after.pending_add_host is Some
        &&& after.pending_add_host->0.editing == submission.editing
        &&& texts(after.pending_add_host->0.fields@) == texts(submission.fields@).update(
            2,
            joined(home, ".neta"@),
        )
        &&& after == (App { pending_add_host: after.pending_add_host, ..self })
    }

    fn fill_home(&mut self, submission: HostFormSubmission, home: &str)
        requires
            old(self).wf(),
        ensures
            old(self).filled_home(*final(self), submission, home@),
            final(self).wf(),
    {
        proof {
            reveal(App::filled_home);
        }
        self.pending_add_host = Some(with_home(submission, home));
    }

    /// What a home directory that was not found does: the form is shown again.
    #[verifier::opaque]
    pub open spec fn missed_home(
        self,
        after: App,
        submission: HostFormSubmission,
        error: Seq<char>,
    ) -> bool {
        &&& optional(after.error) == Some("could not discover remote home: "@ + error)
        &&& after == (App {
            add_host_form: true,
            editing_host: submission.editing,
            add_host_fields: submission.fields,
            error: after.error,
            ..self
        })
    }

    fn miss_home(&mut self, submission: HostFormSubmission, error: &str)
        requires
            old(self).wf(),
        ensures
            old(self).missed_home(*final(self), submission, error@),
            final(self).wf(),
    {
        proof {
            reveal(App::missed_home);
        }
        let message = concat2("could not discover remote home: ", error);
        self.add_host_form = true;
        self.editing_host = submission.editing;
        self.add_host_fields = submission.fields;
        self.error = Some(message);
    }

    /// What the answer to a search for a home directory does. One that is not awaited, or that comes
    /// when the form is closed, does nothing.
    pub open spec fn found_home(
        self,
        after: App,
        request: u64,
        submission: HostFormSubmission,
        result: Result<String, String>,
    ) -> bool {
        if !self.add_host_form || self.host_discovery_request != Some(request) {
            after == self
        } else {
            exists|mid: App| #[trigger]
                self.ended_search(mid) && match result {
                    Ok(home) => mid.filled_home(after, submission, home@),
                    Err(error) => mid.missed_home(after, submission, error@),
                }
        }
    }

    /// Takes the answer to a search for a home directory in.
    pub fn find_home(
        &mut self,
        request: u64,
        submission: HostFormSubmission,
        result: Result<String, String>,
    )
        requires
            old(self).wf(),
        ensures
            old(self).found_home(*final(self), request, submission, result),
            final(self).wf(),
    {
        if !self.end_search(request) {
            return ;
        }
        let ghost mid = *self;
        match result {
            Ok(home) => {
                self.fill_home(submission, &home);
                return ;
            },
            Err(error) => {
                self.miss_home(submission, &error);
                return ;
            },
        }
    }
}

} // verus!
