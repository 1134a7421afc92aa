//! How the client starts: with the first snapshot of the Node on this machine.

use vstd::prelude::*;

use crate::app::App;
use crate::diagnostics::HostInput;
use crate::host_table::{get_host, put_host, standing};
use crate::hosts::{key_on, HostId, HostTransport, ScopedTarget, SessionKey};
use crate::node::NodeUpdate;
use crate::protocol::Snapshot;
use crate::registry::{HostRegistry, SavedView};
use crate::roster::{choices, list_machines, machine_list};
use crate::shell::{fresh_hosts, Runtime, Shell};
use crate::text::optional;

verus! {

/// Takes the first update of the Node on this machine, which has to be a snapshot.
pub fn first_snapshot(update: NodeUpdate) -> (first: Result<(String, Snapshot), String>)
    ensures
        match update {
            NodeUpdate::Snapshot { workspace_id, snapshot, .. } => first == Ok::<
                (String, Snapshot),
                String,
            >((workspace_id, snapshot)),
            NodeUpdate::Error { message, .. } => first == Err::<(String, Snapshot), String>(message),
            _ => first is Err && first->Err_0@
                == "Neta Node actor sent archive data before initial snapshot"@,
        },
{
    match update {
        NodeUpdate::Snapshot { workspace_id, snapshot, .. } => Ok((workspace_id, snapshot)),
        NodeUpdate::Error { message, .. } => Err(message),
        _ => Err("Neta Node actor sent archive data before initial snapshot".to_owned()),
    }
}

/// The session that the client starts with: the leader of the workspace that was opened.
pub fn first_target(snapshot: &Snapshot, workspace_id: &str) -> (first: Result<
    ScopedTarget,
    String,
>)
    ensures
        match snapshot.leader_of(workspace_id@) {
            Some(target) => if target.workspace_id.len() > 0 && target.session_id.len() > 0 {
                &&& first is Ok
                &&& first->Ok_0.key@ == key_on("local"@, target)
                &&& first->Ok_0.target@ == target
            } else {
                first is Err && first->Err_0@ == "session id must not be empty"@
            },
            None => first is Err && first->Err_0@ == "workspace has no local leader"@,
        },
{
    match snapshot.leader_target(workspace_id) {
        Some(target) => match ScopedTarget::new(HostId::local(), target) {
            Ok(scoped) => Ok(scoped),
            Err(error) => Err(error.to_string()),
        },
        None => Err("workspace has no local leader".to_owned()),
    }
}

impl App {
    /// The screen as the client starts: nothing is shown yet but the machines to choose from.
    #[verifier::opaque]
    pub open spec fn fresh(self, workspace_id: String, hosts: Seq<SavedView>) -> bool {
        &&& choices(self.hosts@) == machine_list(hosts)
        &&& exists|blank: App| #[trigger]
            blank.pristine() && self == (App {
                hosts: self.hosts,
                workspace_id: Some(workspace_id),
                ..blank
            })
    }

    fn make_fresh(workspace_id: String, registry: &HostRegistry) -> (app: App)
        ensures
            app.fresh(workspace_id, registry@),
            app.wf(),
    {
        proof {
            reveal(App::fresh);
        }
        let mut app = App::default();
        let ghost blank = app;
        assert(blank.pristine());
        let hosts = list_machines(registry);
        app.set_hosts(hosts);
        app.workspace_id = Some(workspace_id);
        app
    }

    /// What the first target does: it is the one that is shown.
    #[verifier::opaque]
    pub open spec fn shows_first(self, after: App, target: ScopedTarget) -> bool {
        after == (App { active_target: Some(target), ..self })
    }

    fn show_first(&mut self, target: &ScopedTarget)
        requires
            old(self).wf(),
        ensures
            old(self).shows_first(*final(self), *target),
            final(self).wf(),
    {
        proof {
            reveal(App::shows_first);
        }
        self.active_target = Some(target.clone());
    }
}

impl Shell {
    /// How the client starts: this machine is connected and has a pane, and its snapshot is shown.
    pub open spec fn started(
        self,
        workspace_id: String,
        snapshot: Snapshot,
        transport: HostTransport,
        target: ScopedTarget,
        hosts: Seq<SavedView>,
    ) -> bool {
        &&& standing(self.runtimes@) == Map::<Seq<char>, Runtime>::empty().insert(
            "local"@,
            Runtime {
                generation: 0,
                transport,
                fresh: true,
                workspace_id: Some(workspace_id),
            },
        )
        &&& standing(self.snapshots@).dom() == Set::<Seq<char>>::empty().insert("local"@)
        &&& snapshot.same(standing(self.snapshots@)["local"@])
        &&& standing(self.generations@) == Map::<Seq<char>, u64>::empty().insert("local"@, 0)
        &&& self.connecting@.len() == 0
        &&& self.drivers@ == seq![target.key]
        &&& self.stale@.len() == 0
        &&& self.failed@.len() == 0
        &&& self.active == target.key
        &&& self.draft is None
        &&& exists|fresh: App, seen: App, shown: App, tabbed: App| #[trigger]
            fresh.fresh(workspace_id, hosts) && #[trigger] Shell::saw_first(fresh, seen, snapshot)
                && #[trigger] seen.shows_first(shown, target) && #[trigger] shown.opened_tab(
                tabbed,
                target,
                self.snapshot_of(target.key.host_id@),
            ) && tabbed.refreshed_choices(
                self.app,
                self.snapshots@,
                fresh_hosts(self.runtimes@),
            )
    }

    /// What the first snapshot does to the screen.
    #[verifier::opaque]
    pub open spec fn saw_first(before: App, after: App, snapshot: Snapshot) -> bool {
        exists|host_id: HostId|
            host_id@ == "local"@ && #[trigger] before.replaced_snapshot(after, host_id, snapshot)
    }

    fn see_first(app: &mut App, snapshot: Snapshot)
        requires
            old(app).wf(),
        ensures
            Shell::saw_first(*old(app), *final(app), snapshot),
            final(app).wf(),
    {
        proof {
            reveal(Shell::saw_first);
        }
        let local = HostId::local();
        app.replace_snapshot_for_host(&local, snapshot);
    }

    /// Starts the client.
    pub fn start(
        workspace_id: String,
        snapshot: Snapshot,
        transport: HostTransport,
        target: ScopedTarget,
        registry: &HostRegistry,
    ) -> (shell: Shell)
        ensures
            shell.started(workspace_id, snapshot, transport, target, registry@),
            shell.wf(),
    {
        let mut runtimes: Vec<(HostId, Runtime)> = Vec::new();
        let mut snapshots: Vec<(HostId, Snapshot)> = Vec::new();
        let mut generations: Vec<(HostId, u64)> = Vec::new();
        proof {
            assert(standing(runtimes@) =~= Map::<Seq<char>, Runtime>::empty());
            assert(standing(snapshots@) =~= Map::<Seq<char>, Snapshot>::empty());
            assert(standing(generations@) =~= Map::<Seq<char>, u64>::empty());
        }
        let runtime = Runtime {
            generation: 0,
            transport,
            fresh: true,
            workspace_id: Some(workspace_id.clone()),
        };
        put_host(&mut runtimes, HostId::local(), runtime);
        put_host(&mut snapshots, HostId::local(), snapshot.clone());
        put_host(&mut generations, HostId::local(), 0);
        assert(standing(snapshots@).dom() =~= Set::<Seq<char>>::empty().insert("local"@));
        let mut drivers: Vec<SessionKey> = Vec::new();
        drivers.push(target.key.clone());
        let active = target.key.clone();
        let mut app = App::make_fresh(workspace_id, registry);
        let ghost fresh = app;
        Shell::see_first(&mut app, snapshot);
        let ghost seen = app;
        app.show_first(&target);
        let ghost shown = app;
        let known = get_host(&snapshots, &target.key.host_id);
        app.open_tab(target, known);
        let ghost tabbed = app;
        let mut shell = Shell {
            app,
            runtimes,
            snapshots,
            generations,
            connecting: Vec::new(),
            drivers,
            stale: Vec::new(),
            failed: Vec::new(),
            active,
            draft: None,
        };
        shell.refresh();
        shell
    }

    /// What an export of diagnostics takes of a machine: its id, its label, and why it cannot be
    /// asked where it has no fresh snapshot.
    pub open spec fn diagnosed(self, at: int, input: (Seq<char>, Seq<char>, Option<Seq<char>>)) -> bool {
        let host = self.app.hosts@[at];
        &&& input.0 == host.id@
        &&& input.1 == host.label@
        &&& input.2 == (if self.connected(host.id@) && standing(self.runtimes@)[host.id@].fresh {
            None
        } else {
            Some("no fresh snapshot"@)
        })
    }

    /// What an export of diagnostics takes of each machine: its id, its label, and why it cannot be
    /// asked where it has no fresh snapshot.
    pub fn diagnostics_hosts(&self) -> (inputs: Vec<HostInput<()>>)
        ensures
            inputs@.len() == self.app.hosts@.len(),
            forall|i: int|
                0 <= i < inputs@.len() ==> self.diagnosed(
                    i,
                    (
                        (#[trigger] inputs@[i]).id@,
                        inputs@[i].label@,
                        optional(inputs@[i].unavailable),
                    ),
                ),
            forall|i: int|
                0 <= i < inputs@.len() ==> ((#[trigger] inputs@[i]).client is Some)
                    == (inputs@[i].unavailable is None),
    {
        let mut inputs: Vec<HostInput<()>> = Vec::new();
        let mut at: usize = 0;
        while at < self.app.hosts.len()
            invariant
                at <= self.app.hosts@.len(),
                inputs@.len() == at,
                forall|i: int|
                    0 <= i < at ==> self.diagnosed(
                        i,
                        (
                            (#[trigger] inputs@[i]).id@,
                            inputs@[i].label@,
                            optional(inputs@[i].unavailable),
                        ),
                    ),
                forall|i: int|
                    0 <= i < at ==> ((#[trigger] inputs@[i]).client is Some)
                        == (inputs@[i].unavailable is None),
            decreases self.app.hosts@.len() - at,
        {
            let host = &self.app.hosts[at];
            let fresh: bool = match get_host(&self.runtimes, &host.id) {
                Some(runtime) => runtime.fresh,
                None => false,
            };
            let input: HostInput<()> = if fresh {
                HostInput {
                    id: host.id.to_string(),
                    label: host.label.clone(),
                    client: Some(()),
                    unavailable: None,
                }
            } else {
                HostInput {
                    id: host.id.to_string(),
                    label: host.label.clone(),
                    client: None,
                    unavailable: Some("no fresh snapshot".to_owned()),
                }
            };
            inputs.push(input);
            at = at + 1;
        }
        inputs
    }
}

/// Where an export of diagnostics is said to be. One that lacks something is marked.
pub fn export_place(path: String, complete: bool) -> (place: String)
    ensures
        place@ == (if complete {
            path@
        } else {
            path@ + " (partial)"@
        }),
{
    if complete {
        path
    } else {
        crate::text::concat2(&path, " (partial)")
    }
}

} // verus!
