//! The list of machines after one was saved or forgotten.

use vstd::prelude::*;

use crate::app::{all_blank, blank_fields, App, HostChoice};
use crate::host_table::{drop_host, put_host, standing};
use crate::hosts::{HostId, SessionKey};
use crate::machines::{find_next_generation, next_generation};
use crate::registry::{saved, HostRegistry, SavedHost, SavedView};
use crate::seqs::{find, position};
use crate::sets::{hosts_in, key_on_host, keys_in, keys_on, leave_host, leave_keys_of_host};
use crate::shell::Shell;
use crate::text::{optional, strip_prefix};

verus! {

/// The machines that can be chosen, by id and label.
pub open spec fn choices(hosts: Seq<HostChoice>) -> Seq<(Seq<char>, Seq<char>)> {
    hosts.map_values(|host: HostChoice| (host.id@, host.label@))
}

/// What a saved host is listed as.
pub open spec fn listed(host: SavedView) -> (Seq<char>, Seq<char>) {
    ("saved:"@ + host.id, host.display_name)
}

/// The machines that can be chosen: this one, and those that are saved, in their order.
pub open spec fn machine_list(hosts: Seq<SavedView>) -> Seq<(Seq<char>, Seq<char>)> {
    seq![("local"@, "Local machine"@)] + hosts.map_values(|host: SavedView| listed(host))
}

fn list_host(host: &SavedHost) -> (choice: HostChoice)
    ensures
        (choice.id@, choice.label@) == listed(host@),
{
    let label: String = host.display_name.clone();
    match HostId::saved(&host.id) {
        Ok(id) => HostChoice { id, label },
        Err(_) => HostChoice { id: HostId::local(), label },
    }
}

/// Lists the machines that can be chosen.
pub fn list_machines(registry: &HostRegistry) -> (hosts: Vec<HostChoice>)
    ensures
        choices(hosts@) == machine_list(registry@),
{
    let mut hosts: Vec<HostChoice> = Vec::new();
    hosts.push(HostChoice { id: HostId::local(), label: "Local machine".to_owned() });
    let list = registry.hosts();
    let ghost views = registry@;
    assert(saved(list@) == views);
    assert(choices(hosts@) =~= machine_list(views.take(0)));
    let mut at: usize = 0;
    while at < list.len()
        invariant
            at <= list@.len(),
            saved(list@) == views,
            views.len() == list@.len(),
            choices(hosts@) == machine_list(views.take(at as int)),
        decreases list@.len() - at,
    {
        assert(views[at as int] == list@[at as int]@);
        let choice = list_host(&list[at]);
        let ghost before = hosts@;
        hosts.push(choice);
        assert(choices(hosts@) =~= choices(before).push((choice.id@, choice.label@)));
        assert(machine_list(views.take(at + 1)) =~= machine_list(views.take(at as int)).push(
            listed(views[at as int]),
        ));
        at = at + 1;
    }
    assert(views.take(at as int) =~= views);
    hosts
}

fn find_key_on(keys: &Vec<SessionKey>, host_id: &HostId) -> (key: Option<SessionKey>)
    ensures
        key == find(keys@, key_on_host(host_id@)),
{
    let ghost wanted = key_on_host(host_id@);
    let mut at: usize = 0;
    while at < keys.len()
        invariant
            at <= keys@.len(),
            wanted == key_on_host(host_id@),
            position(keys@, wanted, at as int) == position(keys@, wanted, 0),
        decreases keys@.len() - at,
    {
        if keys[at].host_id == *host_id {
            return Some(keys[at].clone());
        }
        at = at + 1;
    }
    None
}

impl App {
    /// What the form does once its machine is saved: it is closed and emptied, and the cursor stands
    /// on the last machine of the list.
    pub open spec fn ended_form(self, after: App, hosts: Seq<SavedView>) -> bool {
        &&& choices(after.hosts@) == machine_list(hosts)
        &&& all_blank(after.add_host_fields@)
        &&& after == (App {
            hosts: after.hosts,
            add_host_form: false,
            picker_cursor: (after.hosts@.len() - 1) as usize,
            add_host_fields: after.add_host_fields,
            add_host_field: 0,
            editing_host: None,
            ..self
        })
    }

    fn end_form(&mut self, registry: &HostRegistry)
        requires
            old(self).wf(),
        ensures
            old(self).ended_form(*final(self), registry@),
            final(self).wf(),
    {
        let hosts = list_machines(registry);
        assert(choices(hosts@).len() == hosts@.len());
        let last: usize = hosts.len() - 1;
        self.set_hosts(hosts);
        self.add_host_form = false;
        self.picker_cursor = last;
        self.add_host_fields = blank_fields();
        self.add_host_field = 0;
        self.editing_host = None;
    }

    /// What forgetting a machine tells.
    pub open spec fn told_forgotten(self, after: App, hosts: Seq<SavedView>) -> bool {
        &&& choices(after.hosts@) == machine_list(hosts)
        &&& optional(after.error) == Some(
            "Forgot saved SSH connection; remote files and service were not changed"@,
        )
        &&& after == (App { hosts: after.hosts, error: after.error, ..self })
    }

    fn tell_forgotten(&mut self, registry: &HostRegistry)
        requires
            old(self).wf(),
        ensures
            old(self).told_forgotten(*final(self), registry@),
            final(self).wf(),
    {
        let hosts = list_machines(registry);
        self.set_hosts(hosts);
        self.error = Some(
            "Forgot saved SSH connection; remote files and service were not changed".to_owned(),
        );
    }
}

impl Shell {
    /// What dropping all that is bound to a machine does: its connection, its snapshot and its
    /// panes are gone, and what a connection that is still being made brings is not awaited. Where
    /// one of those panes was shown, a pane of this machine takes its place.
    pub open spec fn dropped_machine(self, after: Shell, host_id: HostId) -> bool {
        let shown = self.active.host_id@ == host_id@;
        let local = find(after.drivers@, key_on_host("local"@));
        &&& standing(after.generations@) == standing(self.generations@).insert(
            host_id@,
            next_generation(standing(self.generations@), host_id@),
        )
        &&& standing(after.runtimes@) == standing(self.runtimes@).remove(host_id@)
        &&& standing(after.snapshots@) == standing(self.snapshots@).remove(host_id@)
        &&& hosts_in(after.connecting@) == hosts_in(self.connecting@).remove(host_id@)
        &&& keys_in(after.drivers@) == keys_in(self.drivers@).difference(keys_on(host_id@))
        &&& keys_in(after.stale@) == keys_in(self.stale@).difference(keys_on(host_id@))
        &&& keys_in(after.failed@) == keys_in(self.failed@).difference(keys_on(host_id@))
        &&& after.draft == self.draft
        &&& after.active == (if shown && local is Some {
            local->0
        } else {
            self.active
        })
        &&& exists|marked: App| #[trigger]
            self.app.went_offline(marked, host_id@, true) && after.app == (if shown
                && local is Some {
                marked.selected_tab(local->0@)
            } else {
                marked
            })
    }

    fn drop_tables(&mut self, host_id: &HostId)
        requires
            old(self).wf(),
        ensures
            standing(final(self).generations@) == standing(old(self).generations@).insert(
                host_id@,
                next_generation(standing(old(self).generations@), host_id@),
            ),
            standing(final(self).runtimes@) == standing(old(self).runtimes@).remove(host_id@),
            standing(final(self).snapshots@) == standing(old(self).snapshots@).remove(host_id@),
            hosts_in(final(self).connecting@) == hosts_in(old(self).connecting@).remove(host_id@),
            keys_in(final(self).drivers@) == keys_in(old(self).drivers@).difference(
                keys_on(host_id@),
            ),
            keys_in(final(self).stale@) == keys_in(old(self).stale@).difference(keys_on(host_id@)),
            keys_in(final(self).failed@) == keys_in(old(self).failed@).difference(
                keys_on(host_id@),
            ),
            *final(self) == (Shell {
                generations: final(self).generations,
                runtimes: final(self).runtimes,
                snapshots: final(self).snapshots,
                connecting: final(self).connecting,
                drivers: final(self).drivers,
                stale: final(self).stale,
                failed: final(self).failed,
                ..*old(self)
            }),
            final(self).wf(),
    {
        let generation: u64 = find_next_generation(&self.generations, host_id);
        put_host(&mut self.generations, host_id.clone(), generation);
        drop_host(&mut self.runtimes, host_id);
        drop_host(&mut self.snapshots, host_id);
        leave_host(&mut self.connecting, host_id);
        leave_keys_of_host(&mut self.drivers, host_id);
        leave_keys_of_host(&mut self.stale, host_id);
        leave_keys_of_host(&mut self.failed, host_id);
    }

    /// Whether a pane can be shown in the place of those of a machine that was dropped.
    pub open spec fn keeps_pane(self, after: Shell, host_id: HostId) -> bool {
        self.active.host_id@ != host_id@ || find(after.drivers@, key_on_host("local"@)) is Some
    }

    /// Drops all that is bound to a machine. The answer is whether there is a pane to show.
    pub fn drop_machine(&mut self, host_id: &HostId) -> (kept: bool)
        requires
            old(self).wf(),
        ensures
            old(self).dropped_machine(*final(self), *host_id),
            kept == old(self).keeps_pane(*final(self), *host_id),
            final(self).wf(),
    {
        self.drop_tables(host_id);
        self.app.mark_tabs_offline(host_id);
        let ghost marked = self.app;
        assert(old(self).app.went_offline(marked, host_id@, true));
        if self.active.host_id != *host_id {
            return true;
        }
        match find_key_on(&self.drivers, &HostId::local()) {
            Some(local) => {
                self.app.select_tab(&local);
                self.active = local;
                return true;
            },
            None => {
                return false;
            },
        }
    }

    /// What saving a machine does. One that was edited keeps its id, so all that is bound to what
    /// it was before is dropped.
    pub open spec fn saved_machine(
        self,
        after: Shell,
        host_id: HostId,
        editing: bool,
        hosts: Seq<SavedView>,
        kept: bool,
    ) -> bool {
        if !editing {
            &&& kept
            &&& self.app.ended_form(after.app, hosts)
            &&& after == (Shell { app: after.app, ..self })
        } else {
            exists|mid: Shell| #[trigger]
                self.dropped_machine(mid, host_id) && kept == self.keeps_pane(mid, host_id)
                    && after == (Shell { app: after.app, ..mid }) && if kept {
                    mid.app.ended_form(after.app, hosts)
                } else {
                    after.app == mid.app
                }
        }
    }

    /// Takes in that a machine was saved. The answer is whether there is a pane to show.
    pub fn save_machine(&mut self, host_id: &HostId, editing: bool, registry: &HostRegistry) -> (
    kept: bool)
        requires
            old(self).wf(),
        ensures
            old(self).saved_machine(*final(self), *host_id, editing, registry@, kept),
            final(self).wf(),
    {
        if !editing {
            self.app.end_form(registry);
            return true;
        }
        let kept: bool = self.drop_machine(host_id);
        let ghost mid = *self;
        if kept {
            self.app.end_form(registry);
            return true;
        }
        false
    }

    /// What forgetting a machine does.
    pub open spec fn forgot_machine(
        self,
        after: Shell,
        host_id: HostId,
        hosts: Seq<SavedView>,
        kept: bool,
    ) -> bool {
        exists|mid: Shell| #[trigger]
            self.dropped_machine(mid, host_id) && kept == self.keeps_pane(mid, host_id) && after
                == (Shell { app: after.app, ..mid }) && if kept {
                mid.app.told_forgotten(after.app, hosts)
            } else {
                after.app == mid.app
            }
    }

    /// Takes in that a machine was forgotten. The answer is whether there is a pane to show.
    pub fn forget_machine(&mut self, host_id: &HostId, registry: &HostRegistry) -> (kept: bool)
        requires
            old(self).wf(),
        ensures
            old(self).forgot_machine(*final(self), *host_id, registry@, kept),
            final(self).wf(),
    {
        let kept: bool = self.drop_machine(host_id);
        let ghost mid = *self;
        if kept {
            self.app.tell_forgotten(registry);
            return true;
        }
        false
    }
}

impl App {
    /// The id of the saved host that is to be forgotten. The Node on this machine cannot be.
    pub fn removal(&mut self, host_id: &HostId) -> (id: Option<String>)
        requires
            old(self).wf(),
        ensures
            optional(id) == crate::machines::saved_id(host_id@),
            id is Some ==> *final(self) == *old(self),
            id is None ==> old(self).told(*final(self), "Local machine cannot be removed"@),
            final(self).wf(),
    {
        let id = strip_prefix(host_id.as_str(), "saved:");
        if id.is_none() {
            self.tell("Local machine cannot be removed");
            return None;
        }
        id
    }
}

} // verus!
