//! The hosts that a user has saved.

use vstd::prelude::*;
use vstd::string::*;

use crate::error::{ClientError, Failure};
use crate::paths::{components, join, joined, same_optional_path, same_path};
use crate::remote::{
    ssh_destination, is_ssh_destination, Launcher, LauncherView, RemoteNode, RemoteView,
};
use crate::seqs::{find, position, position_is_first};
use crate::text::{
    blank, clone_optional, clone_texts, concat2, concat3, concat4, is_blank, optional, same_text,
    texts,
};

verus! {

/// A saved SSH connection. There is no place in it for a credential or a private key, so none can
/// be saved.
#[derive(Debug, PartialEq, Eq)]
pub struct SavedHost {
    pub id: String,
    pub display_name: String,
    pub ssh_destination: String,
    pub ssh_config: Option<String>,
    pub remote_neta_dir: String,
    pub remote_launcher: Option<LauncherConfig>,
    pub last_remote_workspace_path: Option<String>,
}

/// The launcher of a saved host.
#[derive(Debug, PartialEq, Eq)]
pub struct LauncherConfig {
    pub executable: String,
    pub args: Vec<String>,
}

/// What a saved host holds.
#[verifier::ext_equal]
pub struct SavedView {
    pub id: Seq<char>,
    pub display_name: Seq<char>,
    pub ssh_destination: Seq<char>,
    pub ssh_config: Option<Seq<char>>,
    pub remote_neta_dir: Seq<char>,
    pub remote_launcher: Option<LauncherView>,
    pub last_remote_workspace_path: Option<Seq<char>>,
}

impl View for SavedHost {
    type V = SavedView;

    open spec fn view(&self) -> SavedView {
        SavedView {
            id: self.id@,
            display_name: self.display_name@,
            ssh_destination: self.ssh_destination@,
            ssh_config: optional(self.ssh_config),
            remote_neta_dir: self.remote_neta_dir@,
            remote_launcher: self.launcher_view(),
            last_remote_workspace_path: optional(self.last_remote_workspace_path),
        }
    }
}

impl LauncherConfig {
    fn copy(&self) -> (copy: Self)
        ensures
            copy.executable@ == self.executable@,
            copy.args@ == self.args@,
    {
        LauncherConfig { executable: self.executable.clone(), args: clone_texts(&self.args) }
    }
}

impl Clone for LauncherConfig {
    fn clone(&self) -> (copy: Self)
        ensures
            copy.executable@ == self.executable@,
            copy.args@ == self.args@,
    {
        self.copy()
    }
}

impl Clone for SavedHost {
    fn clone(&self) -> (copy: Self)
        ensures
            copy@ == self@,
    {
        let copy = SavedHost {
            id: self.id.clone(),
            display_name: self.display_name.clone(),
            ssh_destination: self.ssh_destination.clone(),
            ssh_config: clone_optional(&self.ssh_config),
            remote_neta_dir: self.remote_neta_dir.clone(),
            remote_launcher: match &self.remote_launcher {
                Some(launcher) => Some(launcher.copy()),
                None => None,
            },
            last_remote_workspace_path: clone_optional(&self.last_remote_workspace_path),
        };
        copy
    }
}

impl SavedView {
    /// What is wrong with a saved host, where something is.
    pub open spec fn fault(self) -> Option<Seq<char>> {
        if blank(self.id) {
            Some("saved host id must not be empty"@)
        } else if blank(self.display_name) {
            Some("saved host display name must not be empty"@)
        } else if !ssh_destination(self.ssh_destination) {
            Some("saved host "@ + self.id + " has an invalid SSH destination"@)
        } else if self.remote_neta_dir.len() == 0 {
            Some("saved host "@ + self.id + " remote NETA_DIR must not be empty"@)
        } else if self.remote_launcher is Some && self.remote_launcher->0.executable.len() == 0 {
            Some("saved host "@ + self.id + " launcher executable must not be empty"@)
        } else {
            None
        }
    }

    /// What tells one saved endpoint from another.
    pub open spec fn endpoint(self) -> (Seq<char>, Option<(bool, Seq<Seq<char>>)>, (
        bool,
        Seq<Seq<char>>,
    )) {
        (
            self.ssh_destination,
            match self.ssh_config {
                Some(config) => Some(components(config)),
                None => None,
            },
            components(self.remote_neta_dir),
        )
    }
}

impl SavedHost {
    /// The launcher that the host is saved with.
    pub open spec fn launcher_view(self) -> Option<LauncherView> {
        match self.remote_launcher {
            Some(launcher) => Some(
                LauncherView { executable: launcher.executable@, args: texts(launcher.args@) },
            ),
            None => None,
        }
    }

    /// Accepts a host that can be saved.
    pub fn validate(&self) -> (valid: Result<(), ClientError>)
        ensures
            match valid {
                Ok(()) => self@.fault() is None,
                Err(error) => self@.fault() is Some && error@ == Failure::Configuration(
                    self@.fault()->0,
                ),
            },
    {
        if is_blank(&self.id) {
            return Err(ClientError::Configuration("saved host id must not be empty".to_owned()));
        }
        if is_blank(&self.display_name) {
            return Err(
                ClientError::Configuration(
                    "saved host display name must not be empty".to_owned(),
                ),
            );
        }
        if !is_ssh_destination(&self.ssh_destination) {
            return Err(
                ClientError::Configuration(
                    concat3("saved host ", &self.id, " has an invalid SSH destination"),
                ),
            );
        }
        if self.remote_neta_dir.as_str().is_empty() {
            return Err(
                ClientError::Configuration(
                    concat3("saved host ", &self.id, " remote NETA_DIR must not be empty"),
                ),
            );
        }
        if let Some(launcher) = &self.remote_launcher {
            if launcher.executable.as_str().is_empty() {
                return Err(
                    ClientError::Configuration(
                        concat3("saved host ", &self.id, " launcher executable must not be empty"),
                    ),
                );
            }
        }
        Ok(())
    }

    /// How to reach the host. The workspace that was open last has no part in it.
    pub fn remote_node(&self, local_working_directory: &str) -> (remote: Result<
        RemoteNode,
        ClientError,
    >)
        ensures
            match remote {
                Ok(remote) => {
                    &&& self@.fault() is None
                    &&& remote@ == (RemoteView {
                        ssh_destination: self@.ssh_destination,
                        ssh_executable: "ssh"@,
                        ssh_config: self@.ssh_config,
                        remote_neta_dir: self@.remote_neta_dir,
                        remote_launcher: self@.remote_launcher,
                        local_working_directory: local_working_directory@,
                    })
                },
                Err(error) => self@.fault() is Some && error@ == Failure::Configuration(
                    self@.fault()->0,
                ),
            },
    {
        if let Err(error) = self.validate() {
            return Err(error);
        }
        Ok(
            RemoteNode {
                ssh_destination: self.ssh_destination.clone(),
                ssh_executable: "ssh".to_owned(),
                ssh_config: clone_optional(&self.ssh_config),
                remote_neta_dir: self.remote_neta_dir.clone(),
                remote_launcher: match &self.remote_launcher {
                    Some(launcher) => Some(
                        Launcher {
                            executable: launcher.executable.clone(),
                            args: clone_texts(&launcher.args),
                        },
                    ),
                    None => None,
                },
                local_working_directory: local_working_directory.to_owned(),
            },
        )
    }
}

/// Whether two saved hosts are the same endpoint.
pub fn endpoint_equal(left: &SavedHost, right: &SavedHost) -> (same: bool)
    ensures
        same == (left@.endpoint() == right@.endpoint()),
{
    same_text(&left.ssh_destination, &right.ssh_destination) && same_optional_path(
        &left.ssh_config,
        &right.ssh_config,
    ) && same_path(&left.remote_neta_dir, &right.remote_neta_dir)
}

/// The hosts of a list, by what they hold.
pub open spec fn saved(hosts: Seq<SavedHost>) -> Seq<SavedView> {
    hosts.map_values(|host: SavedHost| host@)
}

/// The host with an id.
pub open spec fn host_with(id: Seq<char>) -> spec_fn(SavedView) -> bool {
    |host: SavedView| host.id == id
}

/// Whether another host than the one with this id is the same endpoint.
pub open spec fn endpoint_taken(
    hosts: Seq<SavedView>,
    host: SavedView,
    except: Option<Seq<char>>,
) -> bool {
    exists|i: int|
        0 <= i < hosts.len() && Some((#[trigger] hosts[i]).id) != except && hosts[i].endpoint()
            == host.endpoint()
}

/// Every host is valid, and no two have the same id or the same endpoint.
pub open spec fn consistent(hosts: Seq<SavedView>) -> bool {
    &&& forall|i: int| 0 <= i < hosts.len() ==> (#[trigger] hosts[i]).fault() is None
    &&& forall|i: int, j: int|
        0 <= i < j < hosts.len() ==> (#[trigger] hosts[i]).id != (#[trigger] hosts[j]).id
            && hosts[i].endpoint() != hosts[j].endpoint()
}

/// The saved hosts and the file that they are kept in.
#[derive(Debug, PartialEq, Eq)]
pub struct HostRegistry {
    path: String,
    hosts: Vec<SavedHost>,
}

impl View for HostRegistry {
    type V = Seq<SavedView>;

    closed spec fn view(&self) -> Seq<SavedView> {
        saved(self.hosts@)
    }
}

impl HostRegistry {
    /// The file that the hosts are kept in.
    pub closed spec fn file(self) -> Seq<char> {
        self.path@
    }

    /// The file that the hosts are kept in, in the directory of the Node.
    pub fn default_path(neta_dir: &str) -> (path: String)
        ensures
            path@ == joined(neta_dir@, "client-hosts.json"@),
    {
        join(neta_dir, "client-hosts.json")
    }

    /// A registry of the hosts that a file held; they have to be consistent.
    pub fn load(path: &str, hosts: Vec<SavedHost>) -> (registry: Result<HostRegistry, ClientError>)
        ensures
            match registry {
                Ok(registry) => {
                    &&& consistent(saved(hosts@))
                    &&& registry@ == saved(hosts@)
                    &&& registry.file() == path@
                },
                Err(error) => {
                    &&& !consistent(saved(hosts@))
                    &&& error@ == Failure::Configuration(first_fault(saved(hosts@), 0)->0)
                },
            },
    {
        let registry = HostRegistry { path: path.to_owned(), hosts };
        match registry.validate_all() {
            Ok(()) => Ok(registry),
            Err(error) => Err(error),
        }
    }

    pub fn path(&self) -> (path: &str)
        ensures
            path@ == self.file(),
    {
        self.path.as_str()
    }

    pub fn hosts(&self) -> (hosts: &[SavedHost])
        ensures
            saved(hosts@) == self@,
    {
        self.hosts.as_slice()
    }

    fn index_of(&self, id: &str) -> (found: Option<usize>)
        ensures
            match found {
                Some(at) => at < self.hosts@.len() && position(self@, host_with(id@), 0) == at,
                None => position(self@, host_with(id@), 0) == self@.len(),
            },
            self@.len() == self.hosts@.len(),
    {
        let mut at: usize = 0;
        while at < self.hosts.len()
            invariant
                at <= self.hosts@.len(),
                position(self@, host_with(id@), at as int) == position(self@, host_with(id@), 0),
            decreases self.hosts@.len() - at,
        {
            assert(self@[at as int] == self.hosts@[at as int]@);
            if same_text(&self.hosts[at].id, id) {
                return Some(at);
            }
            at = at + 1;
        }
        None
    }

    /// The host with an id.
    pub fn get(&self, id: &str) -> (host: Option<&SavedHost>)
        ensures
            match host {
                Some(host) => find(self@, host_with(id@)) == Some(host@),
                None => find(self@, host_with(id@)) is None,
            },
    {
        match self.index_of(id) {
            Some(at) => {
                assert(self@[at as int] == self.hosts@[at as int]@);
                Some(&self.hosts[at])
            },
            None => None,
        }
    }

    fn endpoint_is_taken(&self, host: &SavedHost, except_id: Option<&str>) -> (taken: bool)
        ensures
            taken == endpoint_taken(
                self@,
                host@,
                match except_id {
                    Some(id) => Some(id@),
                    None => None,
                },
            ),
    {
        let ghost except = match except_id {
            Some(id) => Some(id@),
            None => None,
        };
        let mut at: usize = 0;
        while at < self.hosts.len()
            invariant
                at <= self.hosts@.len(),
                except == (match except_id {
                    Some(id) => Some(id@),
                    None => None,
                }),
                forall|i: int|
                    0 <= i < at ==> !(Some((#[trigger] self@[i]).id) != except
                        && self@[i].endpoint() == host@.endpoint()),
            decreases self.hosts@.len() - at,
        {
            let other = &self.hosts[at];
            assert(self@[at as int] == other@);
            let excepted: bool = match except_id {
                Some(id) => same_text(&other.id, id),
                None => false,
            };
            if !excepted && endpoint_equal(other, host) {
                return true;
            }
            at = at + 1;
        }
        assert(self@.len() == self.hosts@.len());
        false
    }

    /// Accepts a host whose endpoint no other host has.
    pub fn ensure_endpoint_unique(&self, host: &SavedHost, except_id: Option<&str>) -> (unique:
        Result<(), ClientError>)
        ensures
            ({
                let taken = endpoint_taken(
                    self@,
                    host@,
                    match except_id {
                        Some(id) => Some(id@),
                        None => None,
                    },
                );
                match unique {
                    Ok(()) => !taken,
                    Err(error) => taken && error@ == Failure::Configuration(
                        "duplicate saved host endpoint: "@ + host.ssh_destination@,
                    ),
                }
            }),
    {
        if self.endpoint_is_taken(host, except_id) {
            return Err(
                ClientError::Configuration(
                    concat2("duplicate saved host endpoint: ", &host.ssh_destination),
                ),
            );
        }
        Ok(())
    }

    /// Accepts the hosts where every one is valid and no two have the same id or the same endpoint.
    pub fn validate_all(&self) -> (valid: Result<(), ClientError>)
        ensures
            match valid {
                Ok(()) => consistent(self@),
                Err(error) => !consistent(self@) && first_fault(self@, 0) is Some && error@
                    == Failure::Configuration(first_fault(self@, 0)->0),
            },
    {
        let mut at: usize = 0;
        assert(self@.len() == self.hosts@.len());
        while at < self.hosts.len()
            invariant
                at <= self.hosts@.len() == self@.len(),
                first_fault(self@, at as int) == first_fault(self@, 0),
            decreases self.hosts@.len() - at,
        {
            let host = &self.hosts[at];
            assert(self@[at as int] == host@);
            if let Err(error) = host.validate() {
                proof {
                    lemma_first_fault(self@, 0);
                }
                return Err(error);
            }
            let mut earlier: usize = 0;
            while earlier < at
                invariant
                    earlier <= at < self.hosts@.len() == self@.len(),
                    host == self.hosts@[at as int],
                    self@[at as int] == host@,
                    host@.fault() is None,
                    first_fault(self@, at as int) == first_fault(self@, 0),
                    forall|i: int| 0 <= i < earlier ==> (#[trigger] self@[i]).id != host@.id,
                decreases at - earlier,
            {
                assert(self@[earlier as int] == self.hosts@[earlier as int]@);
                if same_text(&self.hosts[earlier].id, &host.id) {
                    proof {
                        assert(id_taken(self@, at as int));
                        lemma_first_fault(self@, 0);
                    }
                    return Err(
                        ClientError::Configuration(concat2("duplicate saved host id: ", &host.id)),
                    );
                }
                earlier = earlier + 1;
            }
            assert(!id_taken(self@, at as int));
            if let Err(error) = self.ensure_endpoint_unique(host, Some(&host.id)) {
                proof {
                    lemma_first_fault(self@, 0);
                }
                return Err(error);
            }
            at = at + 1;
        }
        proof {
            lemma_first_fault(self@, 0);
        }
        Ok(())
    }

    /// Adds a host with a new id and a new endpoint.
    pub fn insert(&mut self, host: SavedHost) -> (done: Result<(), ClientError>)
        ensures
            final(self).file() == old(self).file(),
            consistent(old(self)@) ==> consistent(final(self)@),
            match done {
                Ok(()) => insert_fault(old(self)@, host@) is None && final(self)@
                    == old(self)@.push(host@),
                Err(error) => insert_fault(old(self)@, host@) is Some && error@
                    == Failure::Configuration(insert_fault(old(self)@, host@)->0) && *final(self)
                    == *old(self),
            },
    {
        if let Err(error) = host.validate() {
            return Err(error);
        }
        if let Some(_) = self.index_of(&host.id) {
            proof {
                lemma_known(self@, host@.id);
            }
            return Err(
                ClientError::Configuration(concat2("saved host id already exists: ", &host.id)),
            );
        }
        proof {
            lemma_known(self@, host@.id);
        }
        if let Err(error) = self.ensure_endpoint_unique(&host, None) {
            return Err(error);
        }
        let ghost before = self@;
        self.hosts.push(host);
        assert(self@ =~= before.push(host@));
        proof {
            if consistent(before) {
                inserting_keeps_hosts_consistent(before, host@);
            }
        }
        Ok(())
    }

    /// Replaces the host with an id, which stays the same.
    pub fn update(&mut self, id: &str, host: SavedHost) -> (done: Result<(), ClientError>)
        ensures
            final(self).file() == old(self).file(),
            consistent(old(self)@) ==> consistent(final(self)@),
            match done {
                Ok(()) => {
                    &&& update_fault(old(self)@, id@, host@) is None
                    &&& final(self)@ == old(self)@.update(
                        position(old(self)@, host_with(id@), 0),
                        host@,
                    )
                },
                Err(error) => update_fault(old(self)@, id@, host@) is Some && error@
                    == Failure::Configuration(update_fault(old(self)@, id@, host@)->0)
                    && *final(self) == *old(self),
            },
    {
        if let Err(error) = host.validate() {
            return Err(error);
        }
        if !same_text(&host.id, id) {
            return Err(
                ClientError::Configuration(
                    concat4("saved host id is immutable: expected ", id, ", got ", &host.id),
                ),
            );
        }
        proof {
            lemma_known(self@, id@);
        }
        let at: usize = match self.index_of(id) {
            Some(at) => at,
            None => return Err(ClientError::Configuration(concat2("saved host not found: ", id))),
        };
        if let Err(error) = self.ensure_endpoint_unique(&host, Some(id)) {
            return Err(error);
        }
        let ghost before = self@;
        self.hosts[at] = host;
        assert(self@ =~= before.update(at as int, host@));
        proof {
            if consistent(before) {
                updating_keeps_hosts_consistent(before, id@, host@);
            }
        }
        Ok(())
    }

    /// Takes the host with an id out.
    pub fn remove(&mut self, id: &str) -> (removed: Result<SavedHost, ClientError>)
        ensures
            final(self).file() == old(self).file(),
            consistent(old(self)@) ==> consistent(final(self)@),
            match removed {
                Ok(host) => {
                    &&& known(old(self)@, id@)
                    &&& find(old(self)@, host_with(id@)) == Some(host@)
                    &&& final(self)@ == old(self)@.remove(position(old(self)@, host_with(id@), 0))
                },
                Err(error) => !known(old(self)@, id@) && error@ == Failure::Configuration(
                    "saved host not found: "@ + id@,
                ) && *final(self) == *old(self),
            },
    {
        proof {
            lemma_known(self@, id@);
        }
        let at: usize = match self.index_of(id) {
            Some(at) => at,
            None => return Err(ClientError::Configuration(concat2("saved host not found: ", id))),
        };
        let ghost before = self@;
        assert(before[at as int] == self.hosts@[at as int]@);
        let removed = self.hosts.remove(at);
        assert(self@ =~= before.remove(at as int));
        proof {
            if consistent(before) {
                removing_keeps_hosts_consistent(before, at as int);
            }
        }
        Ok(removed)
    }

    /// Keeps a change once it is written. One that could not be written is given up.
    pub fn commit<T>(
        &mut self,
        changed: HostRegistry,
        outcome: T,
        written: Result<(), ClientError>,
    ) -> (done: Result<T, ClientError>)
        ensures
            match written {
                Ok(_) => done == Ok::<T, ClientError>(outcome) && *final(self) == changed,
                Err(error) => done == Err::<T, ClientError>(error) && *final(self) == *old(self),
            },
    {
        match written {
            Ok(_) => {
                *self = changed;
                Ok(outcome)
            },
            Err(error) => Err(error),
        }
    }
}

/// Whether an earlier host has the same id.
pub open spec fn id_taken(hosts: Seq<SavedView>, at: int) -> bool {
    exists|i: int| 0 <= i < at && (#[trigger] hosts[i]).id == hosts[at].id
}

/// What is wrong with one host of a list, where something is.
pub open spec fn fault_at(hosts: Seq<SavedView>, at: int) -> Option<Seq<char>> {
    let host = hosts[at];
    match host.fault() {
        Some(words) => Some(words),
        None => if id_taken(hosts, at) {
            Some("duplicate saved host id: "@ + host.id)
        } else if endpoint_taken(hosts, host, Some(host.id)) {
            Some("duplicate saved host endpoint: "@ + host.ssh_destination)
        } else {
            None
        },
    }
}

/// What is wrong with the first host, from a place on, with which something is.
pub open spec fn first_fault(hosts: Seq<SavedView>, from: int) -> Option<Seq<char>>
    decreases hosts.len() - from,
{
    if from >= hosts.len() {
        None
    } else {
        match fault_at(hosts, from) {
            Some(words) => Some(words),
            None => first_fault(hosts, from + 1),
        }
    }
}

proof fn lemma_no_fault(hosts: Seq<SavedView>, from: int)
    requires
        0 <= from <= hosts.len(),
    ensures
        first_fault(hosts, from) is None <==> forall|i: int|
            from <= i < hosts.len() ==> #[trigger] fault_at(hosts, i) is None,
    decreases hosts.len() - from,
{
    if from < hosts.len() {
        lemma_no_fault(hosts, from + 1);
    }
}

/// A list is consistent exactly where nothing is wrong with any of its hosts.
proof fn lemma_first_fault(hosts: Seq<SavedView>, from: int)
    requires
        from == 0,
    ensures
        first_fault(hosts, 0) is None <==> consistent(hosts),
{
    lemma_no_fault(hosts, 0);
    if forall|i: int| 0 <= i < hosts.len() ==> #[trigger] fault_at(hosts, i) is None {
        assert forall|i: int| 0 <= i < hosts.len() implies (#[trigger] hosts[i]).fault() is None by {
            assert(fault_at(hosts, i) is None);
        }
        assert forall|i: int, j: int| 0 <= i < j < hosts.len() implies (#[trigger] hosts[i]).id != (
        #[trigger] hosts[j]).id && hosts[i].endpoint() != hosts[j].endpoint() by {
            assert(fault_at(hosts, j) is None);
            assert(!id_taken(hosts, j));
            assert(!endpoint_taken(hosts, hosts[j], Some(hosts[j].id)));
        }
    }
    if consistent(hosts) {
        assert forall|i: int| 0 <= i < hosts.len() implies #[trigger] fault_at(
            hosts,
            i,
        ) is None by {
            assert(hosts[i].fault() is None);
            if endpoint_taken(hosts, hosts[i], Some(hosts[i].id)) {
                let j = choose|j: int|
                    0 <= j < hosts.len() && Some((#[trigger] hosts[j]).id) != Some(hosts[i].id)
                        && hosts[j].endpoint() == hosts[i].endpoint();
                assert(i != j);
                if i < j {
                    assert(hosts[i].endpoint() != hosts[j].endpoint());
                } else {
                    assert(hosts[j].endpoint() != hosts[i].endpoint());
                }
            }
        }
    }
}

/// Whether a host with this id is saved.
pub open spec fn known(hosts: Seq<SavedView>, id: Seq<char>) -> bool {
    exists|i: int| 0 <= i < hosts.len() && (#[trigger] hosts[i]).id == id
}

proof fn lemma_known(hosts: Seq<SavedView>, id: Seq<char>)
    ensures
        known(hosts, id) <==> position(hosts, host_with(id), 0) < hosts.len(),
        0 <= position(hosts, host_with(id), 0) <= hosts.len(),
        known(hosts, id) ==> hosts[position(hosts, host_with(id), 0)].id == id,
{
    position_is_first(hosts, host_with(id), 0);
    let wanted = host_with(id);
    if known(hosts, id) {
        let i = choose|i: int| 0 <= i < hosts.len() && (#[trigger] hosts[i]).id == id;
        assert(wanted(hosts[i]));
    }
}

/// What keeps a host from being added, where something does.
pub open spec fn insert_fault(hosts: Seq<SavedView>, host: SavedView) -> Option<Seq<char>> {
    match host.fault() {
        Some(words) => Some(words),
        None => if known(hosts, host.id) {
            Some("saved host id already exists: "@ + host.id)
        } else if endpoint_taken(hosts, host, None) {
            Some("duplicate saved host endpoint: "@ + host.ssh_destination)
        } else {
            None
        },
    }
}

/// What keeps a host from being replaced, where something does.
pub open spec fn update_fault(hosts: Seq<SavedView>, id: Seq<char>, host: SavedView) -> Option<
    Seq<char>,
> {
    match host.fault() {
        Some(words) => Some(words),
        None => if host.id != id {
            Some("saved host id is immutable: expected "@ + id + ", got "@ + host.id)
        } else if !known(hosts, id) {
            Some("saved host not found: "@ + id)
        } else if endpoint_taken(hosts, host, Some(id)) {
            Some("duplicate saved host endpoint: "@ + host.ssh_destination)
        } else {
            None
        },
    }
}

/// Adding a host that nothing keeps out leaves the hosts consistent.
pub proof fn inserting_keeps_hosts_consistent(hosts: Seq<SavedView>, host: SavedView)
    requires
        consistent(hosts),
        insert_fault(hosts, host) is None,
    ensures
        consistent(hosts.push(host)),
{
    let after = hosts.push(host);
    assert forall|i: int, j: int| 0 <= i < j < after.len() implies (#[trigger] after[i]).id != (
    #[trigger] after[j]).id && after[i].endpoint() != after[j].endpoint() by {
        assert(after[i] == hosts[i]);
        if j < hosts.len() {
            assert(after[j] == hosts[j]);
        } else {
            assert(!known(hosts, host.id));
            assert(!endpoint_taken(hosts, host, None));
        }
    }
}

/// Replacing a host that nothing keeps from it leaves the hosts consistent.
pub proof fn updating_keeps_hosts_consistent(hosts: Seq<SavedView>, id: Seq<char>, host: SavedView)
    requires
        consistent(hosts),
        update_fault(hosts, id, host) is None,
    ensures
        consistent(hosts.update(position(hosts, host_with(id), 0), host)),
{
    lemma_known(hosts, id);
    let at = position(hosts, host_with(id), 0);
    let after = hosts.update(at, host);
    assert(!endpoint_taken(hosts, host, Some(id)));
    assert forall|i: int, j: int| 0 <= i < j < after.len() implies (#[trigger] after[i]).id != (
    #[trigger] after[j]).id && after[i].endpoint() != after[j].endpoint() by {
        assert(hosts[i].id != hosts[j].id && hosts[i].endpoint() != hosts[j].endpoint());
        if i == at {
            assert(Some(hosts[j].id) != Some(id));
        }
        if j == at {
            assert(Some(hosts[i].id) != Some(id));
        }
    }
}

/// Taking a host out leaves the hosts consistent.
pub proof fn removing_keeps_hosts_consistent(hosts: Seq<SavedView>, at: int)
    requires
        consistent(hosts),
        0 <= at < hosts.len(),
    ensures
        consistent(hosts.remove(at)),
{
    let after = hosts.remove(at);
    assert forall|i: int| 0 <= i < after.len() implies (#[trigger] after[i]).fault() is None by {
        let p = if i < at {
            i
        } else {
            i + 1
        };
        assert(after[i] == hosts[p]);
    }
    assert forall|i: int, j: int| 0 <= i < j < after.len() implies (#[trigger] after[i]).id != (
    #[trigger] after[j]).id && after[i].endpoint() != after[j].endpoint() by {
        let p = if i < at {
            i
        } else {
            i + 1
        };
        let q = if j < at {
            j
        } else {
            j + 1
        };
        assert(after[i] == hosts[p] && after[j] == hosts[q]);
    }
}

/// A change that is asked of the saved hosts.
pub enum Change {
    Insert(SavedView),
    Update(Seq<char>, SavedView),
    Remove(Seq<char>),
}

/// The hosts after a change, which leaves them as they are where something keeps it from being made.
pub open spec fn changed(hosts: Seq<SavedView>, change: Change) -> Seq<SavedView> {
    match change {
        Change::Insert(host) => if insert_fault(hosts, host) is None {
            hosts.push(host)
        } else {
            hosts
        },
        Change::Update(id, host) => if update_fault(hosts, id, host) is None {
            hosts.update(position(hosts, host_with(id), 0), host)
        } else {
            hosts
        },
        Change::Remove(id) => if known(hosts, id) {
            hosts.remove(position(hosts, host_with(id), 0))
        } else {
            hosts
        },
    }
}

/// The hosts after changes, of each of which it is said whether it was written.
pub open spec fn after_changes(hosts: Seq<SavedView>, changes: Seq<(Change, bool)>) -> Seq<SavedView>
    decreases changes.len(),
{
    if changes.len() == 0 {
        hosts
    } else {
        let before = after_changes(hosts, changes.drop_last());
        if changes.last().1 {
            changed(before, changes.last().0)
        } else {
            before
        }
    }
}

/// Whatever is asked of consistent hosts, and whether it can be written or not, they stay consistent:
/// nothing is found wrong with them, and a file that keeps them can be loaded again as it is.
pub proof fn every_change_leaves_hosts_that_load(hosts: Seq<SavedView>, changes: Seq<(Change, bool)>)
    requires
        consistent(hosts),
    ensures
        consistent(after_changes(hosts, changes)),
        first_fault(after_changes(hosts, changes), 0) is None,
    decreases changes.len(),
{
    if changes.len() > 0 {
        every_change_leaves_hosts_that_load(hosts, changes.drop_last());
        let before = after_changes(hosts, changes.drop_last());
        match changes.last().0 {
            Change::Insert(host) => {
                if insert_fault(before, host) is None {
                    inserting_keeps_hosts_consistent(before, host);
                }
            },
            Change::Update(id, host) => {
                if update_fault(before, id, host) is None {
                    updating_keeps_hosts_consistent(before, id, host);
                }
            },
            Change::Remove(id) => {
                if known(before, id) {
                    lemma_known(before, id);
                    removing_keeps_hosts_consistent(before, position(before, host_with(id), 0));
                }
            },
        }
    }
    lemma_first_fault(after_changes(hosts, changes), 0);
}

/// A host that is taken out is gone, and nothing else is; where its id is not saved, or the change is
/// not written, the hosts stay as they are.
pub proof fn a_removed_host_is_gone(hosts: Seq<SavedView>, id: Seq<char>, written: bool)
    requires
        forall|i: int, j: int|
            0 <= i < j < hosts.len() ==> (#[trigger] hosts[i]).id != (#[trigger] hosts[j]).id,
    ensures
        ({
            let after = after_changes(hosts, seq![(Change::Remove(id), written)]);
            if written && known(hosts, id) {
                &&& after == hosts.remove(position(hosts, host_with(id), 0))
                &&& find(after, host_with(id)) is None
            } else {
                after == hosts
            }
        }),
{
    let steps = seq![(Change::Remove(id), written)];
    assert(steps.drop_last() =~= seq![]);
    assert(after_changes(hosts, steps.drop_last()) == hosts);
    lemma_known(hosts, id);
    if written && known(hosts, id) {
        let at = position(hosts, host_with(id), 0);
        let after = hosts.remove(at);
        if known(after, id) {
            let i = choose|i: int| 0 <= i < after.len() && (#[trigger] after[i]).id == id;
            let p = if i < at {
                i
            } else {
                i + 1
            };
            assert(after[i] == hosts[p]);
            assert(hosts[p].id == hosts[at].id);
        }
        lemma_known(after, id);
    }
}

/// Taking out the host that was added last gives that host back, and the hosts from before.
pub proof fn removing_undoes_inserting(hosts: Seq<SavedView>, host: SavedView)
    requires
        insert_fault(hosts, host) is None,
    ensures
        find(hosts.push(host), host_with(host.id)) == Some(host),
        after_changes(
            hosts,
            seq![(Change::Insert(host), true), (Change::Remove(host.id), true)],
        ) == hosts,
{
    let grown = hosts.push(host);
    let steps = seq![(Change::Insert(host), true), (Change::Remove(host.id), true)];
    let first = steps.drop_last();
    assert(first =~= seq![(Change::Insert(host), true)]);
    assert(first.drop_last() =~= seq![]);
    assert(after_changes(hosts, first.drop_last()) == hosts);
    assert(after_changes(hosts, first) == grown);
    assert(grown[hosts.len() as int].id == host.id);
    assert(known(grown, host.id));
    lemma_known(grown, host.id);
    let at = position(grown, host_with(host.id), 0);
    if at < hosts.len() {
        assert(hosts[at] == grown[at]);
        assert(known(hosts, host.id));
    }
    assert(grown.remove(at) =~= hosts);
}

} // verus!
