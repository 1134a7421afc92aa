//! Which Node a thing belongs to.
//!
//! Node ids, workspace ids and session ids are only unique within one Node. Here that boundary is
//! explicit, so that one Node cannot replace what belongs to another.

use vstd::prelude::*;
use vstd::string::*;

use crate::protocol::{Snapshot, Target, TargetView};
use crate::text::{concat2, encoding_is_injective, is_blank, blank};

verus! {

/// A host as the client names it. The Node on this machine is `local`.
#[derive(Debug, Eq, Hash, PartialOrd, Ord)]
pub struct HostId(String);

impl View for HostId {
    type V = Seq<char>;

    closed spec fn view(&self) -> Seq<char> {
        self.0@
    }
}

impl Clone for HostId {
    fn clone(&self) -> (copy: Self)
        ensures
            copy == *self,
    {
        HostId(self.0.clone())
    }
}

impl PartialEq for HostId {
    fn eq(&self, other: &Self) -> (same: bool) {
        self.0 == other.0
    }
}

impl vstd::std_specs::cmp::PartialEqSpecImpl for HostId {
    open spec fn obeys_eq_spec() -> bool {
        true
    }

    open spec fn eq_spec(&self, other: &Self) -> bool {
        self@ == other@
    }
}

/// Why a key cannot be made.
#[derive(Clone, Copy, Debug, PartialEq, Eq, Structural)]
pub enum HostKeyError {
    EmptyHostId,
    EmptySessionId,
}

impl HostKeyError {
    /// The words that the error is shown with.
    pub fn to_string(&self) -> (text: String)
        ensures
            text@ == (match *self {
                HostKeyError::EmptyHostId => "host id must not be empty"@,
                HostKeyError::EmptySessionId => "session id must not be empty"@,
            }),
    {
        match self {
            HostKeyError::EmptyHostId => "host id must not be empty".to_owned(),
            HostKeyError::EmptySessionId => "session id must not be empty".to_owned(),
        }
    }
}

impl HostId {
    /// A host under a name that is not blank.
    pub fn new(value: &str) -> (host: Result<HostId, HostKeyError>)
        ensures
            match host {
                Ok(host) => !blank(value@) && host@ == value@,
                Err(error) => blank(value@) && error == HostKeyError::EmptyHostId,
            },
    {
        if is_blank(value) {
            return Err(HostKeyError::EmptyHostId);
        }
        Ok(HostId(value.to_owned()))
    }

    /// The Node on this machine.
    pub fn local() -> (host: HostId)
        ensures
            host@ == "local"@,
    {
        HostId("local".to_owned())
    }

    /// A saved host. Saved ids have a namespace of their own, so that a saved host called `local`
    /// can stand beside the Node on this machine.
    pub fn saved(saved_id: &str) -> (host: Result<HostId, HostKeyError>)
        ensures
            host is Ok,
            host->Ok_0@ == "saved:"@ + saved_id@,
    {
        let name = concat2("saved:", saved_id);
        proof {
            reveal_strlit("saved:");
            assert(name@[0] == 's');
            assert(!crate::text::white_space(name@[0]));
        }
        HostId::new(&name)
    }

    pub fn as_str(&self) -> (name: &str)
        ensures
            name@ == self@,
    {
        self.0.as_str()
    }

    /// The name that the host is shown with.
    pub fn to_string(&self) -> (name: String)
        ensures
            name@ == self@,
    {
        self.0.clone()
    }
}

/// A session, with all that tells it from every other.
#[derive(Debug, Eq, Hash, PartialOrd, Ord)]
pub struct SessionKey {
    pub host_id: HostId,
    pub workspace_id: String,
    pub session_id: String,
}

/// What a key holds.
#[verifier::ext_equal]
pub struct KeyView {
    pub host: Seq<char>,
    pub workspace: Seq<char>,
    pub session: Seq<char>,
}

impl View for SessionKey {
    type V = KeyView;

    open spec fn view(&self) -> KeyView {
        KeyView {
            host: self.host_id@,
            workspace: self.workspace_id@,
            session: self.session_id@,
        }
    }
}

impl Clone for SessionKey {
    fn clone(&self) -> (copy: Self)
        ensures
            copy == *self,
    {
        SessionKey {
            host_id: self.host_id.clone(),
            workspace_id: self.workspace_id.clone(),
            session_id: self.session_id.clone(),
        }
    }
}

impl PartialEq for SessionKey {
    fn eq(&self, other: &Self) -> (same: bool) {
        self.host_id == other.host_id && self.workspace_id == other.workspace_id
            && self.session_id == other.session_id
    }
}

impl vstd::std_specs::cmp::PartialEqSpecImpl for SessionKey {
    open spec fn obeys_eq_spec() -> bool {
        true
    }

    open spec fn eq_spec(&self, other: &Self) -> bool {
        self@ == other@
    }
}

/// The lower-case hexadecimal digit of a number below sixteen.
pub open spec fn hex_digit(value: int) -> char {
    if value < 10 {
        (48 + value) as char
    } else {
        (87 + value) as char
    }
}

/// Bytes in hexadecimal, two digits each.
pub open spec fn hex_of(bytes: Seq<u8>) -> Seq<char> {
    Seq::new(
        2 * bytes.len(),
        |i: int|
            if i % 2 == 0 {
                hex_digit(bytes[i / 2] as int / 16)
            } else {
                hex_digit(bytes[i / 2] as int % 16)
            },
    )
}

/// The bytes of a text in hexadecimal.
pub open spec fn hex_text(text: Seq<char>) -> Seq<char> {
    hex_of(vstd::utf8::encode_utf8(text))
}

impl KeyView {
    /// `neta-h`, `-w` and `-s`, each followed by a part of the key in hexadecimal.
    pub open spec fn rmux_name(self) -> Seq<char> {
        "neta-h"@ + hex_text(self.host) + "-w"@ + hex_text(self.workspace) + "-s"@ + hex_text(
            self.session,
        )
    }

    /// `h`, `-w` and `-s`, each followed by a part of the key in hexadecimal.
    pub open spec fn cache_component(self) -> Seq<char> {
        "h"@ + hex_text(self.host) + "-w"@ + hex_text(self.workspace) + "-s"@ + hex_text(
            self.session,
        )
    }

    /// The component without the workspace, as earlier versions wrote it.
    pub open spec fn legacy_cache_component(self) -> Seq<char> {
        "h"@ + hex_text(self.host) + "-s"@ + hex_text(self.session)
    }
}

fn hex_char(value: u8) -> (c: char)
    requires
        value < 16,
    ensures
        c == hex_digit(value as int),
{
    if value < 10 {
        (48 + value) as char
    } else {
        (87 + value) as char
    }
}

/// Bytes in hexadecimal.
pub fn hex(bytes: &[u8]) -> (text: String)
    ensures
        text@ == hex_of(bytes@),
{
    let mut text = String::new();
    let mut at: usize = 0;
    while at < bytes.len()
        invariant
            at <= bytes@.len(),
            text@ == hex_of(bytes@.take(at as int)),
        decreases bytes@.len() - at,
    {
        let byte: u8 = bytes[at];
        let ghost before = bytes@.take(at as int);
        let ghost after = bytes@.take(at + 1);
        text.push(hex_char(byte / 16));
        text.push(hex_char(byte % 16));
        assert(text@ =~= hex_of(after)) by {
            assert(hex_of(after).len() == hex_of(before).len() + 2);
            assert forall|i: int| 0 <= i < hex_of(after).len() implies text@[i] == hex_of(
                after,
            )[i] by {
                if i < 2 * at {
                    assert(before[i / 2] == after[i / 2]);
                } else {
                    assert(i / 2 == at);
                    assert(after[at as int] == byte);
                }
            }
        }
        at = at + 1;
    }
    assert(bytes@.take(at as int) =~= bytes@);
    text
}

/// The bytes of a text in hexadecimal.
pub fn hex_bytes(value: &str) -> (text: String)
    ensures
        text@ == hex_text(value@),
{
    hex(value.as_bytes())
}

impl SessionKey {
    /// The key of a session; the ids of the workspace and of the session may not be empty.
    pub fn new(host_id: HostId, workspace_id: &str, session_id: &str) -> (key: Result<
        SessionKey,
        HostKeyError,
    >)
        ensures
            match key {
                Ok(key) => {
                    &&& workspace_id@.len() > 0
                    &&& session_id@.len() > 0
                    &&& key@ == (KeyView {
                        host: host_id@,
                        workspace: workspace_id@,
                        session: session_id@,
                    })
                },
                Err(error) => (workspace_id@.len() == 0 || session_id@.len() == 0) && error
                    == HostKeyError::EmptySessionId,
            },
    {
        if workspace_id.is_empty() || session_id.is_empty() {
            return Err(HostKeyError::EmptySessionId);
        }
        Ok(
            SessionKey {
                host_id,
                workspace_id: workspace_id.to_owned(),
                session_id: session_id.to_owned(),
            },
        )
    }

    /// A name for the session that no other session has and that is safe in a file name. It is
    /// made of the bytes in hexadecimal, since names that rmux sanitizes for display can collide.
    pub fn rmux_name(&self) -> (name: String)
        ensures
            name@ == self@.rmux_name(),
    {
        let mut name = "neta-h".to_owned();
        name.append(&hex_bytes(self.host_id.as_str()));
        name.append("-w");
        name.append(&hex_bytes(&self.workspace_id));
        name.append("-s");
        name.append(&hex_bytes(&self.session_id));
        name
    }

    /// The directory of the session under the cache.
    pub fn cache_component(&self) -> (name: String)
        ensures
            name@ == self@.cache_component(),
    {
        let mut name = "h".to_owned();
        name.append(&hex_bytes(self.host_id.as_str()));
        name.append("-w");
        name.append(&hex_bytes(&self.workspace_id));
        name.append("-s");
        name.append(&hex_bytes(&self.session_id));
        name
    }

    /// The directory that earlier versions used for the session.
    pub fn legacy_cache_component(&self) -> (name: String)
        ensures
            name@ == self@.legacy_cache_component(),
    {
        let mut name = "h".to_owned();
        name.append(&hex_bytes(self.host_id.as_str()));
        name.append("-s");
        name.append(&hex_bytes(&self.session_id));
        name
    }
}

/// A character of a name made of hexadecimal parts.
pub open spec fn safe_in_file_names(c: char) -> bool {
    'a' <= c <= 'z' || '0' <= c <= '9' || c == '-'
}

proof fn lemma_hex_digits(bytes: Seq<u8>)
    ensures
        forall|i: int|
            #![trigger hex_of(bytes)[i]]
            0 <= i < hex_of(bytes).len() ==> safe_in_file_names(hex_of(bytes)[i]) && hex_of(
                bytes,
            )[i] != '-',
{
    assert forall|i: int|
        #![trigger hex_of(bytes)[i]]
        0 <= i < hex_of(bytes).len() implies safe_in_file_names(hex_of(bytes)[i]) && hex_of(
        bytes,
    )[i] != '-' by {
        let b = bytes[i / 2] as int;
        assert(0 <= b / 16 < 16 && 0 <= b % 16 < 16);
    }
}

proof fn lemma_hex_injective(left: Seq<u8>, right: Seq<u8>)
    requires
        hex_of(left) == hex_of(right),
    ensures
        left == right,
{
    assert(hex_of(left).len() == 2 * left.len());
    assert(hex_of(right).len() == 2 * right.len());
    assert(left.len() == right.len());
    assert forall|i: int| 0 <= i < left.len() implies left[i] == right[i] by {
        let even = 2 * i;
        let odd = 2 * i + 1;
        assert(even % 2 == 0 && even / 2 == i && odd % 2 == 1 && odd / 2 == i);
        let a = left[i] as int;
        let b = right[i] as int;
        assert(hex_of(left)[even] == hex_digit(a / 16));
        assert(hex_of(right)[even] == hex_digit(b / 16));
        assert(hex_of(left)[odd] == hex_digit(a % 16));
        assert(hex_of(right)[odd] == hex_digit(b % 16));
        assert(0 <= a / 16 < 16 && 0 <= b / 16 < 16);
        assert(a / 16 == b / 16);
        assert(a % 16 == b % 16);
    }
    assert(left =~= right);
}

/// A part that holds no dash ends where the first dash stands.
proof fn lemma_split_at_dash(left: Seq<char>, left_rest: Seq<char>, right: Seq<char>, right_rest: Seq<
    char,
>)
    requires
        left + left_rest == right + right_rest,
        left_rest.len() > 0,
        right_rest.len() > 0,
        left_rest[0] == '-',
        right_rest[0] == '-',
        forall|i: int| 0 <= i < left.len() ==> left[i] != '-',
        forall|i: int| 0 <= i < right.len() ==> right[i] != '-',
    ensures
        left == right,
        left_rest == right_rest,
{
    let all = left + left_rest;
    let other = right + right_rest;
    assert(all[left.len() as int] == '-');
    assert(other[right.len() as int] == '-');
    if left.len() < right.len() {
        assert(other[left.len() as int] == right[left.len() as int]);
    }
    if right.len() < left.len() {
        assert(all[right.len() as int] == left[right.len() as int]);
    }
    assert(left =~= all.take(left.len() as int));
    assert(right =~= other.take(right.len() as int));
    assert(left_rest =~= all.skip(left.len() as int));
    assert(right_rest =~= other.skip(right.len() as int));
}

/// Sessions with different keys have different cache components.
pub proof fn cache_components_never_collide(left: KeyView, right: KeyView)
    requires
        left.cache_component() == right.cache_component(),
    ensures
        left == right,
{
    reveal_strlit("h");
    reveal_strlit("-w");
    reveal_strlit("-s");
    let (lh, lw, ls) = (
        vstd::utf8::encode_utf8(left.host),
        vstd::utf8::encode_utf8(left.workspace),
        vstd::utf8::encode_utf8(left.session),
    );
    let (rh, rw, rs) = (
        vstd::utf8::encode_utf8(right.host),
        vstd::utf8::encode_utf8(right.workspace),
        vstd::utf8::encode_utf8(right.session),
    );
    lemma_hex_digits(lh);
    lemma_hex_digits(lw);
    lemma_hex_digits(ls);
    lemma_hex_digits(rh);
    lemma_hex_digits(rw);
    lemma_hex_digits(rs);
    let left_tail = "-w"@ + (hex_of(lw) + ("-s"@ + hex_of(ls)));
    let right_tail = "-w"@ + (hex_of(rw) + ("-s"@ + hex_of(rs)));
    assert(left.cache_component().skip(1) =~= hex_of(lh) + left_tail);
    assert(right.cache_component().skip(1) =~= hex_of(rh) + right_tail);
    lemma_split_at_dash(hex_of(lh), left_tail, hex_of(rh), right_tail);
    assert(left_tail.skip(2) =~= hex_of(lw) + ("-s"@ + hex_of(ls)));
    assert(right_tail.skip(2) =~= hex_of(rw) + ("-s"@ + hex_of(rs)));
    lemma_split_at_dash(hex_of(lw), "-s"@ + hex_of(ls), hex_of(rw), "-s"@ + hex_of(rs));
    assert(("-s"@ + hex_of(ls)).skip(2) =~= hex_of(ls));
    assert(("-s"@ + hex_of(rs)).skip(2) =~= hex_of(rs));
    lemma_hex_injective(lh, rh);
    lemma_hex_injective(lw, rw);
    lemma_hex_injective(ls, rs);
    encoding_is_injective(left.host, right.host);
    encoding_is_injective(left.workspace, right.workspace);
    encoding_is_injective(left.session, right.session);
}

/// The component that earlier versions wrote tells hosts and sessions apart, but not workspaces: it is
/// the same for two sessions exactly where their hosts and their ids are.
pub proof fn old_components_leave_the_workspace_out(left: KeyView, right: KeyView)
    ensures
        left.legacy_cache_component() == right.legacy_cache_component() <==> left.host == right.host
            && left.session == right.session,
{
    if left.legacy_cache_component() == right.legacy_cache_component() {
        reveal_strlit("h");
        reveal_strlit("-s");
        let (lh, ls) = (
            vstd::utf8::encode_utf8(left.host),
            vstd::utf8::encode_utf8(left.session),
        );
        let (rh, rs) = (
            vstd::utf8::encode_utf8(right.host),
            vstd::utf8::encode_utf8(right.session),
        );
        lemma_hex_digits(lh);
        lemma_hex_digits(ls);
        lemma_hex_digits(rh);
        lemma_hex_digits(rs);
        let left_tail = "-s"@ + hex_of(ls);
        let right_tail = "-s"@ + hex_of(rs);
        assert(left.legacy_cache_component().skip(1) =~= hex_of(lh) + left_tail);
        assert(right.legacy_cache_component().skip(1) =~= hex_of(rh) + right_tail);
        lemma_split_at_dash(hex_of(lh), left_tail, hex_of(rh), right_tail);
        assert(left_tail.skip(2) =~= hex_of(ls));
        assert(right_tail.skip(2) =~= hex_of(rs));
        lemma_hex_injective(lh, rh);
        lemma_hex_injective(ls, rs);
        encoding_is_injective(left.host, right.host);
        encoding_is_injective(left.session, right.session);
    }
}

/// Sessions with different keys have different names in rmux.
pub proof fn rmux_names_never_collide(left: KeyView, right: KeyView)
    requires
        left.rmux_name() == right.rmux_name(),
    ensures
        left == right,
{
    reveal_strlit("neta-h");
    reveal_strlit("h");
    assert(left.rmux_name().skip(5) =~= left.cache_component());
    assert(right.rmux_name().skip(5) =~= right.cache_component());
    cache_components_never_collide(left, right);
}

/// A name in rmux holds lower-case letters, digits and dashes only, and so does a cache component.
pub proof fn names_are_safe_in_file_names(key: KeyView)
    ensures
        forall|i: int|
            0 <= i < key.rmux_name().len() ==> safe_in_file_names(#[trigger] key.rmux_name()[i]),
        forall|i: int|
            0 <= i < key.cache_component().len() ==> safe_in_file_names(
                #[trigger] key.cache_component()[i],
            ),
{
    reveal_strlit("neta-h");
    reveal_strlit("h");
    reveal_strlit("-w");
    reveal_strlit("-s");
    lemma_hex_digits(vstd::utf8::encode_utf8(key.host));
    lemma_hex_digits(vstd::utf8::encode_utf8(key.workspace));
    lemma_hex_digits(vstd::utf8::encode_utf8(key.session));
}

/// A target together with the host that it belongs to. The target keeps the session id that the
/// Node gave it; only the key is scoped.
#[derive(Debug, Eq)]
pub struct ScopedTarget {
    pub key: SessionKey,
    pub target: Target,
}

/// What a scoped target holds.
#[verifier::ext_equal]
pub struct ScopedView {
    pub key: KeyView,
    pub target: TargetView,
}

impl View for ScopedTarget {
    type V = ScopedView;

    open spec fn view(&self) -> ScopedView {
        ScopedView { key: self.key@, target: self.target@ }
    }
}

impl Clone for ScopedTarget {
    fn clone(&self) -> (copy: Self)
        ensures
            copy == *self,
    {
        ScopedTarget { key: self.key.clone(), target: self.target.clone() }
    }
}

impl PartialEq for ScopedTarget {
    fn eq(&self, other: &Self) -> (same: bool) {
        self.key == other.key && self.target == other.target
    }
}

impl vstd::std_specs::cmp::PartialEqSpecImpl for ScopedTarget {
    open spec fn obeys_eq_spec() -> bool {
        true
    }

    open spec fn eq_spec(&self, other: &Self) -> bool {
        self@ == other@
    }
}

/// The key that a target has on a host.
pub open spec fn key_on(host: Seq<char>, target: TargetView) -> KeyView {
    KeyView { host, workspace: target.workspace_id, session: target.session_id }
}

impl ScopedTarget {
    /// A target on a host; the ids of its workspace and session may not be empty.
    pub fn new(host_id: HostId, target: Target) -> (scoped: Result<ScopedTarget, HostKeyError>)
        ensures
            match scoped {
                Ok(scoped) => {
                    &&& target.workspace_id@.len() > 0
                    &&& target.session_id@.len() > 0
                    &&& scoped.key@ == key_on(host_id@, target@)
                    &&& scoped.key.host_id == host_id
                    &&& scoped.target == target
                },
                Err(error) => (target.workspace_id@.len() == 0 || target.session_id@.len() == 0)
                    && error == HostKeyError::EmptySessionId,
            },
    {
        if target.workspace_id.as_str().is_empty() || target.session_id.as_str().is_empty() {
            return Err(HostKeyError::EmptySessionId);
        }
        let key = SessionKey {
            host_id,
            workspace_id: target.workspace_id.clone(),
            session_id: target.session_id.clone(),
        };
        Ok(ScopedTarget { key, target })
    }

    /// A target on this machine, whose ids are not empty.
    pub fn local(target: Target) -> (scoped: ScopedTarget)
        requires
            target.workspace_id@.len() > 0,
            target.session_id@.len() > 0,
        ensures
            scoped.key@ == key_on("local"@, target@),
            scoped.target == target,
    {
        let key = SessionKey {
            host_id: HostId::local(),
            workspace_id: target.workspace_id.clone(),
            session_id: target.session_id.clone(),
        };
        ScopedTarget { key, target }
    }
}

/// How a host is doing.
#[derive(Debug, PartialEq, Eq)]
pub enum HostStatus {
    Connecting,
    Connected,
    Disconnected { message: String },
}

/// How a host is reached.
#[derive(Debug, PartialEq, Eq)]
pub struct HostTransport {
    pub descriptor_path: String,
    pub local_working_directory: String,
    pub remote: bool,
}

impl Clone for HostTransport {
    fn clone(&self) -> (copy: Self)
        ensures
            copy == *self,
    {
        HostTransport {
            descriptor_path: self.descriptor_path.clone(),
            local_working_directory: self.local_working_directory.clone(),
            remote: self.remote,
        }
    }
}

/// A connection to a Node, and all that is shown of it.
pub struct HostConnection<C> {
    pub client: C,
    pub transport: HostTransport,
    pub status: HostStatus,
    pub snapshot: Option<Snapshot>,
}

/// What happened on a host. Each event names its host, so that late or failing work on one host
/// cannot change another.
#[derive(Clone, Debug)]
pub enum HostUpdate {
    Snapshot { host_id: HostId, snapshot: Snapshot },
    Disconnected { host_id: HostId, message: String },
}

impl HostUpdate {
    /// The host of an event.
    pub open spec fn host(self) -> HostId {
        match self {
            HostUpdate::Snapshot { host_id, .. } => host_id,
            HostUpdate::Disconnected { host_id, .. } => host_id,
        }
    }

    /// The host of an event.
    pub fn host_id(&self) -> (host: &HostId)
        ensures
            *host == self.host(),
    {
        match self {
            HostUpdate::Snapshot { host_id, .. } => host_id,
            HostUpdate::Disconnected { host_id, .. } => host_id,
        }
    }
}

/// Why the list of connections was not changed.
#[derive(Debug, PartialEq, Eq)]
pub enum HostManagerError {
    DuplicateHost(HostId),
    UnknownHost(HostId),
}

impl HostManagerError {
    /// The words that the error is shown with.
    pub fn to_string(&self) -> (text: String)
        ensures
            text@ == (match *self {
                HostManagerError::DuplicateHost(host) => "host already connected: "@ + host@,
                HostManagerError::UnknownHost(host) => "unknown host: "@ + host@,
            }),
    {
        match self {
            HostManagerError::DuplicateHost(host) => concat2(
                "host already connected: ",
                host.as_str(),
            ),
            HostManagerError::UnknownHost(host) => concat2("unknown host: ", host.as_str()),
        }
    }
}

/// The connections to Nodes that one client holds, at most one to a host.
pub struct HostConnectionManager<C> {
    connections: Vec<(HostId, HostConnection<C>)>,
}

/// Where a host stands in a list of connections; the length where it does not.
spec fn host_at<C>(connections: Seq<(HostId, HostConnection<C>)>, host: Seq<char>) -> int {
    crate::seqs::position(connections, of_host(host), 0)
}

/// The connection of a host.
spec fn of_host<C>(host: Seq<char>) -> spec_fn((HostId, HostConnection<C>)) -> bool {
    |entry: (HostId, HostConnection<C>)| entry.0@ == host
}

impl<C> View for HostConnectionManager<C> {
    type V = Map<Seq<char>, HostConnection<C>>;

    /// The connection of each host.
    closed spec fn view(&self) -> Map<Seq<char>, HostConnection<C>> {
        let list = self.connections@;
        Map::new(
            |host: Seq<char>| 0 <= host_at(list, host) < list.len(),
            |host: Seq<char>| list[host_at(list, host)].1,
        )
    }
}

impl<C> Default for HostConnectionManager<C> {
    fn default() -> (manager: Self)
        ensures
            manager.wf(),
            manager@ == Map::<Seq<char>, HostConnection<C>>::empty(),
            manager.entries().len() == 0,
    {
        let manager = HostConnectionManager { connections: Vec::new() };
        assert(manager@ =~= Map::<Seq<char>, HostConnection<C>>::empty());
        manager
    }
}

/// An update as it changes one connection: a snapshot replaces the one before and shows that the
/// host is connected; a disconnection keeps the last snapshot.
pub open spec fn updated<C>(
    before: HostConnection<C>,
    after: HostConnection<C>,
    update: HostUpdate,
) -> bool {
    match update {
        HostUpdate::Snapshot { snapshot, .. } => after == (HostConnection {
            snapshot: Some(snapshot),
            status: HostStatus::Connected,
            ..before
        }),
        HostUpdate::Disconnected { message, .. } => after == (HostConnection {
            status: HostStatus::Disconnected { message },
            ..before
        }),
    }
}

impl<C> HostConnectionManager<C> {
    /// No host is connected twice.
    pub closed spec fn wf(self) -> bool {
        forall|i: int, j: int|
            0 <= i < j < self.connections@.len() ==> self.connections@[i].0@
                != self.connections@[j].0@
    }

    /// The connections in the order in which they were made.
    pub closed spec fn entries(self) -> Seq<(HostId, HostConnection<C>)> {
        self.connections@
    }

    proof fn lemma_at(self, at: int)
        requires
            self.wf(),
            0 <= at < self.connections@.len(),
        ensures
            host_at(self.connections@, self.connections@[at].0@) == at,
            self@.contains_key(self.connections@[at].0@),
            self@[self.connections@[at].0@] == self.connections@[at].1,
    {
        let host = self.connections@[at].0@;
        let wanted = of_host::<C>(host);
        crate::seqs::first_is_position(self.connections@, wanted, 0, at);
    }

    proof fn lemma_absent(self, host: Seq<char>)
        requires
            forall|i: int|
                0 <= i < self.connections@.len() ==> (#[trigger] self.connections@[i]).0@ != host,
        ensures
            !self@.contains_key(host),
    {
        let wanted = of_host::<C>(host);
        crate::seqs::first_is_position(
            self.connections@,
            wanted,
            0,
            self.connections@.len() as int,
        );
    }

    fn index_of(&self, host_id: &HostId) -> (found: Option<usize>)
        requires
            self.wf(),
        ensures
            match found {
                Some(at) => {
                    &&& at < self.connections@.len()
                    &&& self.connections@[at as int].0@ == host_id@
                    &&& self@.contains_key(host_id@)
                    &&& self@[host_id@] == self.connections@[at as int].1
                },
                None => {
                    &&& !self@.contains_key(host_id@)
                    &&& forall|i: int|
                        0 <= i < self.connections@.len() ==> (
                        #[trigger] self.connections@[i]).0@ != host_id@
                },
            },
    {
        let mut at: usize = 0;
        while at < self.connections.len()
            invariant
                self.wf(),
                at <= self.connections@.len(),
                forall|i: int|
                    0 <= i < at ==> (#[trigger] self.connections@[i]).0@ != host_id@,
            decreases self.connections@.len() - at,
        {
            if self.connections[at].0 == *host_id {
                proof {
                    self.lemma_at(at as int);
                }
                return Some(at);
            }
            at = at + 1;
        }
        proof {
            self.lemma_absent(host_id@);
        }
        None
    }

    /// Adds a connection to a host that has none.
    pub fn connect(&mut self, host_id: HostId, client: C, transport: HostTransport) -> (done:
        Result<(), HostManagerError>)
        requires
            old(self).wf(),
        ensures
            final(self).wf(),
            match done {
                Ok(()) => {
                    &&& !old(self)@.contains_key(host_id@)
                    &&& final(self)@ == old(self)@.insert(
                        host_id@,
                        (HostConnection {
                            client,
                            transport,
                            status: HostStatus::Connecting,
                            snapshot: None,
                        }),
                    )
                },
                Err(error) => {
                    &&& old(self)@.contains_key(host_id@)
                    &&& error == HostManagerError::DuplicateHost(host_id)
                    &&& *final(self) == *old(self)
                },
            },
    {
        if let Some(_) = self.index_of(&host_id) {
            return Err(HostManagerError::DuplicateHost(host_id));
        }
        let connection = HostConnection {
            client,
            transport,
            status: HostStatus::Connecting,
            snapshot: None,
        };
        let ghost before = *self;
        self.connections.push((host_id, connection));
        proof {
            let list = self.connections@;
            assert(self.wf());
            let expected = before@.insert(host_id@, connection);
            assert forall|host: Seq<char>| #[trigger]
                self@.dom().contains(host) == expected.dom().contains(host) && (
                self@.dom().contains(host) ==> self@[host] == expected[host]) by {
                if host == host_id@ {
                    self.lemma_at(list.len() - 1);
                } else {
                    let at = host_at(before.connections@, host);
                    let wanted = of_host::<C>(host);
                    crate::seqs::position_is_first(before.connections@, wanted, 0);
                    if before@.contains_key(host) {
                        assert(list[at] == before.connections@[at]);
                        self.lemma_at(at);
                    } else {
                        assert forall|i: int| 0 <= i < list.len() implies (
                        #[trigger] list[i]).0@ != host by {
                            if i < before.connections@.len() {
                                assert(list[i] == before.connections@[i]);
                                assert(!wanted(before.connections@[i]));
                            }
                        }
                        self.lemma_absent(host);
                    }
                }
            }
            assert(self@ =~= expected);
        }
        Ok(())
    }

    /// The connection to a host.
    pub fn get(&self, host_id: &HostId) -> (connection: Option<&HostConnection<C>>)
        requires
            self.wf(),
        ensures
            match connection {
                Some(connection) => self@.contains_key(host_id@) && self@[host_id@] == *connection,
                None => !self@.contains_key(host_id@),
            },
    {
        match self.index_of(host_id) {
            Some(at) => Some(&self.connections[at].1),
            None => None,
        }
    }

    proof fn lemma_replaced(self, after: Self, at: int)
        requires
            self.wf(),
            0 <= at < self.connections@.len(),
            after.connections@.len() == self.connections@.len(),
            after.connections@[at].0 == self.connections@[at].0,
            forall|i: int|
                0 <= i < self.connections@.len() && i != at ==> after.connections@[i]
                    == self.connections@[i],
        ensures
            after.wf(),
            after@ == self@.insert(self.connections@[at].0@, after.connections@[at].1),
    {
        let host_id = self.connections@[at].0@;
        let expected = self@.insert(host_id, after.connections@[at].1);
        assert forall|host: Seq<char>| #[trigger]
            after@.dom().contains(host) == expected.dom().contains(host) && (after@.dom().contains(
                host,
            ) ==> after@[host] == expected[host]) by {
            let wanted = of_host::<C>(host);
            crate::seqs::position_is_first(self.connections@, wanted, 0);
            let p = host_at(self.connections@, host);
            assert forall|i: int| 0 <= i < p implies !#[trigger] wanted(after.connections@[i]) by {
                assert(!wanted(self.connections@[i]));
            }
            crate::seqs::first_is_position(after.connections@, wanted, 0, p);
            self.lemma_at(at);
        }
        assert(after@ =~= expected);
    }

    /// The connection to a host, to be changed.
    pub fn get_mut(&mut self, host_id: &HostId) -> (connection: Option<&mut HostConnection<C>>)
        requires
            old(self).wf(),
        ensures
            final(self).wf(),
            connection is Some == old(self)@.contains_key(host_id@),
            connection matches Some(connection) ==> *connection == old(self)@[host_id@],
            connection matches Some(connection) ==> final(self)@ =~= old(self)@.insert(
                host_id@,
                *final(connection),
            ),
            connection is None ==> *final(self) == *old(self),
    {
        match self.index_of(host_id) {
            Some(at) => {
                let ghost before = *self;
                let connection = &mut self.connections[at].1;
                proof {
                    before.lemma_replaced(*after_borrow(self), at as int);
                }
                Some(connection)
            },
            None => None,
        }
    }

    /// Every host with its connection.
    pub fn hosts(&self) -> (list: Vec<(&HostId, &HostConnection<C>)>)
        ensures
            list@.len() == self.entries().len(),
            forall|i: int|
                0 <= i < list@.len() ==> *(#[trigger] list@[i]).0 == self.entries()[i].0
                    && *list@[i].1 == self.entries()[i].1,
    {
        let mut list: Vec<(&HostId, &HostConnection<C>)> = Vec::new();
        let mut at: usize = 0;
        while at < self.connections.len()
            invariant
                at <= self.connections@.len(),
                list@.len() == at,
                forall|i: int|
                    0 <= i < at ==> *(#[trigger] list@[i]).0 == self.connections@[i].0
                        && *list@[i].1 == self.connections@[i].1,
            decreases self.connections@.len() - at,
        {
            list.push((&self.connections[at].0, &self.connections[at].1));
            at = at + 1;
        }
        list
    }

    /// The entries are the connections: each host once.
    pub proof fn entries_are_the_connections(self)
        requires
            self.wf(),
        ensures
            forall|i: int|
                0 <= i < self.entries().len() ==> self@.contains_key(
                    (#[trigger] self.entries()[i]).0@,
                ) && self@[self.entries()[i].0@] == self.entries()[i].1,
            forall|host: Seq<char>| #[trigger]
                self@.contains_key(host) ==> exists|i: int|
                    0 <= i < self.entries().len() && (#[trigger] self.entries()[i]).0@ == host,
            forall|i: int, j: int|
                0 <= i < j < self.entries().len() ==> (#[trigger] self.entries()[i]).0@ != (
                #[trigger] self.entries()[j]).0@,
    {
        assert forall|i: int| 0 <= i < self.entries().len() implies self@.contains_key(
            (#[trigger] self.entries()[i]).0@,
        ) && self@[self.entries()[i].0@] == self.entries()[i].1 by {
            self.lemma_at(i);
        }
        assert forall|host: Seq<char>| #[trigger] self@.contains_key(host) implies exists|i: int|
            0 <= i < self.entries().len() && (#[trigger] self.entries()[i]).0@ == host by {
            let wanted = of_host::<C>(host);
            crate::seqs::position_is_first(self.connections@, wanted, 0);
            assert(wanted(self.entries()[host_at(self.connections@, host)]));
        }
    }

    /// Takes an event in: it changes the connection of its host, and no other.
    pub fn apply(&mut self, update: HostUpdate) -> (done: Result<(), HostManagerError>)
        requires
            old(self).wf(),
        ensures
            final(self).wf(),
            match done {
                Ok(()) => {
                    &&& old(self)@.contains_key(update.host()@)
                    &&& final(self)@.dom() == old(self)@.dom()
                    &&& updated(
                        old(self)@[update.host()@],
                        final(self)@[update.host()@],
                        update,
                    )
                    &&& forall|host: Seq<char>|
                        host != update.host()@ && old(self)@.contains_key(host) ==> #[trigger]
                        final(self)@[host] == old(self)@[host]
                },
                Err(error) => {
                    &&& !old(self)@.contains_key(update.host()@)
                    &&& error == HostManagerError::UnknownHost(update.host())
                    &&& *final(self) == *old(self)
                },
            },
    {
        let host_id = update.host_id().clone();
        let connection = match self.get_mut(&host_id) {
            Some(connection) => connection,
            None => return Err(HostManagerError::UnknownHost(host_id)),
        };
        match update {
            HostUpdate::Snapshot { snapshot, .. } => {
                connection.snapshot = Some(snapshot);
                connection.status = HostStatus::Connected;
            },
            HostUpdate::Disconnected { message, .. } => {
                connection.status = HostStatus::Disconnected { message };
            },
        }
        assert(self@.dom() =~= old(self)@.dom());
        Ok(())
    }
}

} // verus!
