//! Requests to a Node and what comes back for them.

use vstd::prelude::*;
use vstd::string::*;

use crate::error::{ClientError, Failure, RpcError};
use crate::frames::{drain_frames, drained, MAX_LINE_BYTES, PROTOCOL_VERSION};
use crate::json::{
    as_signed, as_text, json, json_written, jsons, member, member_of, members_of, null,
    number_json, number_value, set_member, signed_of, text_member, text_member_of, text_value,
    encode, written_number, Json,
};
use crate::table::{stands_in, Table};
use crate::text::{decimal, decimal_of, optional};

verus! {

/// What a Node tells without being asked.
#[derive(Clone, Debug)]
pub struct Notification {
    pub method: String,
    pub params: serde_json::Value,
}

/// What to do with one frame.
#[derive(Debug)]
pub enum Dispatch {
    /// The frame is of no use to anyone.
    Ignore,
    Notify(Notification),
    /// The outcome of the request that was sent under this id.
    Reply { id: String, outcome: Result<serde_json::Value, ClientError> },
}

/// What a frame is, over what it holds.
#[verifier::ext_equal]
pub enum Routed {
    Nothing,
    Notification { method: Seq<char>, params: Json },
    Reply { id: Seq<char>, outcome: Result<Json, Failure> },
}

impl View for Dispatch {
    type V = Routed;

    open spec fn view(&self) -> Routed {
        match *self {
            Dispatch::Ignore => Routed::Nothing,
            Dispatch::Notify(notification) => Routed::Notification {
                method: notification.method@,
                params: json(notification.params),
            },
            Dispatch::Reply { id, outcome } => Routed::Reply {
                id: id@,
                outcome: match outcome {
                    Ok(value) => Ok(json(value)),
                    Err(error) => Err(error@),
                },
            },
        }
    }
}

/// The id of a reply: a string, or a number as it is written.
pub open spec fn id_of(id: Json) -> Option<Seq<char>> {
    match id {
        Json::Text(text) => Some(text),
        Json::Number { written, .. } => Some(written),
        _ => None,
    }
}

/// The error that a Node sent, with what is missing filled in.
pub open spec fn rpc_failure(error: Json) -> Failure {
    Failure::Rpc {
        code: match member_of(error, "code"@) {
            Some(code) => match signed_of(code) {
                Some(code) => code,
                None => (-32603) as i64,
            },
            None => (-32603) as i64,
        },
        message: match text_member_of(error, "message"@) {
            Some(message) => message,
            None => "malformed RPC error"@,
        },
        symbol: match member_of(error, "data"@) {
            Some(data) => text_member_of(data, "code"@),
            None => None,
        },
    }
}

/// The member under a key, or null.
pub open spec fn member_or_null(value: Json, key: Seq<char>) -> Json {
    match member_of(value, key) {
        Some(member) => member,
        None => Json::Null,
    }
}

/// A frame without an id is a notification where it names a method; one with an id is a reply.
pub open spec fn routed(frame: Json) -> Routed {
    match member_of(frame, "id"@) {
        None => match text_member_of(frame, "method"@) {
            Some(method) => Routed::Notification {
                method,
                params: member_or_null(frame, "params"@),
            },
            None => Routed::Nothing,
        },
        Some(id) => match id_of(id) {
            Some(id) => Routed::Reply {
                id,
                outcome: match member_of(frame, "error"@) {
                    Some(error) => Err(rpc_failure(error)),
                    None => Ok(member_or_null(frame, "result"@)),
                },
            },
            None => Routed::Nothing,
        },
    }
}

fn copy_member(value: &serde_json::Value, key: &str) -> (member_value: serde_json::Value)
    ensures
        json(member_value) == member_or_null(json(*value), key@),
{
    match member(value, key) {
        Some(found) => found.clone(),
        None => null(),
    }
}

fn rpc_error(error: &serde_json::Value) -> (client_error: ClientError)
    ensures
        client_error@ == rpc_failure(json(*error)),
{
    let code: i64 = match member(error, "code") {
        Some(code) => match as_signed(code) {
            Some(code) => code,
            None => -32603,
        },
        None => -32603,
    };
    let message = match text_member(error, "message") {
        Some(message) => message.to_owned(),
        None => "malformed RPC error".to_owned(),
    };
    let symbol = match member(error, "data") {
        Some(data) => match text_member(data, "code") {
            Some(symbol) => Some(symbol.to_owned()),
            None => None,
        },
        None => None,
    };
    ClientError::Rpc(RpcError { code, symbol, message })
}

/// Decides what to do with one frame.
pub fn dispatch(frame: &serde_json::Value) -> (action: Dispatch)
    ensures
        action@ == routed(json(*frame)),
{
    let id = match member(frame, "id") {
        Some(id) => id,
        None => {
            return match text_member(frame, "method") {
                Some(method) => Dispatch::Notify(
                    Notification {
                        method: method.to_owned(),
                        params: copy_member(frame, "params"),
                    },
                ),
                None => Dispatch::Ignore,
            };
        },
    };
    let id = match as_text(id) {
        Some(id) => id.to_owned(),
        None => match written_number(id) {
            Some(id) => id,
            None => return Dispatch::Ignore,
        },
    };
    let outcome = match member(frame, "error") {
        Some(error) => Err(rpc_error(error)),
        None => Ok(copy_member(frame, "result")),
    };
    Dispatch::Reply { id, outcome }
}

/// What is to be done with each frame.
pub open spec fn dispatches(actions: Seq<Dispatch>) -> Seq<Routed> {
    actions.map_values(|action: Dispatch| action@)
}

/// Takes bytes in that have arrived from a Node and decides on each frame that they complete.
/// After an error nothing more can be made of the connection.
pub fn receive(buffer: &mut Vec<u8>, chunk: &[u8]) -> (actions: Result<Vec<Dispatch>, ClientError>)
    ensures
        final(buffer)@ == drained(old(buffer)@ + chunk@).rest,
        match actions {
            Ok(actions) => {
                &&& drained(old(buffer)@ + chunk@).failure is None
                &&& dispatches(actions@) == drained(old(buffer)@ + chunk@).frames.map_values(
                    |frame: Json| routed(frame),
                )
            },
            Err(error) => drained(old(buffer)@ + chunk@).failure == Some(error@),
        },
{
    buffer.extend_from_slice(chunk);
    assert(buffer@ =~= old(buffer)@ + chunk@);
    let ghost arrived = buffer@;
    let frames = match drain_frames(buffer) {
        Ok(frames) => frames,
        Err(error) => return Err(error),
    };
    let mut actions: Vec<Dispatch> = Vec::new();
    let mut at: usize = 0;
    while at < frames.len()
        invariant
            at <= frames@.len(),
            actions@.len() == at,
            jsons(frames@) == drained(arrived).frames,
            forall|i: int| 0 <= i < at ==> (#[trigger] actions@[i])@ == routed(json(frames@[i])),
        decreases frames@.len() - at,
    {
        actions.push(dispatch(&frames[at]));
        at = at + 1;
    }
    assert(dispatches(actions@) =~= drained(arrived).frames.map_values(
        |frame: Json| routed(frame),
    )) by {
        assert forall|i: int| 0 <= i < frames@.len() implies #[trigger] drained(arrived).frames[i]
            == json(frames@[i]) by {
            assert(jsons(frames@)[i] == json(frames@[i]));
        }
    }
    Ok(actions)
}

/// What is known of the requests on a connection: who waits under each id, the number of the next
/// request, and whether the connection has ended.
#[verifier::ext_equal]
#[verifier::reject_recursive_types(S)]
pub struct Ledger<S> {
    pub waiting: Map<Seq<char>, S>,
    pub next_id: u64,
    pub closed: bool,
}

/// What can happen on a connection.
pub enum Step<S> {
    /// A request is made, and gets an id unless the connection has ended.
    Begin { sender: S, own: Option<Seq<char>> },
    /// A reply comes for an id, or the request is given up, and whoever waited is given it.
    Settle { id: Seq<char>, given: Option<S> },
    /// The connection ends, and all who waited are told.
    Close { told: Seq<S> },
}

impl<S> Ledger<S> {
    /// Nothing has been asked yet.
    pub open spec fn fresh() -> Ledger<S> {
        Ledger { waiting: Map::empty(), next_id: 1, closed: false }
    }

    /// What a step makes of what is known.
    pub open spec fn stepped(self, after: Ledger<S>, step: Step<S>) -> bool {
        match step {
            Step::Begin { sender, own } => {
                let id = decimal_of(self.next_id as nat);
                &&& own == if self.closed {
                    None
                } else {
                    Some(id)
                }
                &&& after == (Ledger {
                    waiting: if self.closed {
                        self.waiting
                    } else {
                        self.waiting.insert(id, sender)
                    },
                    next_id: if self.next_id == u64::MAX {
                        0
                    } else {
                        (self.next_id + 1) as u64
                    },
                    ..self
                })
            },
            Step::Settle { id, given } => {
                &&& given == if self.waiting.contains_key(id) {
                    Some(self.waiting[id])
                } else {
                    None
                }
                &&& after == (Ledger { waiting: self.waiting.remove(id), ..self })
            },
            Step::Close { told } => {
                &&& told.len() == self.waiting.dom().len()
                &&& forall|id: Seq<char>| #[trigger]
                    self.waiting.contains_key(id) ==> told.contains(self.waiting[id])
                &&& forall|i: int|
                    0 <= i < told.len() ==> stands_in(self.waiting, #[trigger] told[i])
                &&& after == (Ledger { waiting: Map::empty(), closed: true, ..self })
            },
        }
    }
}

/// The requests that wait for a reply, each under the id that it was sent with. `S` is whatever
/// hands a reply to the one who asked.
pub struct Pending<S> {
    waiting: Table<S>,
    next_id: u64,
    closed: bool,
}

impl<S> Pending<S> {
    pub closed spec fn wf(self) -> bool {
        self.waiting.wf()
    }

    /// What is known of the requests.
    pub closed spec fn ledger(self) -> Ledger<S> {
        Ledger { waiting: self.waiting@, next_id: self.next_id, closed: self.closed }
    }

    pub fn new() -> (pending: Self)
        ensures
            pending.wf(),
            pending.ledger() == Ledger::<S>::fresh(),
    {
        Pending { waiting: Table::new(), next_id: 1, closed: false }
    }

    /// Enters a request and returns its id, unless the connection has ended.
    pub fn begin(&mut self, sender: S) -> (id: Result<String, ClientError>)
        requires
            old(self).wf(),
        ensures
            final(self).wf(),
            match id {
                Ok(id) => old(self).ledger().stepped(
                    final(self).ledger(),
                    Step::Begin { sender, own: Some(id@) },
                ),
                Err(error) => error@ == Failure::Closed && old(self).ledger().stepped(
                    final(self).ledger(),
                    Step::Begin { sender, own: None },
                ),
            },
    {
        let id = decimal(self.next_id);
        self.next_id = if self.next_id == u64::MAX {
            0
        } else {
            self.next_id + 1
        };
        if self.closed {
            return Err(ClientError::Closed);
        }
        self.waiting.insert(&id, sender);
        Ok(id)
    }

    /// Takes out the one who waits under an id: a reply has come, or the request was given up.
    pub fn settle(&mut self, id: &str) -> (sender: Option<S>)
        requires
            old(self).wf(),
        ensures
            final(self).wf(),
            old(self).ledger().stepped(
                final(self).ledger(),
                Step::Settle { id: id@, given: sender },
            ),
    {
        self.waiting.remove(id)
    }

    /// Ends the connection and returns everyone who still waited.
    pub fn close(&mut self) -> (senders: Vec<S>)
        requires
            old(self).wf(),
        ensures
            final(self).wf(),
            old(self).ledger().stepped(final(self).ledger(), Step::Close { told: senders@ }),
    {
        self.closed = true;
        self.waiting.take_all()
    }
}

/// What is known before and after each of some steps, from a connection on which nothing has been
/// asked yet. There are fewer of them than there are numbers for requests.
pub open spec fn is_run<S>(states: Seq<Ledger<S>>, steps: Seq<Step<S>>) -> bool {
    &&& steps.len() < u64::MAX
    &&& states.len() == steps.len() + 1
    &&& states[0] == Ledger::<S>::fresh()
    &&& forall|k: int| 0 <= k < steps.len() ==> (#[trigger] states[k]).stepped(states[k + 1], steps[k])
}

/// Whether a step makes a request under an id.
pub open spec fn begins<S>(step: Step<S>, id: Seq<char>) -> bool {
    step matches Step::Begin { own: Some(own), .. } && own == id
}

/// Whether nobody waits under an id any more after a step.
pub open spec fn ends<S>(step: Step<S>, id: Seq<char>) -> bool {
    match step {
        Step::Settle { id: other, .. } => other == id,
        Step::Close { .. } => true,
        Step::Begin { .. } => false,
    }
}

/// Whether the request that step `i` made under an id waits for its reply before step `k`.
pub open spec fn waits<S>(steps: Seq<Step<S>>, i: int, k: int, id: Seq<char>) -> bool {
    &&& 0 <= i < k
    &&& begins(steps[i], id)
    &&& forall|m: int| i < m < k ==> !ends(#[trigger] steps[m], id)
}

/// Whoever made the request of a step.
pub open spec fn asker<S>(step: Step<S>) -> S {
    match step {
        Step::Begin { sender, .. } => sender,
        _ => arbitrary(),
    }
}

proof fn lemma_numbers<S>(states: Seq<Ledger<S>>, steps: Seq<Step<S>>, k: int)
    requires
        is_run(states, steps),
        0 <= k <= steps.len(),
    ensures
        1 <= states[k].next_id <= k + 1,
        forall|i: int, id: Seq<char>|
            0 <= i < k && #[trigger] begins(steps[i], id) ==> id == decimal_of(
                states[i].next_id as nat,
            ) && states[i].next_id < states[k].next_id,
    decreases k,
{
    if k > 0 {
        lemma_numbers(states, steps, k - 1);
        assert(states[k - 1].stepped(states[k], steps[k - 1]));
    }
}

proof fn lemma_waiting<S>(states: Seq<Ledger<S>>, steps: Seq<Step<S>>, k: int, id: Seq<char>)
    requires
        is_run(states, steps),
        0 <= k <= steps.len(),
    ensures
        states[k].waiting.contains_key(id) <==> exists|i: int| #[trigger] waits(steps, i, k, id),
        forall|i: int| #[trigger]
            waits(steps, i, k, id) ==> states[k].waiting[id] == asker(steps[i]),
    decreases k,
{
    if k > 0 {
        let before = k - 1;
        lemma_waiting(states, steps, before, id);
        lemma_numbers(states, steps, before);
        assert(states[before].stepped(states[k], steps[before]));
        if begins(steps[before], id) {
            assert(waits(steps, before, k, id));
            assert forall|i: int| #[trigger] waits(steps, i, k, id) implies i == before by {
                if i < before {
                    assert(begins(steps[i], id));
                    ids_never_collide(states[i].next_id, states[before].next_id);
                }
            }
        } else {
            assert forall|i: int| #[trigger] waits(steps, i, k, id) implies waits(
                steps,
                i,
                before,
                id,
            ) && !ends(steps[before], id) by {
                assert(i != before);
                assert(!ends(steps[before], id));
            }
            if !ends(steps[before], id) {
                assert forall|i: int| #[trigger] waits(steps, i, before, id) implies waits(
                    steps,
                    i,
                    k,
                    id,
                ) by {}
                if states[before].waiting.contains_key(id) {
                    let i = choose|i: int| waits(steps, i, before, id);
                    assert(waits(steps, i, k, id));
                }
            }
        }
    }
}

/// However many requests wait at once, and in whatever order their replies come, a reply reaches the
/// request that was made under its id, and no other: requests have different ids.
pub proof fn a_reply_reaches_its_own_request<S>(
    states: Seq<Ledger<S>>,
    steps: Seq<Step<S>>,
    k: int,
    id: Seq<char>,
    given: Option<S>,
)
    requires
        is_run(states, steps),
        0 <= k < steps.len(),
        steps[k] == (Step::Settle { id, given }),
    ensures
        given is Some <==> exists|i: int| #[trigger] waits(steps, i, k, id),
        forall|i: int| #[trigger] waits(steps, i, k, id) ==> given == Some(asker(steps[i])),
        forall|i: int, j: int|
            #![trigger begins(steps[i], id), begins(steps[j], id)]
            0 <= i < k && 0 <= j < k && begins(steps[i], id) && begins(steps[j], id) ==> i == j,
{
    lemma_waiting(states, steps, k, id);
    assert(states[k].stepped(states[k + 1], steps[k]));
    assert forall|i: int, j: int|
        #![trigger begins(steps[i], id), begins(steps[j], id)]
        0 <= i < k && 0 <= j < k && begins(steps[i], id) && begins(steps[j], id) implies i == j by {
        if i < j {
            lemma_numbers(states, steps, j);
            lemma_numbers(states, steps, k);
            ids_never_collide(states[i].next_id, states[j].next_id);
        } else if j < i {
            lemma_numbers(states, steps, i);
            lemma_numbers(states, steps, k);
            ids_never_collide(states[i].next_id, states[j].next_id);
        }
    }
}

/// Whether someone waits for a reply before step `k`.
pub open spec fn is_waiting<S>(steps: Seq<Step<S>>, k: int, sender: S) -> bool {
    exists|i: int, id: Seq<char>| #[trigger] waits(steps, i, k, id) && asker(steps[i]) == sender
}

/// When the connection ends, everyone who waits is told, and nobody else.
pub proof fn the_end_is_told_to_all_who_wait<S>(
    states: Seq<Ledger<S>>,
    steps: Seq<Step<S>>,
    k: int,
    told: Seq<S>,
    sender: S,
)
    requires
        is_run(states, steps),
        0 <= k < steps.len(),
        steps[k] == (Step::Close { told }),
    ensures
        told.contains(sender) <==> is_waiting(steps, k, sender),
{
    let before = states[k];
    assert(before.stepped(states[k + 1], steps[k]));
    if is_waiting(steps, k, sender) {
        let (i, id) = choose|i: int, id: Seq<char>| #[trigger]
            waits(steps, i, k, id) && asker(steps[i]) == sender;
        lemma_waiting(states, steps, k, id);
        assert(before.waiting.contains_key(id));
    }
    if told.contains(sender) {
        let n = choose|n: int| 0 <= n < told.len() && told[n] == sender;
        assert(stands_in(before.waiting, told[n]));
        let id = choose|id: Seq<char>| #[trigger]
            before.waiting.contains_key(id) && before.waiting[id] == sender;
        lemma_waiting(states, steps, k, id);
        let i = choose|i: int| waits(steps, i, k, id);
        assert(waits(steps, i, k, id) && asker(steps[i]) == sender);
    }
}

/// After the connection has ended no request is made: it gets no id, so nothing is sent. Nor does a
/// reply reach anyone.
pub proof fn nothing_follows_the_end<S>(
    states: Seq<Ledger<S>>,
    steps: Seq<Step<S>>,
    end: int,
    k: int,
)
    requires
        is_run(states, steps),
        0 <= end < k < steps.len(),
        steps[end] is Close,
    ensures
        states[k].closed,
        states[k].waiting == Map::<Seq<char>, S>::empty(),
        match steps[k] {
            Step::Begin { own, .. } => own is None,
            Step::Settle { given, .. } => given is None,
            Step::Close { told } => told.len() == 0,
        },
    decreases k,
{
    assert(states[k - 1].stepped(states[k], steps[k - 1]));
    if k - 1 > end {
        nothing_follows_the_end(states, steps, end, k - 1);
        assert(states[k].waiting =~= Map::empty());
    }
    assert(states[k].stepped(states[k + 1], steps[k]));
}

proof fn lemma_decimal_injective(left: nat, right: nat)
    requires
        decimal_of(left) == decimal_of(right),
    ensures
        left == right,
    decreases left,
{
    let a = decimal_of(left);
    let b = decimal_of(right);
    lemma_decimal_length(left);
    lemma_decimal_length(right);
    assert(a.last() == b.last());
    if left < 10 {
        assert(right < 10);
    } else {
        assert(right >= 10);
        assert(a.drop_last() =~= decimal_of(left / 10));
        assert(b.drop_last() =~= decimal_of(right / 10));
        lemma_decimal_injective(left / 10, right / 10);
    }
}

proof fn lemma_decimal_length(value: nat)
    ensures
        decimal_of(value).len() >= 1,
        value < 10 <==> decimal_of(value).len() == 1,
        decimal_of(value).last() == crate::text::digit(value % 10),
    decreases value,
{
    if value >= 10 {
        lemma_decimal_length(value / 10);
    }
}

/// Two requests under different numbers have different ids, so a reply to one never reaches the
/// other.
pub proof fn ids_never_collide(left: u64, right: u64)
    requires
        decimal_of(left as nat) == decimal_of(right as nat),
    ensures
        left == right,
{
    lemma_decimal_injective(left as nat, right as nat);
}

/// A request as it is sent, before the line feed.
pub open spec fn request_json(id: Seq<char>, method: Seq<char>, params: Json) -> Json {
    Json::Members(
        map![
            "jsonrpc"@ => Json::Text("2.0"@),
            "id"@ => Json::Text(id),
            "method"@ => Json::Text(method),
            "params"@ => params,
        ],
    )
}

/// The bytes of a request, unless there are too many of them.
pub fn request_bytes(id: &str, method: &str, params: serde_json::Value) -> (bytes: Result<
    Vec<u8>,
    ClientError,
>)
    ensures
        match (json_written(request_json(id@, method@, json(params))), bytes) {
            (Ok(written), Ok(bytes)) => bytes@ == written && written.len() <= MAX_LINE_BYTES,
            (Ok(written), Err(error)) => written.len() > MAX_LINE_BYTES && error@
                == Failure::Protocol("request exceeds 8 MiB"@),
            (Err(words), Err(error)) => error@ == Failure::Protocol(words),
            (Err(_), Ok(_)) => false,
        },
{
    let mut request = null();
    set_member(&mut request, "jsonrpc", text_value("2.0"));
    set_member(&mut request, "id", text_value(id));
    set_member(&mut request, "method", text_value(method));
    set_member(&mut request, "params", params);
    assert(members_of(json(request)) =~= members_of(request_json(id@, method@, json(params))));
    match encode(&request) {
        Ok(bytes) => if bytes.len() > MAX_LINE_BYTES {
            Err(ClientError::Protocol("request exceeds 8 MiB".to_owned()))
        } else {
            Ok(bytes)
        },
        Err(error) => Err(ClientError::Protocol(error)),
    }
}

/// What is sent with `hello`.
pub fn hello_params(token: &str) -> (params: serde_json::Value)
    ensures
        json(params) == Json::Members(
            map![
                "token"@ => Json::Text(token@),
                "client"@ => Json::Text("desktop"@),
                "protocolVersion"@ => number_json(PROTOCOL_VERSION),
            ],
        ),
{
    let mut params = null();
    set_member(&mut params, "token", text_value(token));
    set_member(&mut params, "client", text_value("desktop"));
    set_member(&mut params, "protocolVersion", number_value(PROTOCOL_VERSION));
    assert(members_of(json(params)) =~= map![
        "token"@ => Json::Text(token@),
        "client"@ => Json::Text("desktop"@),
        "protocolVersion"@ => number_json(PROTOCOL_VERSION),
    ]);
    params
}

/// One text under one key.
pub open spec fn single_text(key: Seq<char>, text: Seq<char>) -> Json {
    Json::Members(map![key => Json::Text(text)])
}

fn single(key: &str, text: &str) -> (params: serde_json::Value)
    ensures
        json(params) == single_text(key@, text@),
{
    let mut params = null();
    set_member(&mut params, key, text_value(text));
    params
}

/// What is sent with `workspace.open`.
pub fn open_workspace_params(path: &str) -> (params: serde_json::Value)
    ensures
        json(params) == single_text("path"@, path@),
{
    single("path", path)
}

/// What is sent with `missions.get`.
pub fn mission_detail_params(mission_id: &str) -> (params: serde_json::Value)
    ensures
        json(params) == single_text("missionId"@, mission_id@),
{
    single("missionId", mission_id)
}

/// What is sent with `conversation.untail`.
pub fn untail_params(session_id: &str) -> (params: serde_json::Value)
    ensures
        json(params) == single_text("sessionId"@, session_id@),
{
    single("sessionId", session_id)
}

/// What is sent with `snapshot`.
pub fn snapshot_params() -> (params: serde_json::Value)
    ensures
        json(params) == Json::Members(map!["windowDays"@ => number_json(14)]),
{
    let mut params = null();
    set_member(&mut params, "windowDays", number_value(14));
    params
}

/// Members with a cursor, where there is one.
pub open spec fn with_cursor(members: Map<Seq<char>, Json>, cursor: Option<Seq<char>>) -> Json {
    match cursor {
        Some(cursor) => Json::Members(members.insert("cursor"@, Json::Text(cursor))),
        None => Json::Members(members),
    }
}

/// What is sent with `missions.list`, without the cursor.
pub open spec fn mission_list_members(workspace_id: Seq<char>) -> Map<Seq<char>, Json> {
    map!["workspaceId"@ => Json::Text(workspace_id), "limit"@ => number_json(50)]
}

/// What is sent with `missions.list`.
pub fn mission_list_params(workspace_id: &str, cursor: &Option<String>) -> (params:
    serde_json::Value)
    ensures
        json(params) == with_cursor(mission_list_members(workspace_id@), optional(*cursor)),
{
    let mut params = null();
    set_member(&mut params, "workspaceId", text_value(workspace_id));
    set_member(&mut params, "limit", number_value(50));
    assert(members_of(json(params)) =~= mission_list_members(workspace_id@));
    if let Some(cursor) = cursor {
        set_member(&mut params, "cursor", text_value(cursor));
    }
    params
}

/// What is sent with `conversation.tail`, without the cursor.
pub open spec fn tail_members(session_id: Seq<char>) -> Map<Seq<char>, Json> {
    map![
        "sessionId"@ => Json::Text(session_id),
        "limit"@ => number_json(50),
        "direction"@ => Json::Text("backward"@),
    ]
}

/// What is sent with `conversation.tail`.
pub fn tail_params(session_id: &str, cursor: &Option<String>) -> (params: serde_json::Value)
    ensures
        json(params) == with_cursor(tail_members(session_id@), optional(*cursor)),
{
    let mut params = null();
    set_member(&mut params, "sessionId", text_value(session_id));
    set_member(&mut params, "limit", number_value(50));
    set_member(&mut params, "direction", text_value("backward"));
    assert(members_of(json(params)) =~= tail_members(session_id@));
    if let Some(cursor) = cursor {
        set_member(&mut params, "cursor", text_value(cursor));
    }
    params
}

/// A request for a first page says nothing of a cursor; one for a later page carries it.
pub proof fn optional_cursors_are_omitted(
    workspace_id: Seq<char>,
    session_id: Seq<char>,
    cursor: Option<Seq<char>>,
)
    ensures
        text_member_of(with_cursor(mission_list_members(workspace_id), cursor), "cursor"@)
            == cursor,
        text_member_of(with_cursor(tail_members(session_id), cursor), "cursor"@) == cursor,
        cursor is None ==> member_of(
            with_cursor(mission_list_members(workspace_id), cursor),
            "cursor"@,
        ) is None && member_of(with_cursor(tail_members(session_id), cursor), "cursor"@) is None,
{
    reveal_strlit("cursor");
    reveal_strlit("workspaceId");
    reveal_strlit("sessionId");
    reveal_strlit("limit");
    reveal_strlit("direction");
    assert("cursor"@.len() == 6);
    assert("workspaceId"@.len() == 11);
    assert("sessionId"@.len() == 9);
    assert("limit"@.len() == 5);
    assert("direction"@.len() == 9);
}

} // verus!
