//! The steps by which a connection is made, without the steps themselves.
//!
//! Whoever drives one of these machines performs the action that it asks for and hands back what
//! happened.

use vstd::prelude::*;
use vstd::string::*;

use crate::error::{shown, ClientError, Failure};
use crate::frames::PROTOCOL_VERSION;
use crate::remote::{descriptor_reply, reply_of, Descriptor, DescriptorReply};
use crate::text::{concat2, decimal, decimal_of};

verus! {

/// The words for a Node that speaks another protocol.
pub open spec fn other_protocol(who: Seq<char>, version: u64) -> Failure {
    Failure::Protocol(
        who + " speaks protocol "@ + decimal_of(version as nat) + ", this client speaks "@
            + decimal_of(PROTOCOL_VERSION as nat),
    )
}

/// Accepts the protocol that this client speaks.
pub fn check_protocol(who: &str, version: u64) -> (checked: Result<(), ClientError>)
    ensures
        match checked {
            Ok(()) => version == PROTOCOL_VERSION,
            Err(error) => version != PROTOCOL_VERSION && error@ == other_protocol(who@, version),
        },
{
    if version == PROTOCOL_VERSION {
        return Ok(());
    }
    let mut words = who.to_owned();
    words.append(" speaks protocol ");
    words.append(&decimal(version));
    words.append(", this client speaks ");
    words.append(&decimal(PROTOCOL_VERSION));
    Err(ClientError::Protocol(words))
}

/// What a Node says of itself once it accepted the token of the client.
#[derive(Debug)]
pub struct HelloResult {
    pub protocol_version: u64,
    pub node_version: String,
    pub pid: u32,
}

impl HelloResult {
    /// Accepts a Node that speaks the protocol of this client.
    pub fn check(&self) -> (checked: Result<(), ClientError>)
        ensures
            match checked {
                Ok(()) => self.protocol_version == PROTOCOL_VERSION,
                Err(error) => self.protocol_version != PROTOCOL_VERSION && error@
                    == other_protocol("Neta Node"@, self.protocol_version),
            },
    {
        check_protocol("Neta Node", self.protocol_version)
    }
}

impl Descriptor {
    /// Accepts the descriptor of a Node that speaks the protocol of this client.
    pub fn check(&self) -> (checked: Result<(), ClientError>)
        ensures
            match checked {
                Ok(()) => self.protocol_version == PROTOCOL_VERSION,
                Err(error) => self.protocol_version != PROTOCOL_VERSION && error@
                    == other_protocol("Neta Node descriptor"@, self.protocol_version),
            },
    {
        check_protocol("Neta Node descriptor", self.protocol_version)
    }
}

/// What to do next to reach the Node on this machine.
pub enum LocalAction {
    /// Read the descriptor and try it.
    Attempt,
    /// Start the Node.
    Start,
    /// Wait a little.
    Sleep,
    Fail(ClientError),
}

/// What happened on the way to the Node on this machine.
pub enum LocalEvent {
    /// There was no descriptor.
    Missing,
    /// The descriptor was tried, and this came of it.
    Failed(ClientError),
    Started,
    Slept,
}

/// An error that another try may mend.
pub open spec fn passing(failure: Failure) -> bool {
    failure is Closed || failure is Unavailable
}

/// The way to the Node on this machine.
pub struct LocalConnect {
    /// Whether the Node has been started.
    pub spawned: bool,
}

/// What a local action is.
pub enum LocalStep {
    Attempt,
    Start,
    Sleep,
    Fail(Failure),
}

impl View for LocalAction {
    type V = LocalStep;

    open spec fn view(&self) -> LocalStep {
        match *self {
            LocalAction::Attempt => LocalStep::Attempt,
            LocalAction::Start => LocalStep::Start,
            LocalAction::Sleep => LocalStep::Sleep,
            LocalAction::Fail(error) => LocalStep::Fail(error@),
        }
    }
}

/// Wait, unless the time is up.
pub open spec fn wait_or_fail(neta_dir: Seq<char>, expired: bool) -> LocalStep {
    if expired {
        LocalStep::Fail(
            Failure::Unavailable("timed out connecting to the Neta Node in "@ + neta_dir),
        )
    } else {
        LocalStep::Sleep
    }
}

impl LocalConnect {
    /// What follows an event: an error that no other try can mend ends the way; the first miss
    /// starts the Node; after that the descriptor is tried again and again until the time is up.
    pub open spec fn step(self, event: LocalEvent, neta_dir: Seq<char>, expired: bool) -> LocalStep {
        let missed = if self.spawned {
            wait_or_fail(neta_dir, expired)
        } else {
            LocalStep::Start
        };
        match event {
            LocalEvent::Missing => missed,
            LocalEvent::Failed(error) => if passing(error@) {
                missed
            } else {
                LocalStep::Fail(error@)
            },
            LocalEvent::Started => wait_or_fail(neta_dir, expired),
            LocalEvent::Slept => LocalStep::Attempt,
        }
    }

    pub fn new() -> (way: Self)
        ensures
            !way.spawned,
    {
        LocalConnect { spawned: false }
    }

    /// Takes an event in and says what to do next.
    pub fn next(&mut self, event: LocalEvent, neta_dir: &str, expired: bool) -> (action: LocalAction)
        ensures
            action@ == old(self).step(event, neta_dir@, expired),
            final(self).spawned == (old(self).spawned || action@ is Start),
    {
        let missed: bool = match event {
            LocalEvent::Missing => true,
            LocalEvent::Failed(error) => match error {
                ClientError::Closed => true,
                ClientError::Unavailable(_) => true,
                _ => return LocalAction::Fail(error),
            },
            LocalEvent::Started => false,
            LocalEvent::Slept => return LocalAction::Attempt,
        };
        if missed && !self.spawned {
            self.spawned = true;
            return LocalAction::Start;
        }
        if expired {
            LocalAction::Fail(
                ClientError::Unavailable(
                    concat2("timed out connecting to the Neta Node in ", neta_dir),
                ),
            )
        } else {
            LocalAction::Sleep
        }
    }
}

/// The Node on this machine is started at most once on one way: after it was, no event makes the
/// machine ask for it again.
pub proof fn the_local_node_starts_at_most_once(
    way: LocalConnect,
    event: LocalEvent,
    neta_dir: Seq<char>,
    expired: bool,
)
    requires
        way.spawned,
    ensures
        !(way.step(event, neta_dir, expired) is Start),
{
}

/// A refusal ends the way at once: a Node that answers with an error is never started anew.
pub proof fn a_refusal_is_returned_without_starting(
    way: LocalConnect,
    error: ClientError,
    neta_dir: Seq<char>,
    expired: bool,
)
    requires
        error is Rpc || error is Protocol || error is Configuration,
    ensures
        way.step(LocalEvent::Failed(error), neta_dir, expired) == LocalStep::Fail(error@),
{
}

/// How far the way to a remote Node has come.
pub enum RemotePhase {
    /// The descriptor is read for the first time.
    Reading,
    /// The launcher is looked for, to start the Node for the first time.
    Launching,
    /// The Node was started; its descriptor is awaited.
    Awaiting,
    /// The socket is forwarded and tried.
    Trying,
    /// The first try failed with this error; the launcher is looked for, to ask whether the Node
    /// runs.
    Doubting(ClientError),
    /// The Node is asked whether it runs.
    Probing(ClientError),
    /// The Node was started anew; its descriptor is awaited.
    Reviving(ClientError),
    /// The socket is forwarded and tried for the last time.
    Retrying,
    Ended,
}

/// What to do next to reach a remote Node.
pub enum RemoteAction {
    ReadDescriptor,
    /// Find a launcher on the remote machine.
    Discover,
    Start,
    Sleep,
    /// Forward the socket of the descriptor that was read last, and try it.
    Connect,
    /// Ask whether the Node runs.
    Probe,
    Fail(ClientError),
}

/// What happened on the way to a remote Node. An outside failure that is not listed ends the way
/// with its own error.
pub enum RemoteEvent {
    Begun,
    /// A descriptor was read, with this protocol; or there is none.
    Descriptor(Option<u64>),
    /// A launcher is at hand.
    Launcher,
    Started,
    Slept,
    /// The Node could not be reached through the descriptor.
    Refused(ClientError),
    /// Whether the Node runs.
    Live(bool),
}

/// What a remote phase is.
pub enum RemoteStage {
    Reading,
    Launching,
    Awaiting,
    Trying,
    Doubting(Failure),
    Probing(Failure),
    Reviving(Failure),
    Retrying,
    Ended,
}

/// What a remote action is.
pub enum RemoteStep {
    ReadDescriptor,
    Discover,
    Start,
    Sleep,
    Connect,
    Probe,
    Fail(Failure),
}

impl View for RemotePhase {
    type V = RemoteStage;

    open spec fn view(&self) -> RemoteStage {
        match *self {
            RemotePhase::Reading => RemoteStage::Reading,
            RemotePhase::Launching => RemoteStage::Launching,
            RemotePhase::Awaiting => RemoteStage::Awaiting,
            RemotePhase::Trying => RemoteStage::Trying,
            RemotePhase::Doubting(error) => RemoteStage::Doubting(error@),
            RemotePhase::Probing(error) => RemoteStage::Probing(error@),
            RemotePhase::Reviving(error) => RemoteStage::Reviving(error@),
            RemotePhase::Retrying => RemoteStage::Retrying,
            RemotePhase::Ended => RemoteStage::Ended,
        }
    }
}

impl View for RemoteAction {
    type V = RemoteStep;

    open spec fn view(&self) -> RemoteStep {
        match *self {
            RemoteAction::ReadDescriptor => RemoteStep::ReadDescriptor,
            RemoteAction::Discover => RemoteStep::Discover,
            RemoteAction::Start => RemoteStep::Start,
            RemoteAction::Sleep => RemoteStep::Sleep,
            RemoteAction::Connect => RemoteStep::Connect,
            RemoteAction::Probe => RemoteStep::Probe,
            RemoteAction::Fail(error) => RemoteStep::Fail(error@),
        }
    }
}

/// The end of the way, with an error.
pub open spec fn ended(failure: Failure) -> (RemoteStage, RemoteStep) {
    (RemoteStage::Ended, RemoteStep::Fail(failure))
}

/// What follows an event on the way to a remote Node. An event that does not belong to the stage
/// ends the way as closed.
pub open spec fn remote_step(
    stage: RemoteStage,
    event: RemoteEvent,
    launcher_known: bool,
    expired: bool,
) -> (RemoteStage, RemoteStep) {
    match (stage, event) {
        (RemoteStage::Reading, RemoteEvent::Begun) => (
            RemoteStage::Reading,
            RemoteStep::ReadDescriptor,
        ),
        (RemoteStage::Reading, RemoteEvent::Descriptor(None)) => if launcher_known {
            (RemoteStage::Launching, RemoteStep::Start)
        } else {
            (RemoteStage::Launching, RemoteStep::Discover)
        },
        (RemoteStage::Launching, RemoteEvent::Launcher) => (
            RemoteStage::Launching,
            RemoteStep::Start,
        ),
        (RemoteStage::Launching, RemoteEvent::Started) => if expired {
            ended(Failure::Unavailable("timed out waiting for remote Neta Node descriptor"@))
        } else {
            (RemoteStage::Awaiting, RemoteStep::Sleep)
        },
        (RemoteStage::Awaiting, RemoteEvent::Slept) => (
            RemoteStage::Awaiting,
            RemoteStep::ReadDescriptor,
        ),
        (RemoteStage::Awaiting, RemoteEvent::Descriptor(None)) => if expired {
            ended(Failure::Unavailable("timed out waiting for remote Neta Node descriptor"@))
        } else {
            (RemoteStage::Awaiting, RemoteStep::Sleep)
        },
        (RemoteStage::Reading, RemoteEvent::Descriptor(Some(version))) => first_try(version),
        (RemoteStage::Awaiting, RemoteEvent::Descriptor(Some(version))) => first_try(version),
        (RemoteStage::Trying, RemoteEvent::Refused(error)) => if launcher_known {
            (RemoteStage::Probing(error@), RemoteStep::Probe)
        } else {
            (RemoteStage::Doubting(error@), RemoteStep::Discover)
        },
        (RemoteStage::Doubting(original), RemoteEvent::Launcher) => (
            RemoteStage::Probing(original),
            RemoteStep::Probe,
        ),
        (RemoteStage::Probing(original), RemoteEvent::Live(true)) => ended(original),
        (RemoteStage::Probing(original), RemoteEvent::Live(false)) => (
            RemoteStage::Reviving(original),
            RemoteStep::Start,
        ),
        (RemoteStage::Reviving(original), RemoteEvent::Started) => if expired {
            ended(not_recovered(original))
        } else {
            (RemoteStage::Reviving(original), RemoteStep::Sleep)
        },
        (RemoteStage::Reviving(original), RemoteEvent::Slept) => (
            RemoteStage::Reviving(original),
            RemoteStep::ReadDescriptor,
        ),
        (RemoteStage::Reviving(original), RemoteEvent::Descriptor(None)) => if expired {
            ended(not_recovered(original))
        } else {
            (RemoteStage::Reviving(original), RemoteStep::Sleep)
        },
        (RemoteStage::Reviving(original), RemoteEvent::Descriptor(Some(_))) => (
            RemoteStage::Retrying,
            RemoteStep::Connect,
        ),
        (RemoteStage::Retrying, RemoteEvent::Refused(error)) => ended(error@),
        _ => ended(Failure::Closed),
    }
}

/// A descriptor of the right protocol is tried.
pub open spec fn first_try(version: u64) -> (RemoteStage, RemoteStep) {
    if version == PROTOCOL_VERSION {
        (RemoteStage::Trying, RemoteStep::Connect)
    } else {
        ended(other_protocol("remote Neta Node"@, version))
    }
}

/// A Node that did not come back.
pub open spec fn not_recovered(original: Failure) -> Failure {
    Failure::Unavailable(
        "remote Neta Node did not recover after stale descriptor: "@ + shown(original),
    )
}

fn fail(error: ClientError) -> (next: (RemotePhase, RemoteAction))
    ensures
        (next.0@, next.1@) == ended(error@),
{
    (RemotePhase::Ended, RemoteAction::Fail(error))
}

fn try_first(version: u64) -> (next: (RemotePhase, RemoteAction))
    ensures
        (next.0@, next.1@) == first_try(version),
{
    match check_protocol("remote Neta Node", version) {
        Ok(()) => (RemotePhase::Trying, RemoteAction::Connect),
        Err(error) => fail(error),
    }
}

fn give_up_waiting() -> (next: (RemotePhase, RemoteAction))
    ensures
        (next.0@, next.1@) == ended(
            Failure::Unavailable("timed out waiting for remote Neta Node descriptor"@),
        ),
{
    fail(
        ClientError::Unavailable("timed out waiting for remote Neta Node descriptor".to_owned()),
    )
}

fn give_up_reviving(original: &ClientError) -> (next: (RemotePhase, RemoteAction))
    ensures
        (next.0@, next.1@) == ended(not_recovered(original@)),
{
    fail(
        ClientError::Unavailable(
            concat2(
                "remote Neta Node did not recover after stale descriptor: ",
                &original.to_string(),
            ),
        ),
    )
}

/// Takes an event in and says how far the way has come and what to do next.
pub fn next_remote(
    phase: RemotePhase,
    event: RemoteEvent,
    launcher_known: bool,
    expired: bool,
) -> (next: (RemotePhase, RemoteAction))
    ensures
        (next.0@, next.1@) == remote_step(phase@, event, launcher_known, expired),
{
    match (phase, event) {
        (RemotePhase::Reading, RemoteEvent::Begun) => (
            RemotePhase::Reading,
            RemoteAction::ReadDescriptor,
        ),
        (RemotePhase::Reading, RemoteEvent::Descriptor(None)) => if launcher_known {
            (RemotePhase::Launching, RemoteAction::Start)
        } else {
            (RemotePhase::Launching, RemoteAction::Discover)
        },
        (RemotePhase::Launching, RemoteEvent::Launcher) => (
            RemotePhase::Launching,
            RemoteAction::Start,
        ),
        (RemotePhase::Launching, RemoteEvent::Started) => if expired {
            give_up_waiting()
        } else {
            (RemotePhase::Awaiting, RemoteAction::Sleep)
        },
        (RemotePhase::Awaiting, RemoteEvent::Slept) => (
            RemotePhase::Awaiting,
            RemoteAction::ReadDescriptor,
        ),
        (RemotePhase::Awaiting, RemoteEvent::Descriptor(None)) => if expired {
            give_up_waiting()
        } else {
            (RemotePhase::Awaiting, RemoteAction::Sleep)
        },
        (RemotePhase::Reading, RemoteEvent::Descriptor(Some(version))) => try_first(version),
        (RemotePhase::Awaiting, RemoteEvent::Descriptor(Some(version))) => try_first(version),
        (RemotePhase::Trying, RemoteEvent::Refused(error)) => if launcher_known {
            (RemotePhase::Probing(error), RemoteAction::Probe)
        } else {
            (RemotePhase::Doubting(error), RemoteAction::Discover)
        },
        (RemotePhase::Doubting(original), RemoteEvent::Launcher) => (
            RemotePhase::Probing(original),
            RemoteAction::Probe,
        ),
        (RemotePhase::Probing(original), RemoteEvent::Live(live)) => if live {
            fail(original)
        } else {
            (RemotePhase::Reviving(original), RemoteAction::Start)
        },
        (RemotePhase::Reviving(original), RemoteEvent::Started) => if expired {
            give_up_reviving(&original)
        } else {
            (RemotePhase::Reviving(original), RemoteAction::Sleep)
        },
        (RemotePhase::Reviving(original), RemoteEvent::Slept) => (
            RemotePhase::Reviving(original),
            RemoteAction::ReadDescriptor,
        ),
        (RemotePhase::Reviving(original), RemoteEvent::Descriptor(None)) => if expired {
            give_up_reviving(&original)
        } else {
            (RemotePhase::Reviving(original), RemoteAction::Sleep)
        },
        (RemotePhase::Reviving(_), RemoteEvent::Descriptor(Some(_))) => (
            RemotePhase::Retrying,
            RemoteAction::Connect,
        ),
        (RemotePhase::Retrying, RemoteEvent::Refused(error)) => fail(error),
        _ => fail(ClientError::Closed),
    }
}

/// How often the Node can still be started from a stage on.
pub open spec fn starts_left(stage: RemoteStage) -> nat {
    match stage {
        RemoteStage::Reading => 2,
        RemoteStage::Launching => 2,
        RemoteStage::Awaiting => 1,
        RemoteStage::Trying => 1,
        RemoteStage::Doubting(_) => 1,
        RemoteStage::Probing(_) => 1,
        RemoteStage::Reviving(_) => 0,
        RemoteStage::Retrying => 0,
        RemoteStage::Ended => 0,
    }
}

/// After a try failed, the remote Node is started at most once more, and only where it says that
/// it does not run: a start leads to a stage from which nothing starts it again.
pub proof fn a_stale_node_is_revived_at_most_once(
    stage: RemoteStage,
    event: RemoteEvent,
    launcher_known: bool,
    expired: bool,
)
    requires
        starts_left(stage) <= 1,
    ensures
        ({
            let (after, step) = remote_step(stage, event, launcher_known, expired);
            &&& starts_left(after) <= starts_left(stage)
            &&& step is Start ==> event == RemoteEvent::Live(false) && starts_left(after)
                < starts_left(stage)
        }),
{
}

/// A machine that cannot be asked for its descriptor is never told to start a Node: only the
/// answer that there is none leads there from the first stage.
pub proof fn only_an_absent_descriptor_starts_a_node(
    event: RemoteEvent,
    launcher_known: bool,
    expired: bool,
)
    ensures
        ({
            let (after, step) = remote_step(RemoteStage::Reading, event, launcher_known, expired);
            (step is Start || after is Launching) ==> event == RemoteEvent::Descriptor(None::<u64>)
        }),
{
}

/// What came of asking a machine for its descriptor: the event that it makes, or the error that the way
/// ends with. `printed` is the protocol of the descriptor that was printed, or why none can be read.
pub open spec fn asked(success: bool, code: Option<i32>, printed: Result<u64, String>) -> Result<
    Option<u64>,
    Failure,
> {
    match reply_of(success, code) {
        DescriptorReply::Printed => match printed {
            Ok(version) => Ok(Some(version)),
            Err(words) => Err(Failure::Protocol("invalid remote node descriptor: "@ + words@)),
        },
        DescriptorReply::Absent => Ok(None),
        DescriptorReply::Failed => Err(
            Failure::Unavailable("read remote Neta Node descriptor over SSH"@),
        ),
    }
}

/// What follows on a stage once a machine was asked for its descriptor.
pub open spec fn asked_step(
    stage: RemoteStage,
    success: bool,
    code: Option<i32>,
    printed: Result<u64, String>,
    launcher_known: bool,
    expired: bool,
) -> (RemoteStage, RemoteStep) {
    match asked(success, code, printed) {
        Ok(version) => remote_step(
            stage,
            RemoteEvent::Descriptor(version),
            launcher_known,
            expired,
        ),
        Err(failure) => ended(failure),
    }
}

/// Goes on once a machine was asked for its descriptor, by what the command ended with and printed.
pub fn next_after_asking(
    phase: RemotePhase,
    success: bool,
    code: Option<i32>,
    printed: Result<u64, String>,
    launcher_known: bool,
    expired: bool,
) -> (next: (RemotePhase, RemoteAction))
    ensures
        (next.0@, next.1@) == asked_step(
            phase@,
            success,
            code,
            printed,
            launcher_known,
            expired,
        ),
{
    match descriptor_reply(success, code) {
        DescriptorReply::Printed => match printed {
            Ok(version) => next_remote(
                phase,
                RemoteEvent::Descriptor(Some(version)),
                launcher_known,
                expired,
            ),
            Err(words) => fail(
                ClientError::Protocol(concat2("invalid remote node descriptor: ", &words)),
            ),
        },
        DescriptorReply::Absent => next_remote(
            phase,
            RemoteEvent::Descriptor(None),
            launcher_known,
            expired,
        ),
        DescriptorReply::Failed => fail(
            ClientError::Unavailable("read remote Neta Node descriptor over SSH".to_owned()),
        ),
    }
}

/// A machine that could not be asked for its descriptor is never told to start a Node: the way ends
/// there, whatever stage it was at.
pub proof fn a_machine_that_cannot_be_asked_starts_no_node(
    stage: RemoteStage,
    success: bool,
    code: Option<i32>,
    printed: Result<u64, String>,
    launcher_known: bool,
    expired: bool,
)
    requires
        reply_of(success, code) == DescriptorReply::Failed,
    ensures
        asked_step(stage, success, code, printed, launcher_known, expired) == (
            RemoteStage::Ended,
            RemoteStep::Fail(Failure::Unavailable("read remote Neta Node descriptor over SSH"@)),
        ),
{
}

/// What to do while the forward of a socket is awaited.
#[derive(Debug)]
pub enum ForwardAction {
    /// The socket can be used.
    Use,
    /// Wait a little.
    Sleep,
    Fail(ClientError),
}

/// What is asked for while the forward of a socket is awaited.
#[verifier::ext_equal]
pub enum ForwardStep {
    Use,
    Sleep,
    Fail(Failure),
}

impl View for ForwardAction {
    type V = ForwardStep;

    open spec fn view(&self) -> ForwardStep {
        match *self {
            ForwardAction::Use => ForwardStep::Use,
            ForwardAction::Sleep => ForwardStep::Sleep,
            ForwardAction::Fail(error) => ForwardStep::Fail(error@),
        }
    }
}

/// A socket that takes a connection is used, however late it is; else the deadline goes before the end
/// of the program that forwards it.
pub open spec fn forward_asks(connected: bool, expired: bool, ended: bool) -> ForwardStep {
    if connected {
        ForwardStep::Use
    } else if expired {
        ForwardStep::Fail(Failure::Unavailable("timed out starting SSH Unix socket forward"@))
    } else if ended {
        ForwardStep::Fail(Failure::Unavailable("SSH Unix socket forward exited before connecting"@))
    } else {
        ForwardStep::Sleep
    }
}

/// What to do while the forward of a socket is awaited: whether the socket takes a connection, whether
/// the deadline has passed, and whether the program that forwards it has ended.
pub fn next_forward(connected: bool, expired: bool, ended: bool) -> (action: ForwardAction)
    ensures
        action@ == forward_asks(connected, expired, ended),
{
    if connected {
        ForwardAction::Use
    } else if expired {
        ForwardAction::Fail(
            ClientError::Unavailable("timed out starting SSH Unix socket forward".to_owned()),
        )
    } else if ended {
        ForwardAction::Fail(
            ClientError::Unavailable("SSH Unix socket forward exited before connecting".to_owned()),
        )
    } else {
        ForwardAction::Sleep
    }
}

} // verus!
