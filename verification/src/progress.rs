//! What a whole way to a Node comes to: each step is owed to what happened before it, so that a Node
//! that can be reached is reached, and a way is given up only for a reason.

use vstd::prelude::*;
use vstd::string::*;

use crate::connect::{
    asked, forward_asks, remote_step, LocalConnect, LocalEvent, LocalStep, RemoteEvent, RemoteStage,
    RemoteStep,
};
use crate::error::{shown, Failure};
use crate::frames::PROTOCOL_VERSION;
use crate::text::decimal_of;

verus! {

/// One turn on the way to a remote Node: what happened, what was known then, and what followed.
pub struct RemoteTurn {
    pub event: RemoteEvent,
    pub launcher_known: bool,
    pub expired: bool,
    pub stage: RemoteStage,
    pub step: RemoteStep,
}

/// Whether an event tells what came of a step.
pub open spec fn answers(step: RemoteStep, event: RemoteEvent) -> bool {
    match step {
        RemoteStep::ReadDescriptor => event is Descriptor,
        RemoteStep::Discover => event is Launcher,
        RemoteStep::Start => event is Started,
        RemoteStep::Sleep => event is Slept,
        RemoteStep::Connect => event is Refused,
        RemoteStep::Probe => event is Live,
        RemoteStep::Fail(_) => false,
    }
}

/// A way to a remote Node from its beginning: whoever drives it performs each step, and tells what came
/// of it.
pub open spec fn is_remote_way(turns: Seq<RemoteTurn>) -> bool {
    &&& turns.len() > 0
    &&& turns[0].event is Begun
    &&& (turns[0].stage, turns[0].step) == remote_step(
        RemoteStage::Reading,
        turns[0].event,
        turns[0].launcher_known,
        turns[0].expired,
    )
    &&& forall|i: int, j: int|
        #![trigger turns[i], turns[j]]
        0 <= i && j == i + 1 && j < turns.len() ==> answers(turns[i].step, turns[j].event) && (
            turns[j].stage,
            turns[j].step,
        ) == remote_step(
            turns[i].stage,
            turns[j].event,
            turns[j].launcher_known,
            turns[j].expired,
        )
}

/// How often the Node was started in the first turns of a way.
pub open spec fn starts(turns: Seq<RemoteTurn>, count: int) -> nat
    decreases count,
{
    if count <= 0 {
        0
    } else if turns[count - 1].step is Start {
        starts(turns, count - 1) + 1
    } else {
        starts(turns, count - 1)
    }
}

/// The errors with which the Node was not reached in the first turns of a way.
pub open spec fn refusals(turns: Seq<RemoteTurn>, count: int) -> Seq<Failure>
    decreases count,
{
    if count <= 0 {
        seq![]
    } else {
        match turns[count - 1].event {
            RemoteEvent::Refused(error) => refusals(turns, count - 1).push(error@),
            _ => refusals(turns, count - 1),
        }
    }
}

/// How a turn leaves a way, as far as the past tells.
spec fn placed(turns: Seq<RemoteTurn>, at: int) -> bool {
    let turn = turns[at];
    let started = starts(turns, at + 1);
    let refused = refusals(turns, at + 1);
    match turn.stage {
        RemoteStage::Reading => turn.step is ReadDescriptor && started == 0 && refused.len() == 0,
        RemoteStage::Launching => refused.len() == 0 && ((turn.step is Discover && started == 0) || (
        turn.step is Start && started == 1)),
        RemoteStage::Awaiting => refused.len() == 0 && started == 1 && (turn.step is Sleep
            || turn.step is ReadDescriptor),
        RemoteStage::Trying => turn.step is Connect && refused.len() == 0 && started <= 1,
        RemoteStage::Doubting(original) => turn.step is Discover && refused == seq![original]
            && started <= 1,
        RemoteStage::Probing(original) => turn.step is Probe && refused == seq![original]
            && started <= 1,
        RemoteStage::Reviving(original) => refused == seq![original] && 1 <= started <= 2 && (
        turn.step is Start || turn.step is Sleep || turn.step is ReadDescriptor),
        RemoteStage::Retrying => turn.step is Connect && refused.len() == 1 && 1 <= started <= 2,
        RemoteStage::Ended => turn.step is Fail && started <= 2,
    }
}

proof fn lemma_placed(turns: Seq<RemoteTurn>, at: int)
    requires
        is_remote_way(turns),
        0 <= at < turns.len(),
    ensures
        placed(turns, at),
        at > 0 ==> placed(turns, at - 1) && answers(turns[at - 1].step, turns[at].event) && (
            turns[at].stage,
            turns[at].step,
        ) == remote_step(
            turns[at - 1].stage,
            turns[at].event,
            turns[at].launcher_known,
            turns[at].expired,
        ),
    decreases at,
{
    reveal_with_fuel(starts, 2);
    reveal_with_fuel(refusals, 2);
    if at > 0 {
        lemma_placed(turns, at - 1);
        assert(answers(turns[at - 1].step, turns[at].event));
        assert(refusals(turns, at).push(Failure::Closed).drop_last() =~= refusals(turns, at));
        match turns[at].event {
            RemoteEvent::Refused(error) => {
                if refusals(turns, at).len() == 0 {
                    assert(refusals(turns, at + 1) =~= seq![error@]);
                }
            },
            _ => {},
        }
    }
}

/// A remote Node whose descriptor is read, and who speaks the protocol of this client, is connected to
/// at once, whether it ran already, was started on the way, or was started anew.
pub proof fn a_descriptor_that_was_read_is_connected_to(turns: Seq<RemoteTurn>, at: int)
    requires
        is_remote_way(turns),
        0 <= at < turns.len(),
        turns[at].event == RemoteEvent::Descriptor(Some(PROTOCOL_VERSION)),
    ensures
        turns[at].step is Connect,
{
    lemma_placed(turns, at);
}

/// As long as there is time, a remote Node that was started is waited for, and its descriptor is read
/// again after each wait: no way is given up for want of a descriptor before its deadline, and none
/// goes on waiting after it.
pub proof fn a_started_node_is_awaited_until_the_deadline(turns: Seq<RemoteTurn>, at: int)
    requires
        is_remote_way(turns),
        0 <= at < turns.len(),
        starts(turns, at) > 0,
        turns[at].event is Started || turns[at].event == RemoteEvent::Descriptor(None::<u64>),
    ensures
        !turns[at].expired ==> turns[at].step is Sleep,
        turns[at].expired ==> turns[at].step is Fail,
        !turns[at].expired && at + 1 < turns.len() ==> turns[at + 1].step is ReadDescriptor,
{
    lemma_placed(turns, at);
    if at + 1 < turns.len() {
        lemma_placed(turns, at + 1);
    }
}

/// A machine on which no Node runs has one started, once a launcher is at hand.
pub proof fn a_machine_without_a_node_gets_one(turns: Seq<RemoteTurn>, at: int)
    requires
        is_remote_way(turns),
        0 <= at < turns.len(),
        turns[at].event == RemoteEvent::Descriptor(None::<u64>),
        starts(turns, at) == 0,
    ensures
        turns[at].launcher_known ==> turns[at].step is Start,
        !turns[at].launcher_known ==> turns[at].step is Discover,
        !turns[at].launcher_known && at + 1 < turns.len() ==> turns[at + 1].step is Start,
{
    lemma_placed(turns, at);
    if at + 1 < turns.len() {
        lemma_placed(turns, at + 1);
    }
}

/// A Node that could not be reached is asked whether it runs; one that runs is left alone, and the way
/// ends with the error of the try; one that does not is started anew.
pub proof fn a_node_that_runs_is_not_started_anew(turns: Seq<RemoteTurn>, at: int)
    requires
        is_remote_way(turns),
        0 <= at < turns.len(),
    ensures
        turns[at].event == RemoteEvent::Live(true) ==> refusals(turns, at).len() == 1
            && turns[at].step == RemoteStep::Fail(refusals(turns, at)[0]),
        turns[at].event == RemoteEvent::Live(false) ==> turns[at].step is Start,
        turns[at].event is Refused && refusals(turns, at).len() == 0 ==> turns[at].step == if turns[at].launcher_known {
            RemoteStep::Probe
        } else {
            RemoteStep::Discover
        },
        turns[at].event is Launcher && refusals(turns, at).len() > 0 ==> turns[at].step is Probe,
        turns[at].event is Refused && refusals(turns, at).len() > 0 ==> turns[at].step
            == RemoteStep::Fail(turns[at].event->Refused_0@),
        starts(turns, at + 1) <= 2,
{
    lemma_placed(turns, at);
    reveal_with_fuel(starts, 2);
}

/// A way to a remote Node is given up for one of four reasons, and its error tells which: the Node
/// speaks another protocol, its descriptor did not come before the deadline, it runs and could not be
/// reached, or it could not be reached after it was started anew.
pub proof fn a_way_is_given_up_for_a_reason(turns: Seq<RemoteTurn>, at: int)
    requires
        is_remote_way(turns),
        0 <= at < turns.len(),
        turns[at].step is Fail,
    ensures
        ({
            let turn = turns[at];
            let words = turn.step->Fail_0;
            let before = refusals(turns, at);
            match turn.event {
                RemoteEvent::Descriptor(Some(version)) => version != PROTOCOL_VERSION
                    && before.len() == 0 && words == Failure::Protocol(
                    "remote Neta Node"@ + " speaks protocol "@ + decimal_of(version as nat)
                        + ", this client speaks "@ + decimal_of(PROTOCOL_VERSION as nat),
                ),
                RemoteEvent::Refused(error) => before.len() > 0 && words == error@,
                RemoteEvent::Live(live) => live && before.len() == 1 && words == before[0],
                _ => turn.expired && starts(turns, at) > 0 && words == if before.len() == 0 {
                    Failure::Unavailable("timed out waiting for remote Neta Node descriptor"@)
                } else {
                    Failure::Unavailable(
                        "remote Neta Node did not recover after stale descriptor: "@ + shown(
                            before[0],
                        ),
                    )
                },
            }
        }),
{
    lemma_placed(turns, at);
}

/// A machine is asked for its descriptor in words that leave three answers: the descriptor that it
/// prints, that there is none, or that it could not be asked; only the first two go on.
pub proof fn an_answer_is_told_from_a_failure(
    success: bool,
    code: Option<i32>,
    printed: Result<u64, String>,
)
    ensures
        success && printed is Ok ==> asked(success, code, printed) == Ok::<Option<u64>, Failure>(
            Some(printed->Ok_0),
        ),
        success && printed is Err ==> asked(success, code, printed) is Err && asked(
            success,
            code,
            printed,
        )->Err_0 is Protocol,
        !success && code == Some(1i32) ==> asked(success, code, printed) == Ok::<
            Option<u64>,
            Failure,
        >(None::<u64>),
        !success && code != Some(1i32) ==> asked(success, code, printed) is Err && asked(
            success,
            code,
            printed,
        )->Err_0 is Unavailable,
{
}

/// A socket that takes connections is used, and no other; while it does not, it is waited for until the
/// deadline or the end of the program that forwards it, and then the way fails.
pub proof fn a_forward_is_used_when_it_connects(connected: bool, expired: bool, ended: bool)
    ensures
        connected <==> forward_asks(connected, expired, ended) is Use,
        !connected && !expired && !ended <==> forward_asks(connected, expired, ended) is Sleep,
        expired && !connected ==> forward_asks(connected, expired, ended) == forward_asks(
            connected,
            expired,
            !ended,
        ),
        forward_asks(false, true, ended) != forward_asks(false, false, true),
{
    reveal_strlit("timed out starting SSH Unix socket forward");
    reveal_strlit("SSH Unix socket forward exited before connecting");
    let late = "timed out starting SSH Unix socket forward"@;
    let early = "SSH Unix socket forward exited before connecting"@;
    assert(late[0] != early[0]);
}

/// One turn on the way to the Node on this machine: what happened, whether the deadline had passed,
/// how the way stood then, and what followed.
pub struct LocalTurn {
    pub event: LocalEvent,
    pub expired: bool,
    pub way: LocalConnect,
    pub step: LocalStep,
}

/// Whether an event tells what came of a step on the way to the Node on this machine.
pub open spec fn answers_locally(step: LocalStep, event: LocalEvent) -> bool {
    match step {
        LocalStep::Attempt => event is Missing || event is Failed,
        LocalStep::Start => event is Started,
        LocalStep::Sleep => event is Slept,
        LocalStep::Fail(_) => false,
    }
}

/// A way to the Node on this machine, from its first try on.
pub open spec fn is_local_way(turns: Seq<LocalTurn>, neta_dir: Seq<char>) -> bool {
    &&& turns.len() > 0
    &&& answers_locally(LocalStep::Attempt, turns[0].event)
    &&& !turns[0].way.spawned
    &&& forall|i: int|
        0 <= i < turns.len() ==> (#[trigger] turns[i]).step == turns[i].way.step(
            turns[i].event,
            neta_dir,
            turns[i].expired,
        )
    &&& forall|i: int, j: int|
        #![trigger turns[i], turns[j]]
        0 <= i && j == i + 1 && j < turns.len() ==> answers_locally(turns[i].step, turns[j].event)
            && turns[j].way.spawned == (turns[i].way.spawned || turns[i].step is Start)
}

/// Whether the Node was started in the first turns of a way.
pub open spec fn was_started(turns: Seq<LocalTurn>, count: int) -> bool {
    exists|i: int| 0 <= i < count && (#[trigger] turns[i]).step is Start
}

proof fn lemma_spawned(turns: Seq<LocalTurn>, neta_dir: Seq<char>, at: int)
    requires
        is_local_way(turns, neta_dir),
        0 <= at < turns.len(),
    ensures
        turns[at].way.spawned == was_started(turns, at),
        turns[at].event is Started ==> was_started(turns, at),
    decreases at,
{
    if at > 0 {
        lemma_spawned(turns, neta_dir, at - 1);
        assert(answers_locally(turns[at - 1].step, turns[at].event));
        if turns[at - 1].step is Start {
            assert(was_started(turns, at));
        } else if was_started(turns, at - 1) {
            let i = choose|i: int| 0 <= i < at - 1 && (#[trigger] turns[i]).step is Start;
            assert(turns[i].step is Start);
        }
    }
}

/// The way to the Node on this machine: where there is no descriptor, or nobody behind it, the Node is
/// started, once; then it is tried again after each wait, until the deadline. A Node that answers with
/// an error is believed at once.
pub proof fn the_local_node_is_tried_until_the_deadline(
    turns: Seq<LocalTurn>,
    neta_dir: Seq<char>,
    at: int,
)
    requires
        is_local_way(turns, neta_dir),
        0 <= at < turns.len(),
    ensures
        ({
            let turn = turns[at];
            let missed = match turn.event {
                LocalEvent::Missing => true,
                LocalEvent::Failed(error) => error is Closed || error is Unavailable,
                _ => false,
            };
            &&& turn.event is Slept ==> turn.step is Attempt
            &&& missed && !was_started(turns, at) ==> turn.step is Start
            &&& (missed && was_started(turns, at)) || turn.event is Started ==> if turn.expired {
                turn.step == LocalStep::Fail(
                    Failure::Unavailable("timed out connecting to the Neta Node in "@ + neta_dir),
                )
            } else {
                turn.step is Sleep
            }
            &&& turn.event is Failed && !missed ==> turn.step == LocalStep::Fail(
                turn.event->Failed_0@,
            )
        }),
{
    lemma_spawned(turns, neta_dir, at);
}

} // verus!
