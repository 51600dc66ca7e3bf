//! What holds of the two streams of the control plane from their first step on.
use vstd::prelude::*;
use crate::control_steps::{
    after_archiving, after_delta, after_lifecycle, after_lifecycle_subscription, after_reply,
    after_subscribing, AfterReply, ControlStep,
};
use crate::failure::ConnectionError;
use crate::reply::{reply_bytes, WireReply};
use crate::signal;
use crate::signal::{Response, TerminalEvent};
use crate::terminal::TerminalWorkerLifecycle;
use crate::worker::signal_lifecycle;

verus! {

/// What a step of a stream is resumed with, as laws speak of it.
pub ghost enum StreamEvent {
    Subscribed(Result<Vec<u8>, String>),
    Delta(Option<Vec<u8>>),
    LifecyclesSubscribed(Result<Vec<TerminalWorkerLifecycle>, String>),
    Lifecycle(Option<TerminalWorkerLifecycle>),
    Archived(Result<Vec<u8>, String>),
    Written(Result<(), ConnectionError>),
}

/// Whether a step, resumed with an event, leads to the next one.
pub open spec fn resumed(step: ControlStep, event: StreamEvent, next: ControlStep) -> bool {
    match (step, event) {
        (ControlStep::Subscribe(_), StreamEvent::Subscribed(replay)) => after_subscribing(
            replay,
            next,
        ),
        (ControlStep::NextDelta(_), StreamEvent::Delta(delta)) => next == after_delta(delta),
        (
            ControlStep::SubscribeLifecycle(subscribe),
            StreamEvent::LifecyclesSubscribed(replay),
        ) => after_lifecycle_subscription(subscribe.terminal, replay, next),
        (ControlStep::NextLifecycle(wait), StreamEvent::Lifecycle(lifecycle)) => after_lifecycle(
            wait.terminal,
            lifecycle,
            next,
        ),
        (ControlStep::Archive(archive), StreamEvent::Archived(archived)) => after_archiving(
            archive.after,
            archived,
            next,
        ),
        (ControlStep::Reply(reply), StreamEvent::Written(written)) => next == after_reply(
            reply.after,
            written,
        ),
        _ => false,
    }
}

/// Whether each step leads to the next one when it is resumed with its event.
pub open spec fn is_run(steps: Seq<ControlStep>, events: Seq<StreamEvent>) -> bool {
    &&& steps.len() == events.len() + 1
    &&& forall|at: int|
        0 <= at < events.len() ==> #[trigger] resumed(steps[at], events[at], steps[at + 1])
}

proof fn beginning_is_run(steps: Seq<ControlStep>, events: Seq<StreamEvent>)
    requires
        is_run(steps, events),
        events.len() >= 1,
    ensures
        resumed(steps.drop_last().last(), events.last(), steps.last()),
        is_run(steps.drop_last(), events.drop_last()),
{
    let last = events.len() - 1;
    assert(resumed(steps[last], events[last], steps[last + 1]));
    let begun = steps.drop_last();
    let told = events.drop_last();
    assert forall|at: int| 0 <= at < told.len() implies #[trigger] resumed(
        begun[at],
        told[at],
        begun[at + 1],
    ) by {
        assert(resumed(steps[at], events[at], steps[at + 1]));
    }
}

/// The bytes that steps write to the connection, reply by reply.
pub open spec fn written(steps: Seq<ControlStep>) -> Seq<Seq<u8>>
    decreases steps.len(),
{
    if steps.len() == 0 {
        Seq::empty()
    } else {
        match steps.last() {
            ControlStep::Reply(reply) => written(steps.drop_last()).push(reply.bytes@),
            _ => written(steps.drop_last()),
        }
    }
}

/// What the terminal tells of its transcript: what stands there, and what it gains.
pub open spec fn transcript_told(events: Seq<StreamEvent>) -> Seq<Seq<u8>>
    decreases events.len(),
{
    if events.len() == 0 {
        Seq::empty()
    } else {
        let before = transcript_told(events.drop_last());
        match events.last() {
            StreamEvent::Subscribed(Ok(bytes)) => before.push(bytes@),
            StreamEvent::Delta(Some(bytes)) => before.push(bytes@),
            _ => before,
        }
    }
}

/// Whether a step stands behind the subscription of a transcript stream.
pub open spec fn streams_transcript(step: ControlStep) -> bool {
    match step {
        ControlStep::NextDelta(_) => true,
        ControlStep::Reply(reply) => reply.after is Replay || reply.after is Delta,
        ControlStep::Finish(_) => true,
        _ => false,
    }
}

/// A transcript stream writes the replay, and behind it each gain of the
/// transcript: one for one, in order and unchanged.
pub proof fn transcript_is_streamed_in_order(steps: Seq<ControlStep>, events: Seq<StreamEvent>)
    requires
        is_run(steps, events),
        steps[0] is Subscribe,
    ensures
        written(steps) == transcript_told(events),
        events.len() >= 1 ==> events[0] is Subscribed && streams_transcript(steps.last()),
        forall|at: int| 1 <= at < events.len() ==> !(#[trigger] events[at] is Subscribed),
    decreases steps.len(),
{
    if events.len() == 0 {
        assert(written(steps.drop_last()) =~= Seq::empty());
        assert(written(steps) =~= transcript_told(events));
    } else {
        let begun = steps.drop_last();
        let told = events.drop_last();
        beginning_is_run(steps, events);
        transcript_is_streamed_in_order(begun, told);
        assert(written(steps) =~= transcript_told(events));
        assert forall|at: int| 1 <= at < events.len() implies !(
        #[trigger] events[at] is Subscribed) by {
            if at < told.len() {
                assert(events[at] == told[at]);
            }
        }
        if told.len() >= 1 {
            assert(events[0] == told[0]);
        }
    }
}

/// What a response tells of the terminal's workers.
pub ghost enum LifecycleNews {
    Snapshot { terminal: Seq<char>, observations: Seq<signal::TerminalWorkerLifecycle> },
    Event { terminal: Seq<char>, observation: signal::TerminalWorkerLifecycle },
    Nothing,
}

/// What a response tells of the terminal's workers.
pub open spec fn news(response: Response) -> LifecycleNews {
    match response {
        Response::TerminalWorkerLifecycleSnapshot(snapshot) => LifecycleNews::Snapshot {
            terminal: snapshot.terminal@,
            observations: snapshot.observations@,
        },
        Response::Event(TerminalEvent::TerminalWorkerLifecycleEvent(event)) =>
            LifecycleNews::Event { terminal: event.terminal@, observation: event.observation },
        _ => LifecycleNews::Nothing,
    }
}

/// What steps have archived, response by response.
pub open spec fn responses(steps: Seq<ControlStep>) -> Seq<LifecycleNews>
    decreases steps.len(),
{
    if steps.len() == 0 {
        Seq::empty()
    } else {
        match steps.last() {
            ControlStep::Archive(archive) => responses(steps.drop_last()).push(
                news(archive.response),
            ),
            _ => responses(steps.drop_last()),
        }
    }
}

/// What the terminal tells of its workers: those that it has, and each that starts
/// or stops.
pub open spec fn lifecycles_told(
    terminal: Seq<char>,
    events: Seq<StreamEvent>,
) -> Seq<LifecycleNews>
    decreases events.len(),
{
    if events.len() == 0 {
        Seq::empty()
    } else {
        let before = lifecycles_told(terminal, events.drop_last());
        match events.last() {
            StreamEvent::LifecyclesSubscribed(Ok(replay)) => before.push(
                LifecycleNews::Snapshot {
                    terminal,
                    observations: replay@.map_values(|lifecycle| signal_lifecycle(lifecycle)),
                },
            ),
            StreamEvent::Lifecycle(Some(lifecycle)) => before.push(
                LifecycleNews::Event { terminal, observation: signal_lifecycle(lifecycle) },
            ),
            _ => before,
        }
    }
}

/// The archives that were made, each as it goes over the wire.
pub open spec fn archives(events: Seq<StreamEvent>) -> Seq<Seq<u8>>
    decreases events.len(),
{
    if events.len() == 0 {
        Seq::empty()
    } else {
        let before = archives(events.drop_last());
        match events.last() {
            StreamEvent::Archived(Ok(bytes)) => before.push(
                reply_bytes(WireReply::Archive(bytes@)),
            ),
            _ => before,
        }
    }
}

/// Whether a step stands behind the subscription of a lifecycle stream.
pub open spec fn streams_lifecycles(step: ControlStep, terminal: String) -> bool {
    match step {
        ControlStep::NextLifecycle(wait) => wait.terminal == terminal,
        ControlStep::Archive(archive) => archive.after == (AfterReply::Lifecycle { terminal }),
        ControlStep::Reply(reply) => reply.after == (AfterReply::Lifecycle { terminal }),
        ControlStep::Finish(_) => true,
        _ => false,
    }
}

/// A lifecycle stream responds with the workers that the terminal has, and behind
/// that with one event for each that starts or stops: one for one and in order,
/// all of them for the terminal that was subscribed to. What it writes is the
/// archive of each response.
pub proof fn lifecycles_are_streamed_in_order(
    steps: Seq<ControlStep>,
    events: Seq<StreamEvent>,
    terminal: String,
)
    requires
        is_run(steps, events),
        steps[0] matches ControlStep::SubscribeLifecycle(subscribe) && subscribe.terminal
            == terminal,
    ensures
        responses(steps) == lifecycles_told(terminal@, events),
        written(steps) == archives(events),
        events.len() >= 1 ==> events[0] is LifecyclesSubscribed && streams_lifecycles(
            steps.last(),
            terminal,
        ),
        forall|at: int|
            1 <= at < events.len() ==> !(#[trigger] events[at] is LifecyclesSubscribed),
    decreases steps.len(),
{
    if events.len() == 0 {
        assert(written(steps.drop_last()) =~= Seq::empty());
        assert(responses(steps.drop_last()) =~= Seq::empty());
        assert(written(steps) =~= archives(events));
        assert(responses(steps) =~= lifecycles_told(terminal@, events));
    } else {
        let begun = steps.drop_last();
        let told = events.drop_last();
        beginning_is_run(steps, events);
        lifecycles_are_streamed_in_order(begun, told, terminal);
        assert(written(steps) =~= archives(events));
        assert(responses(steps) =~= lifecycles_told(terminal@, events));
        assert forall|at: int| 1 <= at < events.len() implies !(
        #[trigger] events[at] is LifecyclesSubscribed) by {
            if at < told.len() {
                assert(events[at] == told[at]);
            }
        }
        if told.len() >= 1 {
            assert(events[0] == told[0]);
        }
    }
}

} // verus!
