//! What holds of a data connection from its first step to its last.
use vstd::prelude::*;
use crate::cursor::Outcome;
use crate::data::{
    after_detach, after_write, came_out, follows, held, non_attach_refusal, pumping, records_stop,
    refuses_non_attach, resumed, second_viewer_refusal, ActivateStep, ActivationFailure,
    AfterRecord, AfterWrite, DataEvent, DataStep, DetachStep, ForwardStep, ReadStep, RecordStep,
    ReplayStep, ReserveStep, TerminalDataConnection, WriteStep, VIEWER_READ_LIMIT,
};
use crate::failure::{failure, ConnectionError, ErrorKind, Failure};
use crate::reply::{attach_outcome, reply_bytes, WireReply};
use crate::reply_laws::reply_survives_the_wire;
use crate::request::SocketRequest;
use crate::terminal::{
    InputSource, TerminalCellError, TerminalFailure, TerminalViewerLease,
    TerminalWorkerLifecycle, TerminalWorkerStop, TranscriptSnapshot,
};
use crate::text::encoded_length_is_bounded;

verus! {

/// A request other than attach reaches the client of the data socket as a refused
/// connection that names the data socket. Nothing is handed to the terminal, and
/// the connection fails, whether the client took the reply or not.
pub proof fn non_attach_is_refused_on_the_data_plane(
    step: DataStep,
    written: Result<(), ConnectionError>,
    rest: Seq<u8>,
)
    requires
        refuses_non_attach(step),
    ensures
        step matches DataStep::Write(sent) && attach_outcome(sent.bytes@ + rest) == (
        Outcome::<()>::Refused {
            failure: failure(ErrorKind::ConnectionRefused, non_attach_refusal()),
            consumed: sent.bytes@.len(),
        }) && after_write(sent.after, written) matches DataStep::Finish(Err(_)),
{
    reveal_strlit("data socket only accepts viewer attach; use the control socket");
    encoded_length_is_bounded(non_attach_refusal());
    reply_survives_the_wire(
        WireReply::AttachRejected(non_attach_refusal()),
        rest,
    );
}

/// Giving up the place of the viewer ends the connection as the attachment came
/// out, after one more time at most.
pub proof fn detachment_ends_the_connection(step: DetachStep)
    ensures
        after_detach(step) == DataStep::Finish(step.result) || (after_detach(
            step,
        ) matches DataStep::Detach(again) && again.lease == step.lease && after_detach(again)
            == DataStep::Finish(step.result)),
{
}

/// Whether each step leads to the next one when it is resumed with its event.
pub open spec fn is_run(steps: Seq<DataStep>, events: Seq<DataEvent>) -> bool {
    &&& steps.len() == events.len() + 1
    &&& forall|at: int|
        0 <= at < events.len() ==> #[trigger] resumed(steps[at], events[at], steps[at + 1])
}

/// Whether the place of the viewer is given up, under a lease, by one of the steps.
pub open spec fn detaches(steps: Seq<DataStep>, lease: TerminalViewerLease) -> bool {
    exists|at: int|
        0 <= at < steps.len() && #[trigger] steps[at] is Detach && held(steps[at]) == Some(lease)
}

/// Whether one of the steps records that the pump has stopped.
pub open spec fn stops(steps: Seq<DataStep>) -> bool {
    exists|at: int| 0 <= at < steps.len() && #[trigger] records_stop(steps[at])
}

/// Whatever a step is resumed with, the next one follows from it.
pub proof fn resumed_steps_follow(step: DataStep, event: DataEvent, next: DataStep)
    requires
        resumed(step, event, next),
    ensures
        follows(step, next),
{
}

proof fn rest_is_run(steps: Seq<DataStep>, events: Seq<DataEvent>)
    requires
        is_run(steps, events),
        events.len() >= 1,
    ensures
        resumed(steps[0], events[0], steps[1]),
        is_run(steps.skip(1), events.skip(1)),
{
    assert(resumed(steps[0], events[0], steps[0int + 1]));
    let rest = steps.skip(1);
    let left = events.skip(1);
    assert forall|at: int| 0 <= at < left.len() implies #[trigger] resumed(
        rest[at],
        left[at],
        rest[at + 1],
    ) by {
        assert(resumed(steps[at + 1], events[at + 1], steps[at + 1 + 1]));
    }
}

proof fn beginning_is_run(steps: Seq<DataStep>, events: Seq<DataEvent>)
    requires
        is_run(steps, events),
        events.len() >= 1,
    ensures
        resumed(steps[events.len() - 1], events.last(), steps.last()),
        is_run(steps.drop_last(), events.drop_last()),
{
    let last = events.len() - 1;
    assert(resumed(steps[last], events[last], steps[last + 1]));
    let begun = steps.drop_last();
    let told = events.drop_last();
    assert forall|at: int| 0 <= at < told.len() implies #[trigger] resumed(
        begun[at],
        told[at],
        begun[at + 1],
    ) by {
        assert(resumed(steps[at], events[at], steps[at + 1]));
    }
}

/// However a connection comes out that has reserved the place of the viewer, the
/// place is given up before the connection ends.
pub proof fn viewer_is_detached_before_the_end(
    steps: Seq<DataStep>,
    events: Seq<DataEvent>,
    lease: TerminalViewerLease,
)
    requires
        is_run(steps, events),
        held(steps[0]) == Some(lease),
        steps.last() is Finish,
    ensures
        detaches(steps, lease),
    decreases steps.len(),
{
    if steps[0] is Detach {
        assert(detaches(steps, lease));
    } else {
        rest_is_run(steps, events);
        resumed_steps_follow(steps[0], events[0], steps[1]);
        let rest = steps.skip(1);
        assert(rest[0] == steps[1]);
        viewer_is_detached_before_the_end(rest, events.skip(1), lease);
        let at = choose|at: int|
            0 <= at < rest.len() && #[trigger] rest[at] is Detach && held(rest[at]) == Some(lease);
        assert(steps[at + 1] == rest[at]);
    }
}

/// A pump whose start was recorded has its stop recorded before the connection
/// ends.
pub proof fn started_pump_is_stopped_before_the_end(
    steps: Seq<DataStep>,
    events: Seq<DataEvent>,
)
    requires
        is_run(steps, events),
        pumping(steps[0]),
        steps.last() is Finish,
    ensures
        stops(steps),
    decreases steps.len(),
{
    rest_is_run(steps, events);
    resumed_steps_follow(steps[0], events[0], steps[1]);
    if records_stop(steps[1]) {
        assert(stops(steps));
    } else {
        let rest = steps.skip(1);
        assert(rest[0] == steps[1]);
        started_pump_is_stopped_before_the_end(rest, events.skip(1));
        let at = choose|at: int| 0 <= at < rest.len() && #[trigger] records_stop(rest[at]);
        assert(steps[at + 1] == rest[at]);
    }
}

/// The inputs that steps hand to the terminal, in their order.
pub open spec fn handed(steps: Seq<DataStep>) -> Seq<(Seq<u8>, InputSource)>
    decreases steps.len(),
{
    if steps.len() == 0 {
        Seq::empty()
    } else {
        match steps.last() {
            DataStep::Forward(forward) => handed(steps.drop_last()).push(
                (forward.input.bytes@, forward.input.source),
            ),
            _ => handed(steps.drop_last()),
        }
    }
}

/// The bytes that were read from the viewer, read by read.
pub open spec fn typed(events: Seq<DataEvent>) -> Seq<Seq<u8>>
    decreases events.len(),
{
    if events.len() == 0 {
        Seq::empty()
    } else {
        match events.last() {
            DataEvent::Read(Ok(bytes)) if bytes@.len() > 0 => typed(events.drop_last()).push(
                bytes@,
            ),
            _ => typed(events.drop_last()),
        }
    }
}

/// Whether no read gave more than its step had asked for.
pub open spec fn reads_keep_to_the_limit(steps: Seq<DataStep>, events: Seq<DataEvent>) -> bool {
    forall|at: int|
        0 <= at < events.len() ==> (#[trigger] steps[at] matches DataStep::Read(read) ==> (
        events[at] matches DataEvent::Read(Ok(bytes)) ==> bytes@.len() <= read.limit))
}

/// What the terminal is handed in the course of a connection is what was read from
/// the viewer: one for one, in order, unchanged, and marked as a viewer's. No
/// input is empty, and none is longer than one read.
pub proof fn terminal_is_handed_what_the_viewer_typed(
    steps: Seq<DataStep>,
    events: Seq<DataEvent>,
)
    requires
        is_run(steps, events),
        steps[0] is Reserve,
        reads_keep_to_the_limit(steps, events),
    ensures
        handed(steps) == typed(events).map_values(|bytes: Seq<u8>| (bytes, InputSource::Viewer)),
        forall|at: int|
            0 <= at < typed(events).len() ==> 1 <= (#[trigger] typed(events)[at]).len()
                <= VIEWER_READ_LIMIT,
        steps.last() matches DataStep::Read(read) ==> read.limit == VIEWER_READ_LIMIT,
    decreases steps.len(),
{
    let viewer = |bytes: Seq<u8>| (bytes, InputSource::Viewer);
    if events.len() == 0 {
        assert(handed(steps.drop_last()) =~= Seq::empty());
        assert(handed(steps) =~= typed(events).map_values(viewer));
    } else {
        beginning_is_run(steps, events);
        let begun = steps.drop_last();
        let told = events.drop_last();
        assert forall|at: int| 0 <= at < told.len() implies (
        #[trigger] begun[at] matches DataStep::Read(read) ==> (
        told[at] matches DataEvent::Read(Ok(bytes)) ==> bytes@.len() <= read.limit)) by {
            assert(begun[at] == steps[at]);
        }
        terminal_is_handed_what_the_viewer_typed(begun, told);
        assert(begun.last() == steps[events.len() - 1]);
        assert(handed(steps) =~= typed(events).map_values(viewer));
    }
}

/// The bytes that steps write to the connection, write by write.
pub open spec fn written(steps: Seq<DataStep>) -> Seq<Seq<u8>>
    decreases steps.len(),
{
    if steps.len() == 0 {
        Seq::empty()
    } else {
        match steps.last() {
            DataStep::Write(write) => written(steps.drop_last()).push(write.bytes@),
            _ => written(steps.drop_last()),
        }
    }
}

/// The bytes that events call for on the connection: the answer to the attach,
/// and the transcript where there is one.
pub open spec fn called_for(events: Seq<DataEvent>) -> Seq<Seq<u8>>
    decreases events.len(),
{
    if events.len() == 0 {
        Seq::empty()
    } else {
        let before = called_for(events.drop_last());
        match events.last() {
            DataEvent::Reserved(Ok(_)) => before.push(reply_bytes(WireReply::AttachAccepted)),
            DataEvent::Reserved(Err(refusal)) => if refusal.error
                == TerminalCellError::ViewerAlreadyAttached {
                before.push(reply_bytes(WireReply::AttachRejected(second_viewer_refusal())))
            } else {
                before
            },
            DataEvent::Snapshot(Ok(snapshot)) => if snapshot.bytes@.len() > 0 {
                before.push(snapshot.bytes@)
            } else {
                before
            },
            _ => before,
        }
    }
}

/// An attached connection carries the answer to the attach and the transcript, and
/// writes nothing else of its own.
pub proof fn viewer_is_sent_the_handshake_and_the_replay(
    steps: Seq<DataStep>,
    events: Seq<DataEvent>,
)
    requires
        is_run(steps, events),
        steps[0] is Reserve,
    ensures
        written(steps) == called_for(events),
    decreases steps.len(),
{
    if events.len() == 0 {
        assert(written(steps.drop_last()) =~= Seq::empty());
        assert(written(steps) =~= called_for(events));
    } else {
        beginning_is_run(steps, events);
        viewer_is_sent_the_handshake_and_the_replay(steps.drop_last(), events.drop_last());
        assert(steps.drop_last().last() == steps[events.len() - 1]);
        assert(written(steps) =~= called_for(events));
    }
}

/// How far a step is on the way of a data connection.
pub open spec fn stage(step: DataStep) -> nat {
    match step {
        DataStep::Reserve(_) => 0,
        DataStep::Write(write) => match write.after {
            AfterWrite::Finish | AfterWrite::Fail(_) | AfterWrite::Accepted(_) => 1,
            AfterWrite::Replayed(_) => 3,
        },
        DataStep::Replay(_) => 2,
        DataStep::Activate(_) => 4,
        DataStep::Record(record) => if record.after is Pump {
            5
        } else {
            7
        },
        DataStep::Read(_) | DataStep::Forward(_) => 6,
        DataStep::Detach(detach) => if detach.pumped {
            8
        } else {
            9
        },
        DataStep::Finish(_) => 10,
    }
}

/// A connection passes through its stages in their order, and through each of them
/// once: the handshake comes before the replay, and the replay before the pump.
/// Reading and forwarding alone take turns.
pub proof fn stages_pass_in_order(
    steps: Seq<DataStep>,
    events: Seq<DataEvent>,
    earlier: int,
    later: int,
)
    requires
        is_run(steps, events),
        0 <= earlier < later < steps.len(),
    ensures
        stage(steps[earlier]) < stage(steps[later]) || (stage(steps[earlier]) == 6 && stage(
            steps[later],
        ) == 6),
    decreases later - earlier,
{
    assert(resumed(steps[later - 1], events[later - 1], steps[later - 1 + 1]));
    if earlier < later - 1 {
        stages_pass_in_order(steps, events, earlier, later - 1);
    }
}

/// An attach begins with the place of the viewer. Any other request is told to use the
/// control socket, and the connection fails.
pub proof fn only_an_attach_begins(request: SocketRequest, step: DataStep)
    requires
        call_ensures(TerminalDataConnection::run, (request,), step),
    ensures
        if request is Attach {
            step is Reserve
        } else {
            &&& step matches DataStep::Write(sent)
            &&& sent.bytes@ == reply_bytes(
                WireReply::AttachRejected(
                    "data socket only accepts viewer attach; use the control socket"@,
                ),
            )
            &&& sent.after matches AfterWrite::Fail(error)
            &&& error.kind is InvalidInput
            &&& error.message@ == "non-attach request arrived on terminal-cell data socket"@
        },
{
}

/// The viewer that got the place is accepted under its lease. A second viewer is told that
/// the place is taken, and the connection ends as that write does. Any other refusal breaks
/// the connection with the terminal's text.
pub proof fn place_decides_the_handshake(
    asked: ReserveStep,
    reserved: Result<TerminalViewerLease, TerminalFailure>,
    step: DataStep,
)
    requires
        call_ensures(ReserveStep::resume, (asked, reserved), step),
    ensures
        match reserved {
            Ok(lease) => {
                &&& step matches DataStep::Write(sent)
                &&& sent.bytes@ == seq![0x49u8]
                &&& sent.after matches AfterWrite::Accepted(kept)
                &&& kept == lease
            },
            Err(refusal) => if refusal.error is ViewerAlreadyAttached {
                &&& step matches DataStep::Write(sent)
                &&& sent.bytes@ == reply_bytes(
                    WireReply::AttachRejected("terminal cell already has an attached viewer"@),
                )
                &&& sent.after is Finish
            } else {
                &&& step matches DataStep::Finish(Err(error))
                &&& error.kind is BrokenPipe
                &&& error.message@ == refusal.text@
            },
        },
{
}

/// Whether a step gives up the place of a viewer that no pump has started for, with a
/// failure of a kind and a message.
pub open spec fn leaves_with(
    step: DataStep,
    lease: TerminalViewerLease,
    kind: ErrorKind,
    message: Seq<char>,
) -> bool {
    &&& step matches DataStep::Detach(detach)
    &&& detach.lease == lease
    &&& !detach.pumped
    &&& detach.result matches Err(error)
    &&& error.kind == kind
    &&& error.message@ == message
}

/// Behind the handshake comes the transcript, and behind the transcript the live output, all
/// under one lease; a write that fails gives the place up with its failure. A refusal ends
/// the connection: with the failure that was to follow, or as the write did.
pub proof fn handshake_is_followed_by_the_replay(
    asked: WriteStep,
    written: Result<(), ConnectionError>,
    step: DataStep,
)
    requires
        call_ensures(WriteStep::resume, (asked, written), step),
    ensures
        match asked.after {
            AfterWrite::Finish => match written {
                Ok(()) => step matches DataStep::Finish(Ok(())),
                Err(error) => step matches DataStep::Finish(Err(same)) && same == error,
            },
            AfterWrite::Fail(failure) => match written {
                Ok(()) => step matches DataStep::Finish(Err(same)) && same == failure,
                Err(error) => step matches DataStep::Finish(Err(same)) && same == error,
            },
            AfterWrite::Accepted(lease) => match written {
                Ok(()) => step matches DataStep::Replay(next) && next.lease == lease,
                Err(error) => leaves_with(step, lease, error.kind, error.message@),
            },
            AfterWrite::Replayed(lease) => match written {
                Ok(()) => step matches DataStep::Activate(next) && next.lease == lease,
                Err(error) => leaves_with(step, lease, error.kind, error.message@),
            },
        },
{
}

/// The transcript so far is written to the viewer byte for byte, unless there is nothing in
/// it. Where there is none, the place is given up with the reason.
pub proof fn replay_is_the_transcript(
    asked: ReplayStep,
    snapshot: Result<TranscriptSnapshot, String>,
    step: DataStep,
)
    requires
        call_ensures(ReplayStep::resume, (asked, snapshot), step),
    ensures
        match snapshot {
            Ok(taken) => if taken.bytes@.len() > 0 {
                &&& step matches DataStep::Write(sent)
                &&& sent.bytes@ == taken.bytes@
                &&& sent.after matches AfterWrite::Replayed(lease)
                &&& lease == asked.lease
            } else {
                step matches DataStep::Activate(next) && next.lease == asked.lease
            },
            Err(text) => leaves_with(step, asked.lease, ErrorKind::BrokenPipe, text@),
        },
{
}

/// Live output starts the pump, and its start is recorded. Where the connection or the
/// terminal fails, the place is given up with that failure.
pub proof fn activation_starts_the_pump(
    asked: ActivateStep,
    activated: Result<(), ActivationFailure>,
    step: DataStep,
)
    requires
        call_ensures(ActivateStep::resume, (asked, activated), step),
    ensures
        match activated {
            Ok(()) => {
                &&& step matches DataStep::Record(record)
                &&& record.lease == asked.lease
                &&& record.lifecycle matches TerminalWorkerLifecycle::Started(worker)
                &&& worker is AttachConnectionPump
                &&& record.after is Pump
            },
            Err(ActivationFailure::Connection(error)) => leaves_with(
                step,
                asked.lease,
                error.kind,
                error.message@,
            ),
            Err(ActivationFailure::Terminal(refusal)) => leaves_with(
                step,
                asked.lease,
                ErrorKind::BrokenPipe,
                refusal.text@,
            ),
        },
{
}

/// Behind its start the pump reads up to 8192 bytes at once; behind its stop the place is
/// given up with what it came out as.
pub proof fn record_is_followed_as_it_says(asked: RecordStep, step: DataStep)
    requires
        call_ensures(RecordStep::resume, (asked,), step),
    ensures
        match asked.after {
            AfterRecord::Pump => {
                &&& step matches DataStep::Read(next)
                &&& next.lease == asked.lease
                &&& next.limit == 8192
            },
            AfterRecord::Stop(result) => {
                &&& step matches DataStep::Detach(next)
                &&& next.lease == asked.lease
                &&& next.result == result
                &&& next.pumped
            },
        },
{
}

/// Whether a step records that the pump has stopped, in good order or with a failure, and
/// keeps the failure for the end of the connection.
pub open spec fn stops_with(
    step: DataStep,
    lease: TerminalViewerLease,
    failed: Option<(ErrorKind, Seq<char>)>,
) -> bool {
    &&& step matches DataStep::Record(record)
    &&& record.lease == lease
    &&& record.lifecycle matches TerminalWorkerLifecycle::Stopped { worker, reason }
    &&& worker is AttachConnectionPump
    &&& record.after matches AfterRecord::Stop(result)
    &&& match failed {
        None => reason is AttachConnectionClosed && result is Ok,
        Some((kind, message)) => {
            &&& reason matches TerminalWorkerStop::AttachConnectionFailed(text)
            &&& text@ == message
            &&& result matches Err(error)
            &&& error.kind == kind
            &&& error.message@ == message
        },
    }
}

/// What the viewer types goes to the terminal byte for byte, as a viewer's input. The end of
/// it stops the pump in good order, and a read that fails stops it with its failure.
pub proof fn pump_hands_on_what_it_reads(
    asked: ReadStep,
    read: Result<Vec<u8>, ConnectionError>,
    step: DataStep,
)
    requires
        call_ensures(ReadStep::resume, (asked, read), step),
    ensures
        match read {
            Ok(bytes) => if bytes@.len() > 0 {
                &&& step matches DataStep::Forward(next)
                &&& next.lease == asked.lease
                &&& next.input.bytes@ == bytes@
                &&& next.input.source is Viewer
            } else {
                stops_with(step, asked.lease, None)
            },
            Err(error) => stops_with(step, asked.lease, Some((error.kind, error.message@))),
        },
{
}

/// The pump reads on once the terminal has taken the input; where the terminal refuses it,
/// the pump stops with the terminal's text.
pub proof fn pump_goes_on_behind_taken_input(
    asked: ForwardStep,
    accepted: Result<(), TerminalFailure>,
    step: DataStep,
)
    requires
        call_ensures(ForwardStep::resume, (asked, accepted), step),
    ensures
        match accepted {
            Ok(()) => {
                &&& step matches DataStep::Read(next)
                &&& next.lease == asked.lease
                &&& next.limit == 8192
            },
            Err(refusal) => stops_with(
                step,
                asked.lease,
                Some((ErrorKind::BrokenPipe, refusal.text@)),
            ),
        },
{
}

/// Once the place is given up the connection ends as the attachment came out. Behind a pump
/// that failed the place is given up once more, with the same failure.
pub proof fn detachment_keeps_the_result(asked: DetachStep, step: DataStep)
    requires
        call_ensures(DetachStep::resume, (asked,), step),
    ensures
        if asked.pumped && asked.result is Err {
            &&& step matches DataStep::Detach(again)
            &&& again.lease == asked.lease
            &&& again.result == asked.result
            &&& !again.pumped
        } else {
            step matches DataStep::Finish(result) && result == asked.result
        },
{
}

/// The failure that an event tells, if it tells one. That the place of the viewer is taken
/// is none.
pub open spec fn told_failure(event: DataEvent) -> Option<Failure> {
    match event {
        DataEvent::Reserved(Err(refusal)) => if refusal.error is ViewerAlreadyAttached {
            None
        } else {
            Some(Failure { kind: ErrorKind::BrokenPipe, message: refusal.text@ })
        },
        DataEvent::Written(Err(error)) => Some(
            Failure { kind: error.kind, message: error.message@ },
        ),
        DataEvent::Snapshot(Err(text)) => Some(
            Failure { kind: ErrorKind::BrokenPipe, message: text@ },
        ),
        DataEvent::Activated(Err(ActivationFailure::Connection(error))) => Some(
            Failure { kind: error.kind, message: error.message@ },
        ),
        DataEvent::Activated(Err(ActivationFailure::Terminal(refusal))) => Some(
            Failure { kind: ErrorKind::BrokenPipe, message: refusal.text@ },
        ),
        DataEvent::Read(Err(error)) => Some(
            Failure { kind: error.kind, message: error.message@ },
        ),
        DataEvent::Accepted(Err(refusal)) => Some(
            Failure { kind: ErrorKind::BrokenPipe, message: refusal.text@ },
        ),
        _ => None,
    }
}

/// The failure that one of the events tells, if any does.
pub open spec fn failure_among(events: Seq<DataEvent>) -> Option<Failure>
    decreases events.len(),
{
    if events.len() == 0 {
        None
    } else if told_failure(events.last()) is Some {
        told_failure(events.last())
    } else {
        failure_among(events.drop_last())
    }
}

/// How a step says that the attachment came out, if it says so yet.
pub open spec fn settled(step: DataStep) -> Option<Result<(), Failure>> {
    match step {
        DataStep::Record(record) => match record.after {
            AfterRecord::Stop(result) => Some(came_out(result)),
            AfterRecord::Pump => None,
        },
        DataStep::Detach(detach) => Some(came_out(detach.result)),
        DataStep::Finish(result) => Some(came_out(result)),
        _ => None,
    }
}

/// A connection that begins with the place of the viewer ends with the failure that one of
/// its events told, and in good order where none did.
pub proof fn connection_ends_as_it_was_told(steps: Seq<DataStep>, events: Seq<DataEvent>)
    requires
        is_run(steps, events),
        steps[0] is Reserve,
    ensures
        settled(steps.last()) is None ==> failure_among(events) is None,
        settled(steps.last()) matches Some(Ok(())) ==> failure_among(events) is None,
        settled(steps.last()) matches Some(Err(failure)) ==> failure_among(events) == Some(
            failure,
        ),
        steps.last() matches DataStep::Finish(Ok(())) ==> failure_among(events) is None,
        steps.last() matches DataStep::Finish(Err(error)) ==> (failure_among(
            events,
        ) matches Some(failure) && failure.kind == error.kind && failure.message
            == error.message@),
        steps.last() matches DataStep::Write(write) ==> !(write.after is Fail),
    decreases steps.len(),
{
    if events.len() > 0 {
        let earlier = steps.drop_last();
        let earlier_events = events.drop_last();
        let at: int = events.len() - 1;
        assert(is_run(earlier, earlier_events)) by {
            assert forall|i: int| 0 <= i < earlier_events.len() implies #[trigger] resumed(
                earlier[i],
                earlier_events[i],
                earlier[i + 1],
            ) by {
                assert(resumed(steps[i], events[i], steps[i + 1]));
            }
        }
        connection_ends_as_it_was_told(earlier, earlier_events);
        assert(resumed(steps[at], events[at], steps[at + 1]));
        assert(earlier.last() == steps[at]);
    }
}

} // verus!
