//! What each step of a control connection goes on to, told from what the step holds and
//! from the result that it is resumed with.
use vstd::prelude::*;
use vstd::utf8::*;
use crate::control::TerminalControlConnection;
use crate::control_state::{
    is_number_of, lease_numbers_are_their_own, TerminalSignalControlState,
};
use crate::control_steps::{
    signal_lease, terminal_lease, AcceptPurpose, AcceptStep, AfterReply, ArchiveStep,
    CloseGatePurpose, CloseGateStep, ControlStep, NextDeltaStep, NextLifecycleStep,
    ObserveWorkersStep, OpenGatePurpose, OpenGateStep, ReplyStep, ResizePurpose, ResizeStep,
    SnapshotPurpose, SnapshotStep, SubscribeLifecycleStep, SubscribeStep, WaitExitStep,
    WaitTextStep,
};
use crate::failure::ConnectionError;
use crate::prompt::{literal_pattern_is_held_against_the_end, signal_prompt_state};
use crate::query_laws::are_bytes_of;
use crate::reply::{reply_bytes, WireReply};
use crate::request::{SignalSocketRequest, SocketRequest};
use crate::signal;
use crate::signal::{
    AcquireInputGateRequest, Lease, Pattern, PromptState, Query, Response, TerminalEvent,
    WriteInjectionRequest,
};
use crate::terminal::{
    TerminalCellError, TerminalFailure, TerminalInputGateLease, TerminalInputGateRelease,
    TerminalWorkerLifecycle, TranscriptSnapshot,
};
use crate::worker::{same_stop, same_worker};

verus! {

/// Whether a connection ends with a broken pipe and a text.
pub open spec fn breaks_with(step: ControlStep, text: Seq<char>) -> bool {
    &&& step matches ControlStep::Finish(Err(error))
    &&& error.kind is BrokenPipe
    &&& error.message@ == text
}

/// Whether a step writes a reply and ends the connection with it.
pub open spec fn writes_last(step: ControlStep, reply: WireReply) -> bool {
    &&& step matches ControlStep::Reply(sent)
    &&& sent.bytes@ == reply_bytes(reply)
    &&& sent.after is Finish
}

/// Whether a signed number has the bits of an unsigned one: it is the same number, or, past
/// the middle, the same less two to the power of 64.
pub open spec fn has_the_bits_of(value: i64, number: u64) -> bool {
    value == if number <= i64::MAX {
        number as int
    } else {
        number - 0x1_0000_0000_0000_0000
    }
}

/// A cast to a signed number keeps the bits.
pub proof fn cast_keeps_the_bits(number: u64)
    ensures
        has_the_bits_of(number as i64, number),
{
    assert(number <= 0x7fff_ffff_ffff_ffff ==> (number as i64) == number) by (bit_vector);
    assert(number > 0x7fff_ffff_ffff_ffff ==> (number as i64) == number
        - 0x1_0000_0000_0000_0000int) by (bit_vector);
}

/// A lease has one number on both sides: the terminal's lease and the client's have the same
/// bits, whichever way a lease is put in the other's words.
pub proof fn lease_has_one_number(
    terminal: TerminalInputGateLease,
    told: Lease,
    lease: Lease,
    handed: TerminalInputGateLease,
)
    requires
        call_ensures(signal_lease, (terminal,), told),
        call_ensures(terminal_lease, (&lease,), handed),
    ensures
        has_the_bits_of(told.input_gate_lease_identifier, terminal.sequence.value),
        is_number_of(terminal.sequence.value, told),
        is_number_of(handed.sequence.value, lease),
        lease == told ==> handed == terminal,
{
    cast_keeps_the_bits(terminal.sequence.value);
    let value = terminal.sequence.value;
    assert((value as i64) as u64 == value) by (bit_vector);
    lease_numbers_are_their_own(told, lease);
    lease_numbers_are_their_own(lease, told);
}

/// A snapshot goes where it was asked for: to the client byte for byte, as one integer for
/// each byte to a Signal client, and as its last sequence number behind an injection. Where
/// there is none, the connection breaks with the reason.
pub proof fn snapshot_goes_where_it_was_asked_for(
    asked: SnapshotStep,
    snapshot: Result<TranscriptSnapshot, String>,
    step: ControlStep,
)
    requires
        call_ensures(SnapshotStep::resume, (asked, snapshot), step),
    ensures
        match snapshot {
            Err(text) => breaks_with(step, text@),
            Ok(taken) => match asked.purpose {
                SnapshotPurpose::Capture => writes_last(step, WireReply::Snapshot(taken.bytes@)),
                SnapshotPurpose::SignalCapture { terminal } => {
                    &&& step matches ControlStep::Archive(archive)
                    &&& archive.after is Finish
                    &&& archive.response matches Response::TerminalCaptured(captured)
                    &&& captured.terminal@ == terminal@
                    &&& captured.generation == 1
                    &&& captured.transcript_bytes@.len() == taken.bytes@.len()
                    &&& forall|at: int|
                        0 <= at < taken.bytes@.len()
                            ==> #[trigger] captured.transcript_bytes@[at] == taken.bytes@[at]
                },
                SnapshotPurpose::InjectionAck { terminal } => {
                    &&& step matches ControlStep::Archive(archive)
                    &&& archive.after is Finish
                    &&& archive.response matches Response::InjectionAck(acknowledged)
                    &&& acknowledged.terminal@ == terminal@
                    &&& acknowledged.generation == 1
                    &&& has_the_bits_of(acknowledged.sequence, taken.last_sequence)
                },
                SnapshotPurpose::PromptState { .. } => true,
            },
        },
{
    if snapshot is Ok {
        cast_keeps_the_bits(snapshot->Ok_0.last_sequence);
    }
}

/// A snapshot that was asked for on account of the prompt is held against the pattern, and
/// the input gate is closed with what comes out; a pattern that is none ends the connection.
pub proof fn snapshot_is_held_against_the_pattern(
    asked: SnapshotStep,
    snapshot: TranscriptSnapshot,
    step: ControlStep,
    transcript: &[u8],
    state: Result<PromptState, ConnectionError>,
)
    requires
        call_ensures(SnapshotStep::resume, (asked, Ok(snapshot)), step),
        asked.purpose is PromptState,
        transcript@ == snapshot.bytes@,
        call_ensures(signal_prompt_state, (&asked.purpose->pattern, transcript), state),
    ensures
        match state {
            Ok(judged) => {
                &&& step matches ControlStep::CloseGate(closing)
                &&& closing.purpose matches CloseGatePurpose::Signal { terminal, prompt_state }
                &&& terminal@ == asked.purpose->PromptState_terminal@
                &&& prompt_state == judged
            },
            Err(error) => {
                &&& step matches ControlStep::Finish(Err(same))
                &&& same.kind == error.kind
                &&& same.message@ == error.message@
            },
        },
{
}

/// Input that the terminal took is acknowledged to whoever sent it; behind an injection, the
/// transcript is asked for first. Input that it refused breaks the connection with the
/// terminal's text.
pub proof fn taken_input_is_acknowledged(
    asked: AcceptStep,
    accepted: Result<(), TerminalFailure>,
    step: ControlStep,
)
    requires
        call_ensures(AcceptStep::resume, (asked, accepted), step),
    ensures
        match accepted {
            Err(refusal) => breaks_with(step, refusal.text@),
            Ok(()) => match asked.purpose {
                AcceptPurpose::Input => writes_last(step, WireReply::Acceptance),
                AcceptPurpose::SignalInput { terminal } => {
                    &&& step matches ControlStep::Archive(archive)
                    &&& archive.after is Finish
                    &&& archive.response matches Response::TerminalInputAccepted(told)
                    &&& told.terminal@ == terminal@
                    &&& told.generation == 1
                },
                AcceptPurpose::Injection { terminal } => {
                    &&& step matches ControlStep::Snapshot(next)
                    &&& next.purpose matches SnapshotPurpose::InjectionAck { terminal: same }
                    &&& same@ == terminal@
                },
            },
        },
{
}

/// Closing the input gate gives a client the terminal's own lease. A Signal client gets its
/// number with the prompt state, and that state is remembered for this lease and for no
/// other. Where the input gate is held, a Signal client is told the holder's number, and
/// where closing fails otherwise, or for a plain client, the connection breaks with the
/// terminal's text. The patterns are left alone.
pub proof fn closing_gives_the_lease(
    asked: CloseGateStep,
    closed: Result<TerminalInputGateLease, TerminalFailure>,
    state: &mut TerminalSignalControlState,
    step: ControlStep,
    other: Lease,
    name: Seq<char>,
)
    requires
        call_ensures(CloseGateStep::resume, (asked, closed, state), step),
    ensures
        match closed {
            Ok(lease) => match asked.purpose {
                CloseGatePurpose::Lease => {
                    &&& writes_last(step, WireReply::GateLease(lease))
                    &&& final(state)@ == old(state)@
                },
                CloseGatePurpose::Signal { terminal, prompt_state } => {
                    &&& step matches ControlStep::Archive(archive)
                    &&& archive.after is Finish
                    &&& archive.response matches Response::GateAcquired(acquired)
                    &&& acquired.terminal@ == terminal@
                    &&& is_number_of(lease.sequence.value, acquired.lease)
                    &&& acquired.prompt_state == prompt_state
                    &&& final(state)@.lease_state(acquired.lease) == Some(prompt_state)
                    &&& other != acquired.lease ==> final(state)@.lease_state(other)
                        == old(state)@.lease_state(other)
                },
            },
            Err(refusal) => {
                &&& final(state)@ == old(state)@
                &&& match (asked.purpose, refusal.error) {
                    (
                        CloseGatePurpose::Signal { terminal, .. },
                        TerminalCellError::InputGateAlreadyClosed(holder),
                    ) => {
                        &&& step matches ControlStep::Archive(archive)
                        &&& archive.after is Finish
                        &&& archive.response matches Response::GateBusy(busy)
                        &&& busy.terminal@ == terminal@
                        &&& has_the_bits_of(busy.current_holder, holder.sequence.value)
                    },
                    _ => breaks_with(step, refusal.text@),
                }
            },
        },
        final(state)@.selected(name) == old(state)@.selected(name),
        final(state)@.next_prompt_pattern == old(state)@.next_prompt_pattern,
{
    match closed {
        Ok(lease) => {
            let value = lease.sequence.value;
            assert((value as i64) as u64 == value) by (bit_vector);
            let told = Lease { input_gate_lease_identifier: value as i64 };
            lease_numbers_are_their_own(told, other);
        },
        Err(refusal) => {
            if let TerminalCellError::InputGateAlreadyClosed(holder) = refusal.error {
                cast_keeps_the_bits(holder.sequence.value);
            }
        },
    }
}

/// Opening the input gate tells the client how much had been held: a plain client by the
/// terminal's own release, a Signal client by the count, for the lease that it gave back. A
/// lease that is spent, or that the terminal calls stale, is forgotten, and no other. Where
/// opening fails otherwise, or for a plain client, the connection breaks with the terminal's
/// text. The patterns are left alone.
pub proof fn opening_tells_what_was_held(
    asked: OpenGateStep,
    opened: Result<TerminalInputGateRelease, TerminalFailure>,
    state: &mut TerminalSignalControlState,
    step: ControlStep,
    spent: Lease,
    other: Lease,
    name: Seq<char>,
)
    requires
        call_ensures(OpenGateStep::resume, (asked, opened, state), step),
        match asked.purpose {
            OpenGatePurpose::Release => opened matches Ok(release) ==> is_number_of(
                release.lease.sequence.value,
                spent,
            ),
            OpenGatePurpose::Signal { lease, .. } => spent == lease,
        },
        other != spent,
    ensures
        match opened {
            Ok(release) => {
                &&& match asked.purpose {
                    OpenGatePurpose::Release => writes_last(step, WireReply::GateRelease(release)),
                    OpenGatePurpose::Signal { terminal, lease } => {
                        &&& step matches ControlStep::Archive(archive)
                        &&& archive.after is Finish
                        &&& archive.response matches Response::GateReleased(released)
                        &&& released.terminal@ == terminal@
                        &&& released.lease == lease
                        &&& has_the_bits_of(
                            released.cached_human_bytes,
                            release.held_byte_count as u64,
                        )
                    },
                }
                &&& final(state)@.lease_state(spent) is None
                &&& final(state)@.lease_state(other) == old(state)@.lease_state(other)
            },
            Err(refusal) => match asked.purpose {
                OpenGatePurpose::Signal { terminal, lease } if refusal.error
                    == TerminalCellError::StaleInputGateLease => {
                    &&& step matches ControlStep::Archive(archive)
                    &&& archive.after is Finish
                    &&& archive.response matches Response::InjectionRejected(rejected)
                    &&& rejected.terminal@ == terminal@
                    &&& rejected.injection_rejection_reason is UnknownLease
                    &&& final(state)@.lease_state(spent) is None
                    &&& final(state)@.lease_state(other) == old(state)@.lease_state(other)
                },
                _ => breaks_with(step, refusal.text@) && final(state)@ == old(state)@,
            },
        },
        final(state)@.selected(name) == old(state)@.selected(name),
        final(state)@.next_prompt_pattern == old(state)@.next_prompt_pattern,
{
    lease_numbers_are_their_own(spent, other);
    lease_numbers_are_their_own(other, spent);
    if let Ok(release) = opened {
        let held: usize = release.held_byte_count;
        assert((held as u64) as i64 == held as i64) by (bit_vector);
        cast_keeps_the_bits(held as u64);
    }
}

/// The memory is waited for behind the input gate exactly where going on can change it: where
/// a Signal client got a lease, where a lease was given back, and where a Signal client's
/// lease is stale.
pub proof fn memory_is_waited_for_behind_the_input_gate(
    closing: CloseGateStep,
    closed: Result<TerminalInputGateLease, TerminalFailure>,
    records: bool,
    opening: OpenGateStep,
    opened: Result<TerminalInputGateRelease, TerminalFailure>,
    forgets: bool,
)
    requires
        call_ensures(CloseGateStep::consults_signal_state, (&closing, &closed), records),
        call_ensures(OpenGateStep::consults_signal_state, (&opening, &opened), forgets),
    ensures
        records <==> closing.purpose is Signal && closed is Ok,
        forgets <==> opened is Ok || (opening.purpose is Signal && (opened matches Err(refusal)
            && refusal.error is StaleInputGateLease)),
{
}

/// A size that the terminal took is acknowledged: to a Signal client with the rows and the
/// columns that it asked for. Otherwise the connection breaks with the reason.
pub proof fn taken_size_is_acknowledged(
    asked: ResizeStep,
    resized: Result<(), String>,
    step: ControlStep,
)
    requires
        call_ensures(ResizeStep::resume, (asked, resized), step),
    ensures
        match resized {
            Err(text) => breaks_with(step, text@),
            Ok(()) => match asked.purpose {
                ResizePurpose::Resize => writes_last(step, WireReply::Acceptance),
                ResizePurpose::Signal(resize) => {
                    &&& step matches ControlStep::Archive(archive)
                    &&& archive.after is Finish
                    &&& archive.response matches Response::TerminalResized(told)
                    &&& told.terminal@ == resize.terminal@
                    &&& told.rows == resize.rows
                    &&& told.columns == resize.columns
                    &&& told.generation == 1
                },
            },
        },
{
}

/// A wait for text is answered once the text is there. Where the transcript ends without it
/// the wait has timed out, and where waiting fails the connection breaks with the reason.
pub proof fn wait_ends_with_the_text(
    asked: WaitTextStep,
    matched: Result<bool, String>,
    step: ControlStep,
)
    requires
        call_ensures(WaitTextStep::resume, (asked, matched), step),
    ensures
        match matched {
            Err(text) => breaks_with(step, text@),
            Ok(true) => writes_last(step, WireReply::WaitSatisfied),
            Ok(false) => {
                &&& step matches ControlStep::Finish(Err(error))
                &&& error.kind is TimedOut
                &&& error.message@ == "terminal transcript waiter ended without a match"@
            },
        },
{
}

/// An exit status reaches the client as it is, and so does the text on the workers, as bytes.
/// Where there is none, the connection breaks with the reason.
pub proof fn texts_reach_the_client(
    exiting: WaitExitStep,
    status: Result<String, String>,
    exited: ControlStep,
    observing: ObserveWorkersStep,
    observation: Result<String, String>,
    observed: ControlStep,
)
    requires
        call_ensures(WaitExitStep::resume, (exiting, status), exited),
        call_ensures(ObserveWorkersStep::resume, (observing, observation), observed),
    ensures
        match status {
            Err(text) => breaks_with(exited, text@),
            Ok(text) => writes_last(exited, WireReply::ExitStatus(text@)),
        },
        match observation {
            Err(text) => breaks_with(observed, text@),
            Ok(text) => writes_last(observed, WireReply::Snapshot(encode_utf8(text@))),
        },
{
}

/// A subscriber gets the transcript so far and then each delta, byte for byte and with
/// nothing added. The end of the transcript ends the connection in good order, and a
/// subscription that fails breaks it with the reason.
pub proof fn subscriber_gets_the_bytes(
    subscribing: SubscribeStep,
    replay: Result<Vec<u8>, String>,
    replayed: ControlStep,
    waiting: NextDeltaStep,
    delta: Option<Vec<u8>>,
    told: ControlStep,
)
    requires
        call_ensures(SubscribeStep::resume, (subscribing, replay), replayed),
        call_ensures(NextDeltaStep::resume, (waiting, delta), told),
    ensures
        match replay {
            Err(text) => breaks_with(replayed, text@),
            Ok(bytes) => replayed matches ControlStep::Reply(sent) && sent.bytes@ == bytes@
                && sent.after is Replay,
        },
        match delta {
            Some(bytes) => told matches ControlStep::Reply(sent) && sent.bytes@ == bytes@
                && sent.after is Delta,
            None => told matches ControlStep::Finish(Ok(())),
        },
{
}

/// Whether a lifecycle is told in the words of the Signal contract: a start as a start, a
/// stop as a stop, with the worker and the reason of the same name.
pub open spec fn tells(
    told: signal::TerminalWorkerLifecycle,
    lifecycle: TerminalWorkerLifecycle,
) -> bool {
    match lifecycle {
        TerminalWorkerLifecycle::Started(worker) => {
            &&& told matches signal::TerminalWorkerLifecycle::Started(kind)
            &&& same_worker(worker, kind)
        },
        TerminalWorkerLifecycle::Stopped { worker, reason } => {
            &&& told matches signal::TerminalWorkerLifecycle::Stopped(stop)
            &&& same_worker(worker, stop.terminal_worker_kind)
            &&& same_stop(reason, stop.terminal_worker_stop_reason)
        },
    }
}

/// A subscriber is told the lifecycles so far in one response, in their order, and then each
/// one in an event of its own, always for the terminal that was named. The end of the
/// lifecycles ends the connection in good order, and a subscription that fails breaks it
/// with the reason.
pub proof fn subscriber_is_told_the_lifecycles(
    subscribing: SubscribeLifecycleStep,
    replay: Result<Vec<TerminalWorkerLifecycle>, String>,
    replayed: ControlStep,
    waiting: NextLifecycleStep,
    lifecycle: Option<TerminalWorkerLifecycle>,
    next: ControlStep,
)
    requires
        call_ensures(SubscribeLifecycleStep::resume, (subscribing, replay), replayed),
        call_ensures(NextLifecycleStep::resume, (waiting, lifecycle), next),
    ensures
        match replay {
            Err(text) => breaks_with(replayed, text@),
            Ok(history) => {
                &&& replayed matches ControlStep::Archive(archive)
                &&& archive.after matches AfterReply::Lifecycle { terminal }
                &&& terminal@ == subscribing.terminal@
                &&& archive.response matches Response::TerminalWorkerLifecycleSnapshot(told)
                &&& told.terminal@ == subscribing.terminal@
                &&& told.observations@.len() == history@.len()
                &&& forall|at: int|
                    0 <= at < history@.len() ==> tells(
                        #[trigger] told.observations@[at],
                        history@[at],
                    )
            },
        },
        match lifecycle {
            None => next matches ControlStep::Finish(Ok(())),
            Some(lifecycle) => {
                &&& next matches ControlStep::Archive(archive)
                &&& archive.after matches AfterReply::Lifecycle { terminal }
                &&& terminal@ == waiting.terminal@
                &&& archive.response matches Response::Event(
                    TerminalEvent::TerminalWorkerLifecycleEvent(event),
                )
                &&& event.terminal@ == waiting.terminal@
                &&& tells(event.observation, lifecycle)
            },
        },
{
}

/// A response is written as its archive, and the connection goes on as the response was to
/// be followed. Where it could not be archived, the connection fails and says why.
pub proof fn archive_is_written(
    asked: ArchiveStep,
    archive: Result<Vec<u8>, String>,
    step: ControlStep,
)
    requires
        call_ensures(ArchiveStep::resume, (asked, archive), step),
    ensures
        match archive {
            Ok(bytes) => {
                &&& step matches ControlStep::Reply(sent)
                &&& sent.bytes@ == reply_bytes(WireReply::Archive(bytes@))
                &&& sent.after == asked.after
            },
            Err(complaint) => {
                &&& step matches ControlStep::Finish(Err(error))
                &&& error.kind is InvalidData
                &&& error.message@ == "signal response archive failed: "@ + complaint@
            },
        },
{
}

/// Behind the last reply the connection ends as the write did, or with the failure that was
/// to follow. A stream goes on behind what it wrote; where a write fails the connection
/// fails with it, but for live bytes: a client that has left in the middle of them ends the
/// connection in good order.
pub proof fn reply_is_followed_as_it_says(
    asked: ReplyStep,
    written: Result<(), ConnectionError>,
    step: ControlStep,
)
    requires
        call_ensures(ReplyStep::resume, (asked, written), step),
    ensures
        match written {
            Ok(()) => match asked.after {
                AfterReply::Finish => step matches ControlStep::Finish(Ok(())),
                AfterReply::Fail(error) => step matches ControlStep::Finish(Err(same)) && same
                    == error,
                AfterReply::Replay => step is NextDelta,
                AfterReply::Delta => step is NextDelta,
                AfterReply::Lifecycle { terminal } => {
                    step matches ControlStep::NextLifecycle(next) && next.terminal@ == terminal@
                },
            },
            Err(error) => if asked.after is Delta {
                step matches ControlStep::Finish(Ok(()))
            } else {
                step matches ControlStep::Finish(Err(same)) && same == error
            },
        },
{
}

/// A Signal client that acquires the input gate with a literal pattern can inject input if
/// and only if the transcript was empty or ended with the pattern. What it injects then
/// reaches the terminal byte for byte; otherwise it is told that the prompt was dirty.
pub proof fn prompt_decides_what_a_lease_is_good_for(
    acquire: AcquireInputGateRequest,
    acquire_signal: SignalSocketRequest,
    acquire_state: &mut TerminalSignalControlState,
    asked: SnapshotStep,
    values: Seq<i64>,
    suffix: Seq<u8>,
    snapshot: TranscriptSnapshot,
    closing: CloseGateStep,
    lease: TerminalInputGateLease,
    closing_state: &mut TerminalSignalControlState,
    acquired: ControlStep,
    injection: WriteInjectionRequest,
    injection_signal: SignalSocketRequest,
    injection_state: &mut TerminalSignalControlState,
    step: ControlStep,
)
    requires
        acquire_signal.query() == Query::AcquireInputGate(acquire),
        call_ensures(
            TerminalControlConnection::run,
            (SocketRequest::Signal(acquire_signal), acquire_state),
            ControlStep::Snapshot(asked),
        ),
        acquire.prompt_pattern_identifier_selection matches Some(name)
            && old(acquire_state)@.selected(name@) == Some(Pattern::LiteralSuffix(values)),
        suffix.len() == values.len(),
        forall|at: int|
            0 <= at < suffix.len() ==> (values[at] - #[trigger] suffix[at]) % 256 == 0,
        snapshot.bytes@.len() <= i64::MAX,
        call_ensures(
            SnapshotStep::resume,
            (asked, Ok(snapshot)),
            ControlStep::CloseGate(closing),
        ),
        call_ensures(CloseGateStep::resume, (closing, Ok(lease), closing_state), acquired),
        final(closing_state)@ == old(injection_state)@,
        injection_signal.query() == Query::WriteInjection(injection),
        is_number_of(lease.sequence.value, injection.lease),
        call_ensures(
            TerminalControlConnection::run,
            (SocketRequest::Signal(injection_signal), injection_state),
            step,
        ),
    ensures
        snapshot.bytes@.len() == 0 || suffix.is_suffix_of(snapshot.bytes@) ==> {
            &&& step matches ControlStep::Accept(handed)
            &&& are_bytes_of(handed.input.bytes@, injection.input_bytes@)
            &&& handed.input.source is Programmatic
        },
        !(snapshot.bytes@.len() == 0 || suffix.is_suffix_of(snapshot.bytes@)) ==> {
            &&& step matches ControlStep::Archive(archive)
            &&& archive.response matches Response::InjectionRejected(rejected)
            &&& rejected.injection_rejection_reason is DirtyPrompt
        },
{
    literal_pattern_is_held_against_the_end(values, suffix, snapshot.bytes@);
    lease_numbers_are_their_own(injection.lease, injection.lease);
}

} // verus!
