//! The steps of a control connection. Each names work for the terminal or the
//! transport, and is resumed with the result of that work.
use vstd::prelude::*;
use vstd::string::*;
use vstd::utf8::*;
use crate::control_state::{lease_key, SignalMemory, TerminalSignalControlState};
use crate::failure::{failure, ConnectionError, ErrorKind, Failure};
use crate::prompt::{bytes_to_signal_bytes, prompt_state, signal_prompt_state, widened};
use crate::reply::{reply_bytes, SocketReplyWriter, WireReply};
use crate::signal::{
    GateAcquiredReply, GateBusyReply, GateReleasedReply, InjectionAckReply, InjectionRejectedReply,
    InjectionRejectionReason, InputGateLease, Lease, Pattern, PromptPattern, PromptState, Response,
    TerminalCapturedReply, TerminalEvent, TerminalInputAcceptedReply, TerminalResizeRequest,
    TerminalResizedReply, TerminalWorkerLifecycleEventPayload, TerminalWorkerLifecycleSnapshotReply,
};
use crate::terminal::{
    gate_lease, TerminalCellError, TerminalFailure, TerminalInput, TerminalInputGateLease,
    TerminalInputGateRelease, TerminalInputGateSequence, TerminalSize, TerminalWorkerLifecycle,
    TranscriptSnapshot, WaitForTranscriptText,
};
use crate::worker::{signal_lifecycle, signal_worker_lifecycle, signal_worker_lifecycles};

verus! {

/// What a control connection does next.
#[derive(Debug, PartialEq, Eq)]
pub enum ControlStep {
    /// Ask the terminal for a snapshot of its transcript.
    Snapshot(SnapshotStep),
    /// Subscribe to the transcript from its beginning.
    Subscribe(SubscribeStep),
    /// Wait for what the transcript gains next.
    NextDelta(NextDeltaStep),
    /// Hand input to the terminal.
    Accept(AcceptStep),
    /// Close the input gate.
    CloseGate(CloseGateStep),
    /// Open the input gate.
    OpenGate(OpenGateStep),
    /// Resize the terminal.
    Resize(ResizeStep),
    /// Wait until the transcript holds some text.
    WaitText(WaitTextStep),
    /// Wait until the terminal's process has exited.
    WaitExit(WaitExitStep),
    /// Ask for a text on the terminal's workers.
    ObserveWorkers(ObserveWorkersStep),
    /// Subscribe to the lifecycles of the terminal's workers.
    SubscribeLifecycle(SubscribeLifecycleStep),
    /// Wait for the next worker to start or stop.
    NextLifecycle(NextLifecycleStep),
    /// Archive a response.
    Archive(ArchiveStep),
    /// Write bytes to the connection, and flush it.
    Reply(ReplyStep),
    /// Close the connection.
    Finish(Result<(), ConnectionError>),
}

/// What a snapshot is for.
#[derive(Debug, PartialEq, Eq)]
pub enum SnapshotPurpose {
    Capture,
    SignalCapture { terminal: String },
    InjectionAck { terminal: String },
    /// To see whether the terminal stands at its prompt before the input gate is
    /// closed, by the pattern that was selected, if it is registered.
    PromptState { terminal: String, pattern: Option<PromptPattern> },
}

#[derive(Debug, PartialEq, Eq)]
pub struct SnapshotStep {
    pub purpose: SnapshotPurpose,
}

#[derive(Debug, PartialEq, Eq)]
pub struct SubscribeStep {}

#[derive(Debug, PartialEq, Eq)]
pub struct NextDeltaStep {}

/// What input is for.
#[derive(Debug, PartialEq, Eq)]
pub enum AcceptPurpose {
    Input,
    SignalInput { terminal: String },
    Injection { terminal: String },
}

#[derive(Debug, PartialEq, Eq)]
pub struct AcceptStep {
    pub input: TerminalInput,
    pub purpose: AcceptPurpose,
}

/// What the input gate is closed for.
#[derive(Debug, PartialEq, Eq)]
pub enum CloseGatePurpose {
    Lease,
    Signal { terminal: String, prompt_state: PromptState },
}

#[derive(Debug, PartialEq, Eq)]
pub struct CloseGateStep {
    pub purpose: CloseGatePurpose,
}

/// What the input gate is opened for.
#[derive(Debug, PartialEq, Eq)]
pub enum OpenGatePurpose {
    Release,
    Signal { terminal: String, lease: Lease },
}

#[derive(Debug, PartialEq, Eq)]
pub struct OpenGateStep {
    pub lease: TerminalInputGateLease,
    pub purpose: OpenGatePurpose,
}

/// What the terminal is resized for.
#[derive(Debug, PartialEq, Eq)]
pub enum ResizePurpose {
    Resize,
    Signal(TerminalResizeRequest),
}

#[derive(Debug, PartialEq, Eq)]
pub struct ResizeStep {
    pub size: TerminalSize,
    pub purpose: ResizePurpose,
}

#[derive(Debug, PartialEq, Eq)]
pub struct WaitTextStep {
    pub wait: WaitForTranscriptText,
}

#[derive(Debug, PartialEq, Eq)]
pub struct WaitExitStep {}

#[derive(Debug, PartialEq, Eq)]
pub struct ObserveWorkersStep {}

#[derive(Debug, PartialEq, Eq)]
pub struct SubscribeLifecycleStep {
    pub terminal: String,
}

#[derive(Debug, PartialEq, Eq)]
pub struct NextLifecycleStep {
    pub terminal: String,
}

/// What follows a reply.
#[derive(Debug, PartialEq, Eq)]
pub enum AfterReply {
    /// The connection ends as the write did.
    Finish,
    /// The connection fails, even if the write did not.
    Fail(ConnectionError),
    /// The replay of a transcript has been written; live bytes follow.
    Replay,
    /// Live bytes have been written; more follow. A client that is gone ends the
    /// connection in good order.
    Delta,
    /// A lifecycle has been written; more follow.
    Lifecycle { terminal: String },
}

#[derive(Debug, PartialEq, Eq)]
pub struct ArchiveStep {
    pub response: Response,
    pub after: AfterReply,
}

#[derive(Debug, PartialEq, Eq)]
pub struct ReplyStep {
    pub bytes: Vec<u8>,
    pub after: AfterReply,
}

/// Whether a step ends the connection with a failure.
pub open spec fn fails(step: ControlStep, failure: Failure) -> bool {
    step matches ControlStep::Finish(Err(error)) && error@ == failure
}

/// Whether a step sends a reply, and ends the connection with it.
pub open spec fn replies(step: ControlStep, reply: WireReply) -> bool {
    step matches ControlStep::Reply(sent) && sent.bytes@ == reply_bytes(reply) && sent.after
        == AfterReply::Finish
}

/// Whether a step sends a response, and ends the connection with it.
pub open spec fn responds(step: ControlStep, response: Response) -> bool {
    step == ControlStep::Archive(ArchiveStep { response, after: AfterReply::Finish })
}

/// Whether a step belongs to a stream, which goes on as long as the terminal has
/// more to tell.
pub open spec fn streams(step: ControlStep) -> bool {
    match step {
        ControlStep::Subscribe(_) | ControlStep::NextDelta(_) | ControlStep::SubscribeLifecycle(_)
        | ControlStep::NextLifecycle(_) => true,
        ControlStep::Archive(archive) => continues(archive.after),
        ControlStep::Reply(reply) => continues(reply.after),
        _ => false,
    }
}

/// Whether a stream goes on behind a reply.
pub open spec fn continues(after: AfterReply) -> bool {
    match after {
        AfterReply::Finish | AfterReply::Fail(_) => false,
        AfterReply::Replay | AfterReply::Delta | AfterReply::Lifecycle { .. } => true,
    }
}

/// How many more steps a connection can take at most, where it is no stream.
pub open spec fn steps_left(step: ControlStep) -> nat {
    match step {
        ControlStep::Finish(_) => 0,
        ControlStep::Reply(_) => 1,
        ControlStep::Archive(_) => 2,
        ControlStep::Snapshot(SnapshotStep { purpose: SnapshotPurpose::PromptState { .. } }) => 4,
        ControlStep::Accept(AcceptStep { purpose: AcceptPurpose::Injection { .. }, .. }) => 4,
        _ => 3,
    }
}

/// Whether a connection that is no stream comes closer to its end.
pub open spec fn advances(from: ControlStep, to: ControlStep) -> bool {
    !streams(from) ==> !streams(to) && steps_left(to) < steps_left(from)
}

/// The rejection of an injection or of a release.
pub open spec fn injection_rejected(
    terminal: String,
    reason: InjectionRejectionReason,
) -> Response {
    Response::InjectionRejected(
        InjectionRejectedReply { terminal, injection_rejection_reason: reason },
    )
}

/// A lease in the words of the Signal contract.
pub open spec fn signal_lease_of(lease: TerminalInputGateLease) -> Lease {
    InputGateLease { input_gate_lease_identifier: lease.sequence.value as i64 }
}

/// A lease of the Signal contract in the words of the terminal.
pub open spec fn terminal_lease_of(lease: Lease) -> TerminalInputGateLease {
    gate_lease(lease_key(lease))
}

/// The pattern in an option.
pub open spec fn pattern_in(pattern: Option<PromptPattern>) -> Option<Pattern> {
    match pattern {
        Some(pattern) => Some(pattern@),
        None => None,
    }
}

pub fn signal_lease(lease: TerminalInputGateLease) -> (translated: Lease)
    ensures
        translated == signal_lease_of(lease),
{
    InputGateLease { input_gate_lease_identifier: lease.sequence().into_u64() as i64 }
}

pub fn terminal_lease(lease: &Lease) -> (translated: TerminalInputGateLease)
    ensures
        translated == terminal_lease_of(*lease),
{
    TerminalInputGateLease::new(
        TerminalInputGateSequence::new(lease.input_gate_lease_identifier as u64),
    )
}

fn replying(writer: SocketReplyWriter) -> (step: ControlStep)
    ensures
        step matches ControlStep::Reply(sent) && sent.bytes@ == writer@ && sent.after
            == AfterReply::Finish,
{
    ControlStep::Reply(ReplyStep { bytes: writer.into_bytes(), after: AfterReply::Finish })
}

pub(crate) fn responding(response: Response) -> (step: ControlStep)
    ensures
        responds(step, response),
{
    ControlStep::Archive(ArchiveStep { response, after: AfterReply::Finish })
}

/// The failure of an ask that the terminal did not answer.
fn actor_error(text: String) -> (step: ControlStep)
    ensures
        fails(step, failure(ErrorKind::BrokenPipe, text@)),
{
    ControlStep::Finish(Err(ConnectionError::new(ErrorKind::BrokenPipe, text)))
}

/// The failure of work that the terminal refused.
fn terminal_error(refusal: TerminalFailure) -> (step: ControlStep)
    ensures
        fails(step, failure(ErrorKind::BrokenPipe, refusal.text@)),
{
    ControlStep::Finish(Err(ConnectionError::new(ErrorKind::BrokenPipe, refusal.text)))
}

fn acceptance() -> (step: ControlStep)
    ensures
        replies(step, WireReply::Acceptance),
{
    let mut writer = SocketReplyWriter::new(Vec::new());
    writer.write_acceptance();
    assert(writer@ =~= reply_bytes(WireReply::Acceptance));
    replying(writer)
}

impl SnapshotStep {
    /// Goes on with the snapshot, or with why there is none.
    pub fn resume(self, snapshot: Result<TranscriptSnapshot, String>) -> (step: ControlStep)
        ensures
            match snapshot {
                Err(text) => fails(step, failure(ErrorKind::BrokenPipe, text@)),
                Ok(snapshot) => match self.purpose {
                    SnapshotPurpose::Capture => replies(
                        step,
                        WireReply::Snapshot(snapshot.bytes@),
                    ),
                    SnapshotPurpose::SignalCapture { terminal } => {
                        &&& step matches ControlStep::Archive(archive)
                        &&& archive.after == AfterReply::Finish
                        &&& archive.response matches Response::TerminalCaptured(captured)
                        &&& captured.terminal == terminal
                        &&& captured.generation == 1
                        &&& captured.transcript_bytes@ == widened(snapshot.bytes@)
                    },
                    SnapshotPurpose::InjectionAck { terminal } => responds(
                        step,
                        Response::InjectionAck(
                            InjectionAckReply {
                                terminal,
                                generation: 1,
                                sequence: snapshot.last_sequence as i64,
                            },
                        ),
                    ),
                    SnapshotPurpose::PromptState { terminal, pattern } => match prompt_state(
                        pattern_in(pattern),
                        snapshot.bytes@,
                    ) {
                        Err(failure) => fails(step, failure),
                        Ok(prompt_state) => step == ControlStep::CloseGate(
                            CloseGateStep {
                                purpose: CloseGatePurpose::Signal { terminal, prompt_state },
                            },
                        ),
                    },
                },
            },
            advances(ControlStep::Snapshot(self), step),
    {
        let snapshot = match snapshot {
            Ok(snapshot) => snapshot,
            Err(text) => return actor_error(text),
        };
        match self.purpose {
            SnapshotPurpose::Capture => {
                let mut writer = SocketReplyWriter::new(Vec::new());
                writer.write_snapshot(snapshot.bytes.as_slice());
                assert(writer@ =~= reply_bytes(WireReply::Snapshot(snapshot.bytes@)));
                replying(writer)
            },
            SnapshotPurpose::SignalCapture { terminal } => responding(
                Response::TerminalCaptured(
                    TerminalCapturedReply {
                        terminal,
                        generation: 1,
                        transcript_bytes: bytes_to_signal_bytes(snapshot.bytes.as_slice()),
                    },
                ),
            ),
            SnapshotPurpose::InjectionAck { terminal } => responding(
                Response::InjectionAck(
                    InjectionAckReply {
                        terminal,
                        generation: 1,
                        sequence: snapshot.last_sequence as i64,
                    },
                ),
            ),
            SnapshotPurpose::PromptState { terminal, pattern } => match signal_prompt_state(
                &pattern,
                snapshot.bytes.as_slice(),
            ) {
                Ok(prompt_state) => ControlStep::CloseGate(
                    CloseGateStep { purpose: CloseGatePurpose::Signal { terminal, prompt_state } },
                ),
                Err(error) => ControlStep::Finish(Err(error)),
            },
        }
    }
}

/// Whether a step follows from subscribing to the transcript.
pub open spec fn after_subscribing(replay: Result<Vec<u8>, String>, step: ControlStep) -> bool {
    match replay {
        Err(text) => fails(step, failure(ErrorKind::BrokenPipe, text@)),
        Ok(bytes) => step == ControlStep::Reply(
            ReplyStep { bytes, after: AfterReply::Replay },
        ),
    }
}

impl SubscribeStep {
    /// Goes on with the transcript so far.
    pub fn resume(self, replay: Result<Vec<u8>, String>) -> (step: ControlStep)
        ensures
            after_subscribing(replay, step),
    {
        match replay {
            Ok(bytes) => ControlStep::Reply(ReplyStep { bytes, after: AfterReply::Replay }),
            Err(text) => actor_error(text),
        }
    }
}

/// The step behind what the transcript gained, or behind its end.
pub open spec fn after_delta(delta: Option<Vec<u8>>) -> ControlStep {
    match delta {
        Some(bytes) => ControlStep::Reply(ReplyStep { bytes, after: AfterReply::Delta }),
        None => ControlStep::Finish(Ok(())),
    }
}

impl NextDeltaStep {
    /// Goes on with what the transcript gained, or with its end.
    pub fn resume(self, delta: Option<Vec<u8>>) -> (step: ControlStep)
        ensures
            step == after_delta(delta),
    {
        match delta {
            Some(bytes) => ControlStep::Reply(ReplyStep { bytes, after: AfterReply::Delta }),
            None => ControlStep::Finish(Ok(())),
        }
    }
}

impl AcceptStep {
    /// Goes on once the terminal has taken the input, or refused it.
    pub fn resume(self, accepted: Result<(), TerminalFailure>) -> (step: ControlStep)
        ensures
            match accepted {
                Err(refusal) => fails(step, failure(ErrorKind::BrokenPipe, refusal.text@)),
                Ok(()) => match self.purpose {
                    AcceptPurpose::Input => replies(step, WireReply::Acceptance),
                    AcceptPurpose::SignalInput { terminal } => responds(
                        step,
                        Response::TerminalInputAccepted(
                            TerminalInputAcceptedReply { terminal, generation: 1 },
                        ),
                    ),
                    AcceptPurpose::Injection { terminal } => step == ControlStep::Snapshot(
                        SnapshotStep { purpose: SnapshotPurpose::InjectionAck { terminal } },
                    ),
                },
            },
            advances(ControlStep::Accept(self), step),
    {
        match accepted {
            Err(refusal) => terminal_error(refusal),
            Ok(()) => match self.purpose {
                AcceptPurpose::Input => acceptance(),
                AcceptPurpose::SignalInput { terminal } => responding(
                    Response::TerminalInputAccepted(
                        TerminalInputAcceptedReply { terminal, generation: 1 },
                    ),
                ),
                AcceptPurpose::Injection { terminal } => ControlStep::Snapshot(
                    SnapshotStep { purpose: SnapshotPurpose::InjectionAck { terminal } },
                ),
            },
        }
    }
}

/// Whether a step, and what the control plane remembers, follow from closing the
/// input gate. A lease for a Signal client is remembered with the prompt state; a
/// gate that is held is answered with its holder.
pub open spec fn after_closing(
    purpose: CloseGatePurpose,
    closed: Result<TerminalInputGateLease, TerminalFailure>,
    step: ControlStep,
    before: SignalMemory,
    after: SignalMemory,
) -> bool {
    match purpose {
        CloseGatePurpose::Lease => {
            &&& match closed {
                Ok(lease) => replies(step, WireReply::GateLease(lease)),
                Err(refusal) => fails(
                    step,
                    failure(ErrorKind::BrokenPipe, refusal.text@),
                ),
            }
            &&& after == before
        },
        CloseGatePurpose::Signal { terminal, prompt_state } => match closed {
            Ok(lease) => {
                &&& responds(
                    step,
                    Response::GateAcquired(
                        GateAcquiredReply {
                            terminal,
                            lease: signal_lease_of(lease),
                            prompt_state,
                        },
                    ),
                )
                &&& after == before.recording(
                    lease.sequence.value,
                    prompt_state,
                )
            },
            Err(refusal) => {
                &&& match refusal.error {
                    TerminalCellError::InputGateAlreadyClosed(holder) => responds(
                        step,
                        Response::GateBusy(
                            GateBusyReply {
                                terminal,
                                current_holder: holder.sequence.value as i64,
                            },
                        ),
                    ),
                    _ => fails(step, failure(ErrorKind::BrokenPipe, refusal.text@)),
                }
                &&& after == before
            },
        },
    }
}

impl CloseGateStep {
    /// Whether going on changes what the control plane remembers.
    pub fn consults_signal_state(
        &self,
        closed: &Result<TerminalInputGateLease, TerminalFailure>,
    ) -> (consults: bool)
        ensures
            consults == (self.purpose is Signal && closed is Ok),
    {
        match (&self.purpose, closed) {
            (CloseGatePurpose::Signal { .. }, Ok(_)) => true,
            _ => false,
        }
    }

    /// Goes on once the input gate is closed, or was found closed.
    pub fn resume(
        self,
        closed: Result<TerminalInputGateLease, TerminalFailure>,
        state: &mut TerminalSignalControlState,
    ) -> (step: ControlStep)
        ensures
            after_closing(self.purpose, closed, step, old(state)@, final(state)@),
            advances(ControlStep::CloseGate(self), step),
    {
        match self.purpose {
            CloseGatePurpose::Lease => match closed {
                Ok(lease) => {
                    let mut writer = SocketReplyWriter::new(Vec::new());
                    writer.write_gate_lease(lease);
                    assert(writer@ =~= reply_bytes(WireReply::GateLease(lease)));
                    replying(writer)
                },
                Err(refusal) => terminal_error(refusal),
            },
            CloseGatePurpose::Signal { terminal, prompt_state } => match closed {
                Ok(lease) => {
                    let signal_lease = signal_lease(lease);
                    proof {
                        let value = lease.sequence.value;
                        assert((value as i64) as u64 == value) by (bit_vector);
                    }
                    state.record_signal_lease(signal_lease, prompt_state);
                    responding(
                        Response::GateAcquired(
                            GateAcquiredReply { terminal, lease: signal_lease, prompt_state },
                        ),
                    )
                },
                Err(refusal) => match refusal.error {
                    TerminalCellError::InputGateAlreadyClosed(holder) => responding(
                        Response::GateBusy(
                            GateBusyReply {
                                terminal,
                                current_holder: holder.sequence().into_u64() as i64,
                            },
                        ),
                    ),
                    _ => terminal_error(refusal),
                },
            },
        }
    }
}

/// Whether a step, and what the control plane remembers, follow from opening the
/// input gate. A lease that is spent is forgotten, whoever gave it back.
pub open spec fn after_opening(
    purpose: OpenGatePurpose,
    opened: Result<TerminalInputGateRelease, TerminalFailure>,
    step: ControlStep,
    before: SignalMemory,
    after: SignalMemory,
) -> bool {
    match purpose {
        OpenGatePurpose::Release => match opened {
            Ok(release) => {
                &&& replies(step, WireReply::GateRelease(release))
                &&& after == before.releasing(release.lease.sequence.value)
            },
            Err(refusal) => {
                &&& fails(step, failure(ErrorKind::BrokenPipe, refusal.text@))
                &&& after == before
            },
        },
        OpenGatePurpose::Signal { terminal, lease } => match opened {
            Ok(release) => {
                &&& responds(
                    step,
                    Response::GateReleased(
                        GateReleasedReply {
                            terminal,
                            lease,
                            cached_human_bytes: release.held_byte_count as i64,
                        },
                    ),
                )
                &&& after == before.releasing(lease_key(lease))
            },
            Err(refusal) => if refusal.error == TerminalCellError::StaleInputGateLease {
                &&& responds(
                    step,
                    injection_rejected(terminal, InjectionRejectionReason::UnknownLease),
                )
                &&& after == before.releasing(lease_key(lease))
            } else {
                &&& fails(step, failure(ErrorKind::BrokenPipe, refusal.text@))
                &&& after == before
            },
        },
    }
}

impl OpenGateStep {
    /// Whether going on changes what the control plane remembers.
    pub fn consults_signal_state(
        &self,
        opened: &Result<TerminalInputGateRelease, TerminalFailure>,
    ) -> (consults: bool)
        ensures
            consults == match opened {
                Ok(_) => true,
                Err(refusal) => self.purpose is Signal && refusal.error
                    == TerminalCellError::StaleInputGateLease,
            },
    {
        match opened {
            Ok(_) => true,
            Err(refusal) => match (&self.purpose, refusal.error) {
                (
                    OpenGatePurpose::Signal { .. },
                    TerminalCellError::StaleInputGateLease,
                ) => true,
                _ => false,
            },
        }
    }

    /// Goes on once the input gate is open, or the lease was refused.
    pub fn resume(
        self,
        opened: Result<TerminalInputGateRelease, TerminalFailure>,
        state: &mut TerminalSignalControlState,
    ) -> (step: ControlStep)
        ensures
            after_opening(self.purpose, opened, step, old(state)@, final(state)@),
            advances(ControlStep::OpenGate(self), step),
    {
        match self.purpose {
            OpenGatePurpose::Release => match opened {
                Ok(release) => {
                    state.release_terminal_lease(&release.lease());
                    let mut writer = SocketReplyWriter::new(Vec::new());
                    writer.write_gate_release(release);
                    assert(writer@ =~= reply_bytes(WireReply::GateRelease(release)));
                    replying(writer)
                },
                Err(refusal) => terminal_error(refusal),
            },
            OpenGatePurpose::Signal { terminal, lease } => match opened {
                Ok(release) => {
                    state.release_signal_lease(&lease);
                    responding(
                        Response::GateReleased(
                            GateReleasedReply {
                                terminal,
                                lease,
                                cached_human_bytes: release.held_byte_count() as i64,
                            },
                        ),
                    )
                },
                Err(refusal) => match refusal.error {
                    TerminalCellError::StaleInputGateLease => {
                        state.release_signal_lease(&lease);
                        responding(
                            Response::InjectionRejected(
                                InjectionRejectedReply {
                                    terminal,
                                    injection_rejection_reason:
                                        InjectionRejectionReason::UnknownLease,
                                },
                            ),
                        )
                    },
                    _ => terminal_error(refusal),
                },
            },
        }
    }
}

impl ResizeStep {
    /// Goes on once the terminal has its size.
    pub fn resume(self, resized: Result<(), String>) -> (step: ControlStep)
        ensures
            match resized {
                Err(text) => fails(step, failure(ErrorKind::BrokenPipe, text@)),
                Ok(()) => match self.purpose {
                    ResizePurpose::Resize => replies(step, WireReply::Acceptance),
                    ResizePurpose::Signal(resize) => responds(
                        step,
                        Response::TerminalResized(
                            TerminalResizedReply {
                                terminal: resize.terminal,
                                rows: resize.rows,
                                columns: resize.columns,
                                generation: 1,
                            },
                        ),
                    ),
                },
            },
            advances(ControlStep::Resize(self), step),
    {
        match resized {
            Err(text) => actor_error(text),
            Ok(()) => match self.purpose {
                ResizePurpose::Resize => acceptance(),
                ResizePurpose::Signal(resize) => responding(
                    Response::TerminalResized(
                        TerminalResizedReply {
                            terminal: resize.terminal,
                            rows: resize.rows,
                            columns: resize.columns,
                            generation: 1,
                        },
                    ),
                ),
            },
        }
    }
}

impl WaitTextStep {
    /// Goes on once the text has been seen, or can no longer be.
    pub fn resume(self, matched: Result<bool, String>) -> (step: ControlStep)
        ensures
            match matched {
                Err(text) => fails(step, failure(ErrorKind::BrokenPipe, text@)),
                Ok(true) => replies(step, WireReply::WaitSatisfied),
                Ok(false) => fails(
                    step,
                    failure(
                        ErrorKind::TimedOut,
                        "terminal transcript waiter ended without a match"@,
                    ),
                ),
            },
            advances(ControlStep::WaitText(self), step),
    {
        match matched {
            Err(text) => actor_error(text),
            Ok(true) => {
                let mut writer = SocketReplyWriter::new(Vec::new());
                writer.write_wait_satisfied();
                assert(writer@ =~= reply_bytes(WireReply::WaitSatisfied));
                replying(writer)
            },
            Ok(false) => ControlStep::Finish(
                Err(
                    ConnectionError::new(
                        ErrorKind::TimedOut,
                        "terminal transcript waiter ended without a match".to_owned(),
                    ),
                ),
            ),
        }
    }
}

impl WaitExitStep {
    /// Goes on with the status that the terminal's process exited with.
    pub fn resume(self, status: Result<String, String>) -> (step: ControlStep)
        ensures
            match status {
                Err(text) => fails(step, failure(ErrorKind::BrokenPipe, text@)),
                Ok(status) => replies(step, WireReply::ExitStatus(status@)),
            },
            advances(ControlStep::WaitExit(self), step),
    {
        match status {
            Err(text) => actor_error(text),
            Ok(status) => {
                let mut writer = SocketReplyWriter::new(Vec::new());
                writer.write_exit_status(status.as_str());
                assert(writer@ =~= reply_bytes(WireReply::ExitStatus(status@)));
                replying(writer)
            },
        }
    }
}

impl ObserveWorkersStep {
    /// Goes on with the text on the terminal's workers.
    pub fn resume(self, observation: Result<String, String>) -> (step: ControlStep)
        ensures
            match observation {
                Err(text) => fails(step, failure(ErrorKind::BrokenPipe, text@)),
                Ok(text) => replies(step, WireReply::Snapshot(encode_utf8(text@))),
            },
            advances(ControlStep::ObserveWorkers(self), step),
    {
        match observation {
            Err(text) => actor_error(text),
            Ok(text) => {
                let mut writer = SocketReplyWriter::new(Vec::new());
                writer.write_snapshot(text.as_str().as_bytes());
                assert(writer@ =~= reply_bytes(WireReply::Snapshot(encode_utf8(text@))));
                replying(writer)
            },
        }
    }
}

/// Whether a step follows from subscribing to the lifecycles of the terminal's
/// workers.
pub open spec fn after_lifecycle_subscription(
    terminal: String,
    replay: Result<Vec<TerminalWorkerLifecycle>, String>,
    step: ControlStep,
) -> bool {
    match replay {
        Err(text) => fails(step, failure(ErrorKind::BrokenPipe, text@)),
        Ok(replay) => {
            &&& step matches ControlStep::Archive(archive)
            &&& archive.response matches Response::TerminalWorkerLifecycleSnapshot(snapshot)
            &&& snapshot.terminal@ == terminal@
            &&& snapshot.observations@ == replay@.map_values(
                |lifecycle| signal_lifecycle(lifecycle),
            )
            &&& archive.after == (AfterReply::Lifecycle { terminal })
        },
    }
}

impl SubscribeLifecycleStep {
    /// Goes on with the lifecycles so far.
    pub fn resume(self, replay: Result<Vec<TerminalWorkerLifecycle>, String>) -> (step: ControlStep)
        ensures
            after_lifecycle_subscription(self.terminal, replay, step),
    {
        match replay {
            Err(text) => actor_error(text),
            Ok(replay) => ControlStep::Archive(
                ArchiveStep {
                    response: Response::TerminalWorkerLifecycleSnapshot(
                        TerminalWorkerLifecycleSnapshotReply {
                            terminal: self.terminal.clone(),
                            observations: signal_worker_lifecycles(replay),
                        },
                    ),
                    after: AfterReply::Lifecycle { terminal: self.terminal },
                },
            ),
        }
    }
}

/// Whether a step follows from the next lifecycle, or from the end of them.
pub open spec fn after_lifecycle(
    terminal: String,
    lifecycle: Option<TerminalWorkerLifecycle>,
    step: ControlStep,
) -> bool {
    match lifecycle {
        None => step == ControlStep::Finish(Ok(())),
        Some(lifecycle) => {
            &&& step matches ControlStep::Archive(archive)
            &&& archive.response matches Response::Event(
                TerminalEvent::TerminalWorkerLifecycleEvent(event),
            )
            &&& event.terminal@ == terminal@
            &&& event.observation == signal_lifecycle(lifecycle)
            &&& archive.after == (AfterReply::Lifecycle { terminal })
        },
    }
}

impl NextLifecycleStep {
    /// Goes on with the next lifecycle, or with the end of them.
    pub fn resume(self, lifecycle: Option<TerminalWorkerLifecycle>) -> (step: ControlStep)
        ensures
            after_lifecycle(self.terminal, lifecycle, step),
    {
        match lifecycle {
            None => ControlStep::Finish(Ok(())),
            Some(lifecycle) => ControlStep::Archive(
                ArchiveStep {
                    response: Response::Event(
                        TerminalEvent::TerminalWorkerLifecycleEvent(
                            TerminalWorkerLifecycleEventPayload {
                                terminal: self.terminal.clone(),
                                observation: signal_worker_lifecycle(lifecycle),
                            },
                        ),
                    ),
                    after: AfterReply::Lifecycle { terminal: self.terminal },
                },
            ),
        }
    }
}

/// Whether a step follows from archiving a response.
pub open spec fn after_archiving(
    after: AfterReply,
    archive: Result<Vec<u8>, String>,
    step: ControlStep,
) -> bool {
    match archive {
        Err(complaint) => fails(
            step,
            failure(
                ErrorKind::InvalidData,
                "signal response archive failed: "@ + complaint@,
            ),
        ),
        Ok(bytes) => step matches ControlStep::Reply(sent) && sent.bytes@ == reply_bytes(
            WireReply::Archive(bytes@),
        ) && sent.after == after,
    }
}

impl ArchiveStep {
    /// Goes on with the archive of the response, or with why there is none.
    pub fn resume(self, archive: Result<Vec<u8>, String>) -> (step: ControlStep)
        ensures
            after_archiving(self.after, archive, step),
            advances(ControlStep::Archive(self), step),
    {
        let mut writer = SocketReplyWriter::new(Vec::new());
        let ghost archived = archive;
        match writer.write_signal_event(archive) {
            Ok(()) => {
                assert(writer@ =~= reply_bytes(WireReply::Archive(archived->Ok_0@)));
                ControlStep::Reply(ReplyStep { bytes: writer.into_bytes(), after: self.after })
            },
            Err(error) => ControlStep::Finish(Err(error)),
        }
    }
}

/// The step behind a reply that was written, or could not be.
pub open spec fn after_reply(
    after: AfterReply,
    written: Result<(), ConnectionError>,
) -> ControlStep {
    match after {
        AfterReply::Finish => ControlStep::Finish(written),
        AfterReply::Fail(error) => match written {
            Ok(()) => ControlStep::Finish(Err(error)),
            Err(other) => ControlStep::Finish(Err(other)),
        },
        AfterReply::Replay => match written {
            Ok(()) => ControlStep::NextDelta(NextDeltaStep {  }),
            Err(error) => ControlStep::Finish(Err(error)),
        },
        AfterReply::Delta => match written {
            Ok(()) => ControlStep::NextDelta(NextDeltaStep {  }),
            Err(_) => ControlStep::Finish(Ok(())),
        },
        AfterReply::Lifecycle { terminal } => match written {
            Ok(()) => ControlStep::NextLifecycle(NextLifecycleStep { terminal }),
            Err(error) => ControlStep::Finish(Err(error)),
        },
    }
}

impl ReplyStep {
    /// Goes on once the bytes have been written, or could not be.
    pub fn resume(self, written: Result<(), ConnectionError>) -> (step: ControlStep)
        ensures
            step == after_reply(self.after, written),
            advances(ControlStep::Reply(self), step),
    {
        match self.after {
            AfterReply::Finish => ControlStep::Finish(written),
            AfterReply::Fail(error) => match written {
                Ok(()) => ControlStep::Finish(Err(error)),
                Err(other) => ControlStep::Finish(Err(other)),
            },
            AfterReply::Replay => match written {
                Ok(()) => ControlStep::NextDelta(NextDeltaStep {  }),
                Err(error) => ControlStep::Finish(Err(error)),
            },
            AfterReply::Delta => match written {
                Ok(()) => ControlStep::NextDelta(NextDeltaStep {  }),
                Err(_) => ControlStep::Finish(Ok(())),
            },
            AfterReply::Lifecycle { terminal } => match written {
                Ok(()) => ControlStep::NextLifecycle(NextLifecycleStep { terminal }),
                Err(error) => ControlStep::Finish(Err(error)),
            },
        }
    }
}

} // verus!
