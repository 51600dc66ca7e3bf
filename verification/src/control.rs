//! The control plane. A control connection carries one request of any kind but
//! attach, and then what the request calls for.
use vstd::prelude::*;
use vstd::string::*;
use crate::control_state::{
    identifiers_differ, listed, pattern_identifier, SignalMemory, TerminalSignalControlState,
};
use crate::control_steps::{
    fails, injection_rejected, pattern_in, responding, responds, terminal_lease, terminal_lease_of,
    AcceptPurpose, AcceptStep, AfterReply, CloseGatePurpose, CloseGateStep, ControlStep,
    ObserveWorkersStep, OpenGatePurpose, OpenGateStep, ReplyStep, ResizePurpose, ResizeStep,
    SnapshotPurpose, SnapshotStep, SubscribeLifecycleStep, SubscribeStep, WaitExitStep,
    WaitTextStep,
};
use crate::failure::{failure, ConnectionError, ErrorKind};
use crate::prompt::{low_bytes, signal_bytes_to_bytes};
use crate::reply::{reply_bytes, SocketReplyWriter, WireReply};
use crate::request::SocketRequest;
use crate::signal::{
    AcquireInputGateRequest, InjectionRejectedReply, InjectionRejectionReason,
    PromptPatternListReply, PromptPatternRegisteredReply, PromptPatternUnregisteredReply,
    PromptState, Query, ReleaseInputGateRequest, Response, SessionListReply,
    SubscriptionRetractedReply, TerminalDetachedReply, TerminalReadyReply, TerminalRejectedReply,
    TerminalRejectionReason, TerminalResizeRequest, WriteInjectionRequest,
};
use crate::terminal::{InputSource, TerminalInput, TerminalSize};

verus! {

/// The rejection of a query that this endpoint does not serve.
pub open spec fn transport_failed(terminal: String) -> Response {
    Response::TerminalRejected(
        TerminalRejectedReply {
            terminal,
            terminal_rejection_reason: TerminalRejectionReason::TransportFailed,
        },
    )
}

/// The size that a query asks for: rows and columns keep their low sixteen bits.
pub open spec fn requested_size(request: TerminalResizeRequest) -> TerminalSize {
    TerminalSize {
        rows: (request.rows as int % 0x1_0000) as u16,
        columns: (request.columns as int % 0x1_0000) as u16,
    }
}

fn low_u16(value: i64) -> (low: u16)
    ensures
        low == value as int % 0x1_0000,
{
    assert(value as u16 == value % 0x1_0000) by (bit_vector);
    value as u16
}

/// What the control plane says to an attach request.
pub open spec fn attach_refusal() -> Seq<char> {
    "control socket does not accept viewer attach; use the data socket"@
}

/// Whether a step is that of a control connection on an attach request.
pub open spec fn refuses_attach(step: ControlStep) -> bool {
    &&& step matches ControlStep::Reply(sent)
    &&& sent.bytes@ == reply_bytes(WireReply::AttachRejected(attach_refusal()))
    &&& sent.after matches AfterReply::Fail(error)
    &&& error@ == failure(
        ErrorKind::InvalidInput,
        "attach request arrived on terminal-cell control socket"@,
    )
}

/// Whether a step is the first one of acquiring the input gate.
pub open spec fn begins_acquisition(
    step: ControlStep,
    acquire: AcquireInputGateRequest,
    memory: SignalMemory,
) -> bool {
    match acquire.prompt_pattern_identifier_selection {
        None => step == ControlStep::CloseGate(
            CloseGateStep {
                purpose: CloseGatePurpose::Signal {
                    terminal: acquire.terminal,
                    prompt_state: PromptState::NotChecked,
                },
            },
        ),
        Some(identifier) => step matches ControlStep::Snapshot(asked)
            && asked.purpose matches SnapshotPurpose::PromptState { terminal, pattern } && terminal
            == acquire.terminal && pattern_in(pattern) == memory.selected(identifier@),
    }
}

/// Whether a step is the first one of releasing the input gate.
pub open spec fn begins_release(
    step: ControlStep,
    release: ReleaseInputGateRequest,
    memory: SignalMemory,
) -> bool {
    match memory.lease_state(release.lease) {
        None => responds(
            step,
            injection_rejected(release.terminal, InjectionRejectionReason::UnknownLease),
        ),
        Some(_) => step == ControlStep::OpenGate(
            OpenGateStep {
                lease: terminal_lease_of(release.lease),
                purpose: OpenGatePurpose::Signal {
                    terminal: release.terminal,
                    lease: release.lease,
                },
            },
        ),
    }
}

/// Whether a step is the first one of injecting input.
pub open spec fn begins_injection(
    step: ControlStep,
    injection: WriteInjectionRequest,
    memory: SignalMemory,
) -> bool {
    match memory.lease_state(injection.lease) {
        None => responds(
            step,
            injection_rejected(injection.terminal, InjectionRejectionReason::UnknownLease),
        ),
        Some(PromptState::Dirty(_)) => responds(
            step,
            injection_rejected(injection.terminal, InjectionRejectionReason::DirtyPrompt),
        ),
        Some(_) => hands_over(
            step,
            low_bytes(injection.input_bytes@),
            InputSource::Programmatic,
            AcceptPurpose::Injection { terminal: injection.terminal },
        ),
    }
}

/// Whether a step hands input to the terminal.
pub open spec fn hands_over(
    step: ControlStep,
    bytes: Seq<u8>,
    source: InputSource,
    purpose: AcceptPurpose,
) -> bool {
    step matches ControlStep::Accept(handed) && handed.input.bytes@ == bytes && handed.input.source
        == source && handed.purpose == purpose
}

/// Whether a step is the first one of answering a query, and whether the memory
/// of the control plane is what the query leaves it.
pub open spec fn answers_query(
    step: ControlStep,
    query: Query,
    before: SignalMemory,
    after: SignalMemory,
) -> bool {
    match query {
        Query::TerminalConnection(connection) => {
            &&& responds(
                step,
                Response::TerminalReady(
                    TerminalReadyReply { terminal: connection.terminal, generation: 1 },
                ),
            )
            &&& after == before
        },
        Query::TerminalInput(input) => {
            &&& hands_over(
                step,
                low_bytes(input.input_bytes@),
                InputSource::Programmatic,
                AcceptPurpose::SignalInput { terminal: input.terminal },
            )
            &&& after == before
        },
        Query::TerminalResize(resize) => {
            &&& step == ControlStep::Resize(
                ResizeStep { size: requested_size(resize), purpose: ResizePurpose::Signal(resize) },
            )
            &&& after == before
        },
        Query::TerminalDetachment(detachment) => {
            &&& responds(
                step,
                Response::TerminalDetached(
                    TerminalDetachedReply {
                        terminal: detachment.terminal,
                        generation: 1,
                        terminal_detachment_reason: detachment.terminal_detachment_reason,
                    },
                ),
            )
            &&& after == before
        },
        Query::TerminalCapture(capture) => {
            &&& step == ControlStep::Snapshot(
                SnapshotStep {
                    purpose: SnapshotPurpose::SignalCapture { terminal: capture.terminal },
                },
            )
            &&& after == before
        },
        Query::RegisterPromptPattern(registration) => {
            &&& step matches ControlStep::Archive(archive)
            &&& archive.after == AfterReply::Finish
            &&& archive.response matches Response::PromptPatternRegistered(registered)
            &&& registered.terminal == registration.terminal
            &&& registered.pattern_identifier@ == pattern_identifier(before.next_prompt_pattern)
            &&& after == before.registering(registration.pattern@)
        },
        Query::UnregisterPromptPattern(unregistration) => {
            &&& responds(
                step,
                Response::PromptPatternUnregistered(
                    PromptPatternUnregisteredReply {
                        terminal: unregistration.terminal,
                        pattern_identifier: unregistration.pattern_identifier,
                    },
                ),
            )
            &&& after == before.unregistering(unregistration.pattern_identifier@)
        },
        Query::ListPromptPatterns(list) => {
            &&& step matches ControlStep::Archive(archive)
            &&& archive.after == AfterReply::Finish
            &&& archive.response matches Response::PromptPatternList(listing)
            &&& listing.terminal == list.terminal
            &&& listed(listing.entries@) == before.prompt_patterns
            &&& identifiers_differ(listing.entries@)
            &&& after == before
        },
        Query::AcquireInputGate(acquire) => {
            &&& begins_acquisition(step, acquire, before)
            &&& after == before
        },
        Query::ReleaseInputGate(release) => {
            &&& begins_release(step, release, before)
            &&& after == before
        },
        Query::WriteInjection(injection) => {
            &&& begins_injection(step, injection, before)
            &&& after == before
        },
        Query::SubscribeTerminalWorkerLifecycle(subscription) => {
            &&& responds(step, transport_failed(subscription.terminal))
            &&& after == before
        },
        Query::TerminalWorkerLifecycleRetraction(token) => {
            &&& responds(step, transport_failed(token.terminal))
            &&& after == before
        },
        Query::ListSessions => {
            &&& step matches ControlStep::Archive(archive)
            &&& archive.after == AfterReply::Finish
            &&& archive.response matches Response::SessionList(sessions)
            &&& sessions.session_entries@.len() == 0
            &&& after == before
        },
        Query::ResolveSession(resolve) => {
            &&& responds(step, transport_failed(resolve.name))
            &&& after == before
        },
    }
}

/// Whether a step is the first one of serving a query. Lifecycles are streamed,
/// and their retraction is acknowledged; every other query is answered.
pub open spec fn serves_query(
    step: ControlStep,
    query: Query,
    before: SignalMemory,
    after: SignalMemory,
) -> bool {
    match query {
        Query::SubscribeTerminalWorkerLifecycle(subscription) => {
            &&& step == ControlStep::SubscribeLifecycle(
                SubscribeLifecycleStep { terminal: subscription.terminal },
            )
            &&& after == before
        },
        Query::TerminalWorkerLifecycleRetraction(token) => {
            &&& responds(
                step,
                Response::SubscriptionRetracted(SubscriptionRetractedReply { token }),
            )
            &&& after == before
        },
        other => answers_query(step, other, before, after),
    }
}

/// Whether a step is the first one of serving a request.
pub open spec fn serves(
    step: ControlStep,
    request: SocketRequest,
    before: SignalMemory,
    after: SignalMemory,
) -> bool {
    match request {
        SocketRequest::Signal(signal) => serves_query(step, signal.query(), before, after),
        SocketRequest::Attach => refuses_attach(step) && after == before,
        other => {
            &&& step == match other {
                SocketRequest::Capture => ControlStep::Snapshot(
                    SnapshotStep { purpose: SnapshotPurpose::Capture },
                ),
                SocketRequest::SubscribeFromBeginning => ControlStep::Subscribe(SubscribeStep {  }),
                SocketRequest::Input(input) => ControlStep::Accept(
                    AcceptStep { input, purpose: AcceptPurpose::Input },
                ),
                SocketRequest::CloseHumanInput => ControlStep::CloseGate(
                    CloseGateStep { purpose: CloseGatePurpose::Lease },
                ),
                SocketRequest::OpenHumanInput(lease) => ControlStep::OpenGate(
                    OpenGateStep { lease, purpose: OpenGatePurpose::Release },
                ),
                SocketRequest::Resize(size) => ControlStep::Resize(
                    ResizeStep { size, purpose: ResizePurpose::Resize },
                ),
                SocketRequest::Wait(wait) => ControlStep::WaitText(WaitTextStep { wait }),
                SocketRequest::WaitExit => ControlStep::WaitExit(WaitExitStep {  }),
                _ => ControlStep::ObserveWorkers(ObserveWorkersStep {  }),
            }
            &&& after == before
        },
    }
}

/// Whether a request is served by what the control plane remembers.
pub open spec fn consults_memory(request: SocketRequest) -> bool {
    request matches SocketRequest::Signal(signal) && match signal.query() {
        Query::RegisterPromptPattern(_)
        | Query::UnregisterPromptPattern(_)
        | Query::ListPromptPatterns(_)
        | Query::ReleaseInputGate(_)
        | Query::WriteInjection(_) => true,
        Query::AcquireInputGate(acquire) => acquire.prompt_pattern_identifier_selection is Some,
        _ => false,
    }
}

/// The decisions of a control connection.
#[derive(Debug)]
pub struct TerminalControlConnection;

impl TerminalControlConnection {
    /// Begins to serve a request.
    pub fn run(request: SocketRequest, state: &mut TerminalSignalControlState) -> (step:
        ControlStep)
        ensures
            serves(step, request, old(state)@, final(state)@),
    {
        match request {
            SocketRequest::Capture => ControlStep::Snapshot(
                SnapshotStep { purpose: SnapshotPurpose::Capture },
            ),
            SocketRequest::SubscribeFromBeginning => ControlStep::Subscribe(SubscribeStep {  }),
            SocketRequest::Attach => Self::reject_attach_on_control_plane(),
            SocketRequest::Input(input) => ControlStep::Accept(
                AcceptStep { input, purpose: AcceptPurpose::Input },
            ),
            SocketRequest::CloseHumanInput => ControlStep::CloseGate(
                CloseGateStep { purpose: CloseGatePurpose::Lease },
            ),
            SocketRequest::OpenHumanInput(lease) => ControlStep::OpenGate(
                OpenGateStep { lease, purpose: OpenGatePurpose::Release },
            ),
            SocketRequest::Resize(size) => ControlStep::Resize(
                ResizeStep { size, purpose: ResizePurpose::Resize },
            ),
            SocketRequest::Wait(wait) => ControlStep::WaitText(WaitTextStep { wait }),
            SocketRequest::WaitExit => ControlStep::WaitExit(WaitExitStep {  }),
            SocketRequest::WorkerObservation => ControlStep::ObserveWorkers(
                ObserveWorkersStep {  },
            ),
            SocketRequest::Signal(request) => Self::handle_signal_request(
                request.into_payload(),
                state,
            ),
        }
    }

    /// Whether a request is served by what the control plane remembers. Only such
    /// a request waits for the memory, and fails where it is lost.
    pub fn consults_signal_state(request: &SocketRequest) -> (consults: bool)
        ensures
            consults == consults_memory(*request),
    {
        match request {
            SocketRequest::Signal(signal) => match signal.payload() {
                Query::RegisterPromptPattern(_)
                | Query::UnregisterPromptPattern(_)
                | Query::ListPromptPatterns(_)
                | Query::ReleaseInputGate(_)
                | Query::WriteInjection(_) => true,
                Query::AcquireInputGate(
                    acquire,
                ) => acquire.prompt_pattern_identifier_selection.is_some(),
                _ => false,
            },
            _ => false,
        }
    }

    /// Ends a connection that needs the memory of the control plane, where a
    /// panic has left it in doubt.
    pub fn fail_on_poisoned_signal_state() -> (step: ControlStep)
        ensures
            fails(
                step,
                failure(ErrorKind::Other, "terminal signal control state lock poisoned"@),
            ),
    {
        ControlStep::Finish(
            Err(
                ConnectionError::new(
                    ErrorKind::Other,
                    "terminal signal control state lock poisoned".to_owned(),
                ),
            ),
        )
    }

    /// Refuses an attach: viewers belong on the data socket.
    pub fn reject_attach_on_control_plane() -> (step: ControlStep)
        ensures
            refuses_attach(step),
    {
        let mut writer = SocketReplyWriter::new(Vec::new());
        writer.write_attach_rejected(
            "control socket does not accept viewer attach; use the data socket",
        );
        assert(writer@ =~= reply_bytes(WireReply::AttachRejected(attach_refusal())));
        ControlStep::Reply(
            ReplyStep {
                bytes: writer.into_bytes(),
                after: AfterReply::Fail(
                    ConnectionError::new(
                        ErrorKind::InvalidInput,
                        "attach request arrived on terminal-cell control socket".to_owned(),
                    ),
                ),
            },
        )
    }

    /// Begins to serve a query.
    pub fn handle_signal_request(query: Query, state: &mut TerminalSignalControlState) -> (step:
        ControlStep)
        ensures
            serves_query(step, query, old(state)@, final(state)@),
    {
        match query {
            Query::SubscribeTerminalWorkerLifecycle(subscription) =>
                ControlStep::SubscribeLifecycle(
                SubscribeLifecycleStep { terminal: subscription.terminal },
            ),
            Query::TerminalWorkerLifecycleRetraction(token) => responding(
                Response::SubscriptionRetracted(SubscriptionRetractedReply { token }),
            ),
            payload => Self::signal_event(payload, state),
        }
    }

    /// Begins to answer a query.
    pub fn signal_event(query: Query, state: &mut TerminalSignalControlState) -> (step: ControlStep)
        ensures
            answers_query(step, query, old(state)@, final(state)@),
    {
        match query {
            Query::TerminalConnection(connection) => responding(
                Response::TerminalReady(
                    TerminalReadyReply { terminal: connection.terminal, generation: 1 },
                ),
            ),
            Query::TerminalInput(input) => {
                let bytes = signal_bytes_to_bytes(input.input_bytes.as_slice());
                ControlStep::Accept(
                    AcceptStep {
                        input: TerminalInput::new(bytes, InputSource::Programmatic),
                        purpose: AcceptPurpose::SignalInput { terminal: input.terminal },
                    },
                )
            },
            Query::TerminalResize(resize) => ControlStep::Resize(
                ResizeStep {
                    size: TerminalSize::new(low_u16(resize.rows), low_u16(resize.columns)),
                    purpose: ResizePurpose::Signal(resize),
                },
            ),
            Query::TerminalDetachment(detachment) => responding(
                Response::TerminalDetached(
                    TerminalDetachedReply {
                        terminal: detachment.terminal,
                        generation: 1,
                        terminal_detachment_reason: detachment.terminal_detachment_reason,
                    },
                ),
            ),
            Query::TerminalCapture(capture) => ControlStep::Snapshot(
                SnapshotStep {
                    purpose: SnapshotPurpose::SignalCapture { terminal: capture.terminal },
                },
            ),
            Query::RegisterPromptPattern(registration) => {
                let pattern_identifier = state.register_prompt_pattern(registration.pattern);
                responding(
                    Response::PromptPatternRegistered(
                        PromptPatternRegisteredReply {
                            terminal: registration.terminal,
                            pattern_identifier,
                        },
                    ),
                )
            },
            Query::UnregisterPromptPattern(unregistration) => {
                state.unregister_prompt_pattern(&unregistration.pattern_identifier);
                responding(
                    Response::PromptPatternUnregistered(
                        PromptPatternUnregisteredReply {
                            terminal: unregistration.terminal,
                            pattern_identifier: unregistration.pattern_identifier,
                        },
                    ),
                )
            },
            Query::ListPromptPatterns(list) => {
                let entries = state.prompt_pattern_entries();
                responding(
                    Response::PromptPatternList(
                        PromptPatternListReply { terminal: list.terminal, entries },
                    ),
                )
            },
            Query::AcquireInputGate(acquire) => Self::acquire_signal_input_gate(acquire, state),
            Query::ReleaseInputGate(release) => Self::release_signal_input_gate(release, state),
            Query::WriteInjection(injection) => Self::write_signal_injection(injection, state),
            Query::SubscribeTerminalWorkerLifecycle(subscription) => responding(
                Response::TerminalRejected(
                    TerminalRejectedReply {
                        terminal: subscription.terminal,
                        terminal_rejection_reason: TerminalRejectionReason::TransportFailed,
                    },
                ),
            ),
            Query::TerminalWorkerLifecycleRetraction(token) => responding(
                Response::TerminalRejected(
                    TerminalRejectedReply {
                        terminal: token.terminal,
                        terminal_rejection_reason: TerminalRejectionReason::TransportFailed,
                    },
                ),
            ),
            Query::ListSessions => responding(
                Response::SessionList(SessionListReply { session_entries: Vec::new() }),
            ),
            Query::ResolveSession(resolve) => responding(
                Response::TerminalRejected(
                    TerminalRejectedReply {
                        terminal: resolve.name,
                        terminal_rejection_reason: TerminalRejectionReason::TransportFailed,
                    },
                ),
            ),
        }
    }

    /// Begins to acquire the input gate. A selected pattern is looked up at once;
    /// the transcript is held against it before the input gate is closed.
    pub fn acquire_signal_input_gate(
        acquire: AcquireInputGateRequest,
        state: &TerminalSignalControlState,
    ) -> (step: ControlStep)
        ensures
            begins_acquisition(step, acquire, state@),
    {
        match acquire.prompt_pattern_identifier_selection {
            None => ControlStep::CloseGate(
                CloseGateStep {
                    purpose: CloseGatePurpose::Signal {
                        terminal: acquire.terminal,
                        prompt_state: PromptState::NotChecked,
                    },
                },
            ),
            Some(identifier) => {
                let pattern = state.prompt_pattern(&identifier);
                ControlStep::Snapshot(
                    SnapshotStep {
                        purpose: SnapshotPurpose::PromptState {
                            terminal: acquire.terminal,
                            pattern,
                        },
                    },
                )
            },
        }
    }

    /// Begins to release the input gate. A lease that was not given out here, or
    /// was released, is rejected.
    pub fn release_signal_input_gate(
        release: ReleaseInputGateRequest,
        state: &TerminalSignalControlState,
    ) -> (step: ControlStep)
        ensures
            begins_release(step, release, state@),
    {
        match state.signal_lease_prompt_state(&release.lease) {
            None => responding(
                Response::InjectionRejected(
                    InjectionRejectedReply {
                        terminal: release.terminal,
                        injection_rejection_reason: InjectionRejectionReason::UnknownLease,
                    },
                ),
            ),
            Some(_) => ControlStep::OpenGate(
                OpenGateStep {
                    lease: terminal_lease(&release.lease),
                    purpose: OpenGatePurpose::Signal {
                        terminal: release.terminal,
                        lease: release.lease,
                    },
                },
            ),
        }
    }

    /// Begins to inject input. It needs a lease, and a prompt that was not dirty
    /// when the lease was given out.
    pub fn write_signal_injection(
        injection: WriteInjectionRequest,
        state: &TerminalSignalControlState,
    ) -> (step: ControlStep)
        ensures
            begins_injection(step, injection, state@),
    {
        match state.signal_lease_prompt_state(&injection.lease) {
            None => responding(
                Response::InjectionRejected(
                    InjectionRejectedReply {
                        terminal: injection.terminal,
                        injection_rejection_reason: InjectionRejectionReason::UnknownLease,
                    },
                ),
            ),
            Some(PromptState::Dirty(_)) => responding(
                Response::InjectionRejected(
                    InjectionRejectedReply {
                        terminal: injection.terminal,
                        injection_rejection_reason: InjectionRejectionReason::DirtyPrompt,
                    },
                ),
            ),
            Some(_) => {
                let bytes = signal_bytes_to_bytes(injection.input_bytes.as_slice());
                ControlStep::Accept(
                    AcceptStep {
                        input: TerminalInput::new(bytes, InputSource::Programmatic),
                        purpose: AcceptPurpose::Injection { terminal: injection.terminal },
                    },
                )
            },
        }
    }
}

} // verus!
