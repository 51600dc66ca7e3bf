use terminal_cell::control_steps::{
    AcceptPurpose, AcceptStep, AfterReply, ArchiveStep, CloseGatePurpose, CloseGateStep,
    NextDeltaStep, NextLifecycleStep, ObserveWorkersStep, OpenGatePurpose, OpenGateStep, ReplyStep,
    ResizePurpose, ResizeStep, SnapshotPurpose, SnapshotStep, SubscribeLifecycleStep, SubscribeStep,
    WaitExitStep, WaitTextStep,
};
use terminal_cell::signal::{
    AcquireInputGateRequest, GateReleasedReply, InjectionAckReply, InjectionRejectedReply,
    InjectionRejectionReason, InputGateLease, ListPromptPatternsRequest, PromptPattern,
    PromptPatternListReply, PromptPatternUnregisteredReply, PromptState, Query,
    ReleaseInputGateRequest, ResolveSessionRequest, Response, SessionListReply,
    SubscribeTerminalWorkerLifecycleRequest, SubscriptionRetractedReply, TerminalCaptureRequest,
    TerminalCapturedReply, TerminalConnectionRequest, TerminalDetachedReply,
    TerminalDetachmentReason, TerminalDetachmentRequest, TerminalInputAcceptedReply,
    TerminalInputRequest, TerminalReadyReply, TerminalRejectedReply, TerminalRejectionReason,
    TerminalResizeRequest, TerminalResizedReply, TerminalWorkerLifecycleToken,
    UnregisterPromptPatternRequest, WriteInjectionRequest,
};
use terminal_cell::{
    ConnectionError, ControlStep, ErrorKind, InputSource, SocketRequest, TerminalCellError,
    TerminalControlConnection, TerminalFailure, TerminalInput, TerminalInputGateLease,
    TerminalInputGateRelease, TerminalInputGateSequence, TerminalSignalControlState, TerminalSize,
    TranscriptSnapshot, WaitForTranscriptText,
};

fn operator() -> String {
    "operator".to_string()
}

fn gate_lease(value: u64) -> TerminalInputGateLease {
    TerminalInputGateLease::new(TerminalInputGateSequence::new(value))
}

fn lease(identifier: i64) -> InputGateLease {
    InputGateLease {
        input_gate_lease_identifier: identifier,
    }
}

fn refusal(error: TerminalCellError) -> TerminalFailure {
    TerminalFailure {
        error,
        text: "refused".to_string(),
    }
}

fn fails(kind: ErrorKind, message: &str) -> ControlStep {
    ControlStep::Finish(Err(ConnectionError::new(kind, message.to_string())))
}

fn responds(response: Response) -> ControlStep {
    ControlStep::Archive(ArchiveStep {
        response,
        after: AfterReply::Finish,
    })
}

fn replies(bytes: &[u8]) -> ControlStep {
    ControlStep::Reply(ReplyStep {
        bytes: bytes.to_vec(),
        after: AfterReply::Finish,
    })
}

fn transport_failed(terminal: &str) -> ControlStep {
    responds(Response::TerminalRejected(TerminalRejectedReply {
        terminal: terminal.to_string(),
        terminal_rejection_reason: TerminalRejectionReason::TransportFailed,
    }))
}

fn unknown_lease() -> ControlStep {
    responds(Response::InjectionRejected(InjectionRejectedReply {
        terminal: operator(),
        injection_rejection_reason: InjectionRejectionReason::UnknownLease,
    }))
}

fn ask(query: Query) -> ControlStep {
    TerminalControlConnection::handle_signal_request(query, &mut TerminalSignalControlState::new())
}

#[test]
fn plain_requests_name_their_work() {
    let mut state = TerminalSignalControlState::new();
    let mut run = |request| TerminalControlConnection::run(request, &mut state);
    assert_eq!(
        run(SocketRequest::Capture),
        ControlStep::Snapshot(SnapshotStep {
            purpose: SnapshotPurpose::Capture
        })
    );
    assert_eq!(
        run(SocketRequest::SubscribeFromBeginning),
        ControlStep::Subscribe(SubscribeStep {})
    );
    let input = TerminalInput::new(b"x".to_vec(), InputSource::Viewer);
    assert_eq!(
        run(SocketRequest::Input(input.clone())),
        ControlStep::Accept(AcceptStep {
            input,
            purpose: AcceptPurpose::Input
        })
    );
    assert_eq!(
        run(SocketRequest::CloseHumanInput),
        ControlStep::CloseGate(CloseGateStep {
            purpose: CloseGatePurpose::Lease
        })
    );
    assert_eq!(
        run(SocketRequest::OpenHumanInput(gate_lease(4))),
        ControlStep::OpenGate(OpenGateStep {
            lease: gate_lease(4),
            purpose: OpenGatePurpose::Release
        })
    );
    assert_eq!(
        run(SocketRequest::Resize(TerminalSize::new(1, 2))),
        ControlStep::Resize(ResizeStep {
            size: TerminalSize::new(1, 2),
            purpose: ResizePurpose::Resize
        })
    );
    assert_eq!(
        run(SocketRequest::Wait(WaitForTranscriptText::new(b"t".to_vec()))),
        ControlStep::WaitText(WaitTextStep {
            wait: WaitForTranscriptText::new(b"t".to_vec())
        })
    );
    assert_eq!(
        run(SocketRequest::WaitExit),
        ControlStep::WaitExit(WaitExitStep {})
    );
    assert_eq!(
        run(SocketRequest::WorkerObservation),
        ControlStep::ObserveWorkers(ObserveWorkersStep {})
    );
}

#[test]
fn attach_is_answered_and_fails_the_connection() {
    let step = TerminalControlConnection::run(
        SocketRequest::Attach,
        &mut TerminalSignalControlState::new(),
    );
    let reply = match step {
        ControlStep::Reply(reply) => reply,
        other => panic!("expected a reply, got {other:?}"),
    };
    assert_eq!(
        reply.bytes,
        [
            b"J\0\0\0\0\0\0\0\x41".to_vec(),
            b"control socket does not accept viewer attach; use the data socket".to_vec()
        ]
        .concat()
    );
    assert_eq!(
        reply.resume(Ok(())),
        fails(
            ErrorKind::InvalidInput,
            "attach request arrived on terminal-cell control socket"
        )
    );
}

#[test]
fn queries_that_need_no_terminal_are_answered_at_once() {
    assert_eq!(
        ask(Query::TerminalConnection(TerminalConnectionRequest {
            terminal: operator()
        })),
        responds(Response::TerminalReady(TerminalReadyReply {
            terminal: operator(),
            generation: 1
        }))
    );
    let reason = TerminalDetachmentReason {
        name: "HumanRequested".to_string(),
    };
    assert_eq!(
        ask(Query::TerminalDetachment(TerminalDetachmentRequest {
            terminal: operator(),
            terminal_detachment_reason: reason.clone()
        })),
        responds(Response::TerminalDetached(TerminalDetachedReply {
            terminal: operator(),
            generation: 1,
            terminal_detachment_reason: reason
        }))
    );
    let token = TerminalWorkerLifecycleToken {
        terminal: operator(),
    };
    assert_eq!(
        ask(Query::TerminalWorkerLifecycleRetraction(token.clone())),
        responds(Response::SubscriptionRetracted(SubscriptionRetractedReply {
            token: token.clone()
        }))
    );
    assert_eq!(
        ask(Query::ListSessions),
        responds(Response::SessionList(SessionListReply {
            session_entries: Vec::new()
        }))
    );
    assert_eq!(
        ask(Query::ResolveSession(ResolveSessionRequest {
            name: "somewhere".to_string()
        })),
        transport_failed("somewhere")
    );
    let mut state = TerminalSignalControlState::new();
    assert_eq!(
        TerminalControlConnection::signal_event(
            Query::TerminalWorkerLifecycleRetraction(token),
            &mut state
        ),
        transport_failed("operator")
    );
    assert_eq!(
        TerminalControlConnection::signal_event(
            Query::SubscribeTerminalWorkerLifecycle(SubscribeTerminalWorkerLifecycleRequest {
                terminal: operator()
            }),
            &mut state
        ),
        transport_failed("operator")
    );
}

#[test]
fn prompt_patterns_are_registered_listed_and_unregistered() {
    let mut state = TerminalSignalControlState::new();
    let identifier = state.register_prompt_pattern(PromptPattern::LiteralSuffix(vec![62]));
    let listed = TerminalControlConnection::signal_event(
        Query::ListPromptPatterns(ListPromptPatternsRequest {
            terminal: operator(),
        }),
        &mut state,
    );
    assert_eq!(
        listed,
        responds(Response::PromptPatternList(PromptPatternListReply {
            terminal: operator(),
            entries: state.prompt_pattern_entries()
        }))
    );
    let unregistered = TerminalControlConnection::signal_event(
        Query::UnregisterPromptPattern(UnregisterPromptPatternRequest {
            terminal: operator(),
            pattern_identifier: identifier.clone(),
        }),
        &mut state,
    );
    assert_eq!(
        unregistered,
        responds(Response::PromptPatternUnregistered(
            PromptPatternUnregisteredReply {
                terminal: operator(),
                pattern_identifier: identifier
            }
        ))
    );
    assert_eq!(state.prompt_pattern_entries(), Vec::new());
}

#[test]
fn signal_input_is_narrowed_and_accepted() {
    let step = ask(Query::TerminalInput(TerminalInputRequest {
        terminal: operator(),
        input_bytes: vec![108, 256 + 115, -243],
    }));
    let accept = match step {
        ControlStep::Accept(accept) => accept,
        other => panic!("expected input, got {other:?}"),
    };
    assert_eq!(
        accept.input,
        TerminalInput::new(b"ls\r".to_vec(), InputSource::Programmatic)
    );
    assert_eq!(
        accept.resume(Ok(())),
        responds(Response::TerminalInputAccepted(TerminalInputAcceptedReply {
            terminal: operator(),
            generation: 1
        }))
    );
}

#[test]
fn signal_resize_is_truncated_and_echoed() {
    let request = TerminalResizeRequest {
        terminal: operator(),
        rows: 65_536 + 31,
        columns: -1,
    };
    let step = ask(Query::TerminalResize(request));
    let resize = match step {
        ControlStep::Resize(resize) => resize,
        other => panic!("expected a resize, got {other:?}"),
    };
    assert_eq!(resize.size, TerminalSize::new(31, 65_535));
    assert_eq!(
        resize.resume(Ok(())),
        responds(Response::TerminalResized(TerminalResizedReply {
            terminal: operator(),
            rows: 65_567,
            columns: -1,
            generation: 1
        }))
    );
}

#[test]
fn signal_capture_widens_the_transcript() {
    let step = ask(Query::TerminalCapture(TerminalCaptureRequest {
        terminal: operator(),
    }));
    let snapshot = match step {
        ControlStep::Snapshot(snapshot) => snapshot,
        other => panic!("expected a snapshot, got {other:?}"),
    };
    assert_eq!(
        snapshot.resume(Ok(TranscriptSnapshot {
            bytes: vec![0, 255],
            last_sequence: 3
        })),
        responds(Response::TerminalCaptured(TerminalCapturedReply {
            terminal: operator(),
            generation: 1,
            transcript_bytes: vec![0, 255]
        }))
    );
}

#[test]
fn invalid_pattern_fails_the_acquisition_before_the_gate_is_closed() {
    let mut state = TerminalSignalControlState::new();
    let identifier = state.register_prompt_pattern(PromptPattern::RegexSuffix(vec![0xff]));
    let step = TerminalControlConnection::acquire_signal_input_gate(
        AcquireInputGateRequest {
            terminal: operator(),
            input_gate_reason: "test".to_string(),
            prompt_pattern_identifier_selection: Some(identifier),
        },
        &state,
    );
    let snapshot = match step {
        ControlStep::Snapshot(snapshot) => snapshot,
        other => panic!("expected a snapshot, got {other:?}"),
    };
    match snapshot.resume(Ok(TranscriptSnapshot {
        bytes: Vec::new(),
        last_sequence: 0,
    })) {
        ControlStep::Finish(Err(error)) => {
            assert_eq!(error.kind, ErrorKind::InvalidData);
            assert!(error.message.starts_with("prompt regex pattern is not utf-8: "));
        }
        other => panic!("expected a failure, got {other:?}"),
    }
}

#[test]
fn unknown_pattern_makes_the_prompt_dirty() {
    let step = ask(Query::AcquireInputGate(AcquireInputGateRequest {
        terminal: operator(),
        input_gate_reason: "test".to_string(),
        prompt_pattern_identifier_selection: Some("prompt-pattern-9".to_string()),
    }));
    let snapshot = match step {
        ControlStep::Snapshot(snapshot) => snapshot,
        other => panic!("expected a snapshot, got {other:?}"),
    };
    assert_eq!(
        snapshot.resume(Ok(TranscriptSnapshot {
            bytes: b"abc".to_vec(),
            last_sequence: 1
        })),
        ControlStep::CloseGate(CloseGateStep {
            purpose: CloseGatePurpose::Signal {
                terminal: operator(),
                prompt_state: PromptState::Dirty(3)
            }
        })
    );
}

#[test]
fn stale_lease_is_forgotten_and_other_refusals_fail() {
    let mut state = TerminalSignalControlState::new();
    state.record_signal_lease(lease(5), PromptState::Clean);
    let release = || ReleaseInputGateRequest {
        terminal: operator(),
        lease: lease(5),
    };
    let open = |state: &TerminalSignalControlState| {
        match TerminalControlConnection::release_signal_input_gate(release(), state) {
            ControlStep::OpenGate(open) => open,
            other => panic!("expected an opening, got {other:?}"),
        }
    };
    let step = open(&state);
    assert_eq!(step.lease, gate_lease(5));
    assert_eq!(
        step.resume(Err(refusal(TerminalCellError::Other)), &mut state),
        fails(ErrorKind::BrokenPipe, "refused")
    );
    assert_eq!(
        state.signal_lease_prompt_state(&lease(5)),
        Some(PromptState::Clean)
    );
    let step = open(&state);
    let stale = Err(refusal(TerminalCellError::StaleInputGateLease));
    assert!(step.consults_signal_state(&stale));
    assert_eq!(step.resume(stale, &mut state), unknown_lease());
    assert_eq!(state.signal_lease_prompt_state(&lease(5)), None);
    assert_eq!(
        TerminalControlConnection::release_signal_input_gate(release(), &state),
        unknown_lease()
    );
}

#[test]
fn released_gate_reports_what_it_held() {
    let mut state = TerminalSignalControlState::new();
    state.record_signal_lease(lease(2), PromptState::NotChecked);
    let step = OpenGateStep {
        lease: gate_lease(2),
        purpose: OpenGatePurpose::Signal {
            terminal: operator(),
            lease: lease(2),
        },
    };
    let opened = Ok(TerminalInputGateRelease::new(gate_lease(2), 31));
    assert!(step.consults_signal_state(&opened));
    assert_eq!(
        step.resume(opened, &mut state),
        responds(Response::GateReleased(GateReleasedReply {
            terminal: operator(),
            lease: lease(2),
            cached_human_bytes: 31
        }))
    );
    assert_eq!(state.signal_lease_prompt_state(&lease(2)), None);
}

#[test]
fn injection_is_acknowledged_with_the_sequence() {
    let mut state = TerminalSignalControlState::new();
    state.record_signal_lease(lease(1), PromptState::Clean);
    let injection = WriteInjectionRequest {
        terminal: operator(),
        lease: lease(1),
        input_bytes: vec![121],
    };
    let step = TerminalControlConnection::write_signal_injection(injection, &state);
    let accept = match step {
        ControlStep::Accept(accept) => accept,
        other => panic!("expected input, got {other:?}"),
    };
    let snapshot = match accept.resume(Ok(())) {
        ControlStep::Snapshot(snapshot) => snapshot,
        other => panic!("expected a snapshot, got {other:?}"),
    };
    assert_eq!(
        snapshot.resume(Ok(TranscriptSnapshot {
            bytes: Vec::new(),
            last_sequence: 42
        })),
        responds(Response::InjectionAck(InjectionAckReply {
            terminal: operator(),
            generation: 1,
            sequence: 42
        }))
    );
}

#[test]
fn failures_of_the_terminal_break_the_pipe() {
    let mut state = TerminalSignalControlState::new();
    let broken = fails(ErrorKind::BrokenPipe, "mailbox closed");
    let text = || "mailbox closed".to_string();
    assert_eq!(
        SnapshotStep {
            purpose: SnapshotPurpose::Capture
        }
        .resume(Err(text())),
        broken
    );
    assert_eq!(SubscribeStep {}.resume(Err(text())), broken);
    assert_eq!(
        ResizeStep {
            size: TerminalSize::new(1, 1),
            purpose: ResizePurpose::Resize
        }
        .resume(Err(text())),
        broken
    );
    assert_eq!(
        WaitTextStep {
            wait: WaitForTranscriptText::new(Vec::new())
        }
        .resume(Err(text())),
        broken
    );
    assert_eq!(WaitExitStep {}.resume(Err(text())), broken);
    assert_eq!(ObserveWorkersStep {}.resume(Err(text())), broken);
    assert_eq!(
        SubscribeLifecycleStep {
            terminal: operator()
        }
        .resume(Err(text())),
        broken
    );
    assert_eq!(
        AcceptStep {
            input: TerminalInput::new(Vec::new(), InputSource::Viewer),
            purpose: AcceptPurpose::Input
        }
        .resume(Err(refusal(TerminalCellError::Other))),
        fails(ErrorKind::BrokenPipe, "refused")
    );
    let close = CloseGateStep {
        purpose: CloseGatePurpose::Signal {
            terminal: operator(),
            prompt_state: PromptState::Clean,
        },
    };
    let closed = Err(refusal(TerminalCellError::Other));
    assert!(!close.consults_signal_state(&closed));
    assert_eq!(
        close.resume(closed, &mut state),
        fails(ErrorKind::BrokenPipe, "refused")
    );
}

#[test]
fn plain_work_is_answered_on_the_wire() {
    let mut state = TerminalSignalControlState::new();
    assert_eq!(
        SnapshotStep {
            purpose: SnapshotPurpose::Capture
        }
        .resume(Ok(TranscriptSnapshot {
            bytes: b"hi".to_vec(),
            last_sequence: 1
        })),
        replies(b"\0\0\0\0\0\0\0\x02hi")
    );
    assert_eq!(
        ResizeStep {
            size: TerminalSize::new(1, 1),
            purpose: ResizePurpose::Resize
        }
        .resume(Ok(())),
        replies(b"A")
    );
    assert_eq!(
        CloseGateStep {
            purpose: CloseGatePurpose::Lease
        }
        .resume(Ok(gate_lease(3)), &mut state),
        replies(b"L\0\0\0\0\0\0\0\x03")
    );
    assert_eq!(
        OpenGateStep {
            lease: gate_lease(3),
            purpose: OpenGatePurpose::Release
        }
        .resume(
            Ok(TerminalInputGateRelease::new(gate_lease(3), 1)),
            &mut state
        ),
        replies(b"U\0\0\0\0\0\0\0\x03\0\0\0\0\0\0\0\x01")
    );
    assert_eq!(
        WaitExitStep {}.resume(Ok("exit code 0".to_string())),
        replies(b"\0\0\0\0\0\0\0\x0bexit code 0")
    );
    assert_eq!(
        ObserveWorkersStep {}.resume(Ok("none".to_string())),
        replies(b"\0\0\0\0\0\0\0\x04none")
    );
    let wait = || WaitTextStep {
        wait: WaitForTranscriptText::new(b"x".to_vec()),
    };
    assert_eq!(wait().resume(Ok(true)), replies(b"Y"));
    assert_eq!(
        wait().resume(Ok(false)),
        fails(
            ErrorKind::TimedOut,
            "terminal transcript waiter ended without a match"
        )
    );
}

#[test]
fn archives_frame_responses_and_keep_what_follows() {
    let step = |after| ArchiveStep {
        response: Response::SessionList(SessionListReply {
            session_entries: Vec::new(),
        }),
        after,
    };
    assert_eq!(
        step(AfterReply::Finish).resume(Ok(b"ab".to_vec())),
        replies(b"\0\0\0\x02ab")
    );
    assert_eq!(
        step(AfterReply::Lifecycle {
            terminal: operator()
        })
        .resume(Ok(Vec::new())),
        ControlStep::Reply(ReplyStep {
            bytes: b"\0\0\0\0".to_vec(),
            after: AfterReply::Lifecycle {
                terminal: operator()
            }
        })
    );
    assert_eq!(
        step(AfterReply::Finish).resume(Err("no archive".to_string())),
        fails(
            ErrorKind::InvalidData,
            "signal response archive failed: no archive"
        )
    );
}

#[test]
fn streams_end_with_the_terminal_or_the_client() {
    let gone = || ConnectionError::new(ErrorKind::BrokenPipe, "gone".to_string());
    let reply = |after| ReplyStep {
        bytes: Vec::new(),
        after,
    };
    assert_eq!(
        NextDeltaStep {}.resume(None),
        ControlStep::Finish(Ok(()))
    );
    assert_eq!(
        reply(AfterReply::Replay).resume(Ok(())),
        ControlStep::NextDelta(NextDeltaStep {})
    );
    assert_eq!(
        reply(AfterReply::Replay).resume(Err(gone())),
        ControlStep::Finish(Err(gone()))
    );
    assert_eq!(
        reply(AfterReply::Delta).resume(Err(gone())),
        ControlStep::Finish(Ok(()))
    );
    assert_eq!(
        NextLifecycleStep {
            terminal: operator()
        }
        .resume(None),
        ControlStep::Finish(Ok(()))
    );
    assert_eq!(
        reply(AfterReply::Lifecycle {
            terminal: operator()
        })
        .resume(Err(gone())),
        ControlStep::Finish(Err(gone()))
    );
    assert_eq!(
        reply(AfterReply::Finish).resume(Err(gone())),
        ControlStep::Finish(Err(gone()))
    );
}

#[test]
fn lost_memory_fails_those_who_need_it() {
    assert!(!TerminalControlConnection::consults_signal_state(
        &SocketRequest::Capture
    ));
    assert_eq!(
        TerminalControlConnection::fail_on_poisoned_signal_state(),
        fails(
            ErrorKind::Other,
            "terminal signal control state lock poisoned"
        )
    );
}
