use terminal_cell::data::{
    ActivateStep, ActivationFailure, AfterRecord, AfterWrite, DetachStep, ForwardStep, ReadStep,
    RecordStep, ReplayStep, ReserveStep, WriteStep, VIEWER_READ_LIMIT,
};
use terminal_cell::{
    ConnectionError, DataStep, ErrorKind, InputSource, SocketRequest, TerminalCellError,
    TerminalDataConnection, TerminalFailure, TerminalInput, TerminalViewerLease,
    TerminalWorkerKind, TerminalWorkerLifecycle, TerminalWorkerStop, TranscriptSnapshot,
};

const LEASE: TerminalViewerLease = TerminalViewerLease { value: 6 };

fn broken(text: &str) -> ConnectionError {
    ConnectionError::new(ErrorKind::BrokenPipe, text.to_string())
}

fn refusal(error: TerminalCellError) -> TerminalFailure {
    TerminalFailure {
        error,
        text: "refused".to_string(),
    }
}

fn gives_up(error: ConnectionError) -> DataStep {
    DataStep::Detach(DetachStep {
        lease: LEASE,
        result: Err(error),
        pumped: false,
    })
}

fn stops(reason: TerminalWorkerStop, result: Result<(), ConnectionError>) -> DataStep {
    DataStep::Record(RecordStep {
        lease: LEASE,
        lifecycle: TerminalWorkerLifecycle::Stopped {
            worker: TerminalWorkerKind::AttachConnectionPump,
            reason,
        },
        after: AfterRecord::Stop(result),
    })
}

fn reads() -> DataStep {
    DataStep::Read(ReadStep {
        lease: LEASE,
        limit: 8192,
    })
}

#[test]
fn attach_reserves_and_all_else_is_refused() {
    assert_eq!(
        TerminalDataConnection::run(SocketRequest::Attach),
        DataStep::Reserve(ReserveStep {})
    );
    let write = match TerminalDataConnection::run(SocketRequest::Capture) {
        DataStep::Write(write) => write,
        other => panic!("expected a refusal, got {other:?}"),
    };
    assert_eq!(
        write.bytes,
        [
            b"J\0\0\0\0\0\0\0\x3e".to_vec(),
            b"data socket only accepts viewer attach; use the control socket".to_vec()
        ]
        .concat()
    );
    assert_eq!(
        write.resume(Ok(())),
        DataStep::Finish(Err(ConnectionError::new(
            ErrorKind::InvalidInput,
            "non-attach request arrived on terminal-cell data socket".to_string()
        )))
    );
}

#[test]
fn reservation_is_accepted_refused_or_failed() {
    assert_eq!(
        ReserveStep {}.resume(Ok(LEASE)),
        DataStep::Write(WriteStep {
            bytes: b"I".to_vec(),
            after: AfterWrite::Accepted(LEASE)
        })
    );
    let occupied = Err(refusal(TerminalCellError::ViewerAlreadyAttached));
    let refused = match (ReserveStep {}).resume(occupied) {
        DataStep::Write(write) => write,
        other => panic!("expected a refusal, got {other:?}"),
    };
    assert!(refused
        .bytes
        .ends_with(b"terminal cell already has an attached viewer"));
    assert_eq!(refused.resume(Ok(())), DataStep::Finish(Ok(())));
    assert_eq!(
        ReserveStep {}.resume(Err(refusal(TerminalCellError::Other))),
        DataStep::Finish(Err(broken("refused")))
    );
}

#[test]
fn replay_comes_before_activation_unless_it_is_empty() {
    let written = |after| {
        WriteStep {
            bytes: Vec::new(),
            after,
        }
        .resume(Ok(()))
    };
    assert_eq!(
        written(AfterWrite::Accepted(LEASE)),
        DataStep::Replay(ReplayStep { lease: LEASE })
    );
    let snapshot = |bytes: &[u8]| {
        ReplayStep { lease: LEASE }.resume(Ok(TranscriptSnapshot {
            bytes: bytes.to_vec(),
            last_sequence: 0,
        }))
    };
    assert_eq!(
        snapshot(b"old"),
        DataStep::Write(WriteStep {
            bytes: b"old".to_vec(),
            after: AfterWrite::Replayed(LEASE)
        })
    );
    assert_eq!(
        snapshot(b""),
        DataStep::Activate(ActivateStep { lease: LEASE })
    );
    assert_eq!(
        written(AfterWrite::Replayed(LEASE)),
        DataStep::Activate(ActivateStep { lease: LEASE })
    );
    assert_eq!(
        ActivateStep { lease: LEASE }.resume(Ok(())),
        DataStep::Record(RecordStep {
            lease: LEASE,
            lifecycle: TerminalWorkerLifecycle::Started(TerminalWorkerKind::AttachConnectionPump),
            after: AfterRecord::Pump
        })
    );
}

#[test]
fn failures_before_the_pump_give_the_place_up_once() {
    for after in [AfterWrite::Accepted(LEASE), AfterWrite::Replayed(LEASE)] {
        let write = WriteStep {
            bytes: Vec::new(),
            after,
        };
        assert_eq!(write.resume(Err(broken("gone"))), gives_up(broken("gone")));
    }
    assert_eq!(
        ReplayStep { lease: LEASE }.resume(Err("mailbox closed".to_string())),
        gives_up(broken("mailbox closed"))
    );
    let error = ConnectionError::new(ErrorKind::Other, "no descriptors".to_string());
    assert_eq!(
        ActivateStep { lease: LEASE }
            .resume(Err(ActivationFailure::Connection(error.clone()))),
        gives_up(error)
    );
    assert_eq!(
        ActivateStep { lease: LEASE }.resume(Err(ActivationFailure::Terminal(refusal(
            TerminalCellError::Other
        )))),
        gives_up(broken("refused"))
    );
    let detach = DetachStep {
        lease: LEASE,
        result: Err(broken("gone")),
        pumped: false,
    };
    assert_eq!(detach.resume(), DataStep::Finish(Err(broken("gone"))));
}

#[test]
fn pump_forwards_what_the_viewer_types() {
    assert_eq!(VIEWER_READ_LIMIT, 8192);
    let read = || ReadStep {
        lease: LEASE,
        limit: VIEWER_READ_LIMIT,
    };
    let forward = match read().resume(Ok(b"typed".to_vec())) {
        DataStep::Forward(forward) => forward,
        other => panic!("expected input, got {other:?}"),
    };
    assert_eq!(
        forward.input,
        TerminalInput::new(b"typed".to_vec(), InputSource::Viewer)
    );
    assert_eq!(forward.resume(Ok(())), reads());
    assert_eq!(
        read().resume(Ok(Vec::new())),
        stops(TerminalWorkerStop::AttachConnectionClosed, Ok(()))
    );
    assert_eq!(
        read().resume(Err(broken("reset"))),
        stops(
            TerminalWorkerStop::AttachConnectionFailed("reset".to_string()),
            Err(broken("reset"))
        )
    );
    let forward = ForwardStep {
        lease: LEASE,
        input: TerminalInput::new(b"x".to_vec(), InputSource::Viewer),
    };
    assert_eq!(
        forward.resume(Err(refusal(TerminalCellError::Other))),
        stops(
            TerminalWorkerStop::AttachConnectionFailed("refused".to_string()),
            Err(broken("refused"))
        )
    );
}

#[test]
fn stopped_pump_gives_the_place_up_and_ends_as_it_came_out() {
    let record = |after| RecordStep {
        lease: LEASE,
        lifecycle: TerminalWorkerLifecycle::Started(TerminalWorkerKind::AttachConnectionPump),
        after,
    };
    assert_eq!(record(AfterRecord::Pump).resume(), reads());
    let closed = match record(AfterRecord::Stop(Ok(()))).resume() {
        DataStep::Detach(detach) => detach,
        other => panic!("expected a detachment, got {other:?}"),
    };
    assert_eq!(closed.resume(), DataStep::Finish(Ok(())));
    let failed = match record(AfterRecord::Stop(Err(broken("reset")))).resume() {
        DataStep::Detach(detach) => detach,
        other => panic!("expected a detachment, got {other:?}"),
    };
    assert_eq!(failed.lease, LEASE);
    let again = match failed.resume() {
        DataStep::Detach(detach) => detach,
        other => panic!("expected another detachment, got {other:?}"),
    };
    assert_eq!(again.lease, LEASE);
    assert_eq!(again.resume(), DataStep::Finish(Err(broken("reset"))));
}
