//! The data plane. A data connection carries an attach handshake and nothing but
//! raw bytes behind it: what the terminal shows in one direction, what the viewer
//! types in the other. Each step names work for the terminal or the transport,
//! and is resumed with the result of that work.
use vstd::prelude::*;
use vstd::string::*;
use crate::failure::{failure, ConnectionError, ErrorKind, Failure};
use crate::reply::{reply_bytes, SocketReplyWriter, WireReply};
use crate::request::SocketRequest;
use crate::terminal::{
    InputSource, TerminalCellError, TerminalFailure, TerminalInput, TerminalViewerLease,
    TerminalWorkerKind, TerminalWorkerLifecycle, TerminalWorkerStop, TranscriptSnapshot,
};

verus! {

/// The most bytes that are read from a viewer at once.
pub const VIEWER_READ_LIMIT: usize = 8192;

/// What a data connection does next.
#[derive(Debug, PartialEq, Eq)]
pub enum DataStep {
    /// Reserve the place of the one viewer.
    Reserve(ReserveStep),
    /// Write bytes to the connection, and flush it.
    Write(WriteStep),
    /// Ask the terminal for a snapshot of its transcript.
    Replay(ReplayStep),
    /// Give the terminal's output a clone of the connection to write to.
    Activate(ActivateStep),
    /// Tell the terminal that the pump has started, or that it has stopped.
    Record(RecordStep),
    /// Read from the connection.
    Read(ReadStep),
    /// Hand the viewer's input to the terminal.
    Forward(ForwardStep),
    /// Give up the place of the viewer.
    Detach(DetachStep),
    /// Close the connection.
    Finish(Result<(), ConnectionError>),
}

#[derive(Debug, PartialEq, Eq)]
pub struct ReserveStep {}

/// What follows bytes that are written.
#[derive(Debug, PartialEq, Eq)]
pub enum AfterWrite {
    /// The connection ends as the write did.
    Finish,
    /// The connection fails, even if the write did not.
    Fail(ConnectionError),
    /// The viewer has been accepted; the transcript follows.
    Accepted(TerminalViewerLease),
    /// The transcript has been replayed; live output follows.
    Replayed(TerminalViewerLease),
}

#[derive(Debug, PartialEq, Eq)]
pub struct WriteStep {
    pub bytes: Vec<u8>,
    pub after: AfterWrite,
}

#[derive(Debug, PartialEq, Eq)]
pub struct ReplayStep {
    pub lease: TerminalViewerLease,
}

#[derive(Debug, PartialEq, Eq)]
pub struct ActivateStep {
    pub lease: TerminalViewerLease,
}

/// Why the terminal's output got no connection to write to.
#[derive(Debug, PartialEq, Eq)]
pub enum ActivationFailure {
    /// The connection could not be cloned.
    Connection(ConnectionError),
    /// The terminal did not take it.
    Terminal(TerminalFailure),
}

/// What follows a record.
#[derive(Debug, PartialEq, Eq)]
pub enum AfterRecord {
    /// The pump has started.
    Pump,
    /// The pump has stopped, in good order or not.
    Stop(Result<(), ConnectionError>),
}

#[derive(Debug, PartialEq, Eq)]
pub struct RecordStep {
    pub lease: TerminalViewerLease,
    pub lifecycle: TerminalWorkerLifecycle,
    pub after: AfterRecord,
}

#[derive(Debug, PartialEq, Eq)]
pub struct ReadStep {
    pub lease: TerminalViewerLease,
    pub limit: usize,
}

#[derive(Debug, PartialEq, Eq)]
pub struct ForwardStep {
    pub lease: TerminalViewerLease,
    pub input: TerminalInput,
}

#[derive(Debug, PartialEq, Eq)]
pub struct DetachStep {
    pub lease: TerminalViewerLease,
    /// How the attachment came out.
    pub result: Result<(), ConnectionError>,
    /// Whether the pump had started. Where it failed, the place is given up once
    /// more.
    pub pumped: bool,
}

/// The lease under which a step holds the place of the viewer.
pub open spec fn held(step: DataStep) -> Option<TerminalViewerLease> {
    match step {
        DataStep::Reserve(_) | DataStep::Finish(_) => None,
        DataStep::Write(write) => match write.after {
            AfterWrite::Finish | AfterWrite::Fail(_) => None,
            AfterWrite::Accepted(lease) | AfterWrite::Replayed(lease) => Some(lease),
        },
        DataStep::Replay(replay) => Some(replay.lease),
        DataStep::Activate(activate) => Some(activate.lease),
        DataStep::Record(record) => Some(record.lease),
        DataStep::Read(read) => Some(read.lease),
        DataStep::Forward(forward) => Some(forward.lease),
        DataStep::Detach(detach) => Some(detach.lease),
    }
}

/// Whether the start of the pump has been recorded at a step, or is, and its stop
/// has not been.
pub open spec fn pumping(step: DataStep) -> bool {
    match step {
        DataStep::Read(_) | DataStep::Forward(_) => true,
        DataStep::Record(record) => record.after is Pump,
        _ => false,
    }
}

/// Whether a step records that the pump has stopped.
pub open spec fn records_stop(step: DataStep) -> bool {
    &&& step matches DataStep::Record(record)
    &&& record.after is Stop
    &&& record.lifecycle matches TerminalWorkerLifecycle::Stopped { worker, .. }
    &&& worker == TerminalWorkerKind::AttachConnectionPump
}

/// What holds of every step and the one behind it: the place of the viewer is
/// held under the same lease until it is given up, the pump starts behind its
/// activation, and its stop is recorded before anything else.
pub open spec fn follows(step: DataStep, next: DataStep) -> bool {
    &&& held(step) matches Some(lease) ==> held(next) == Some(lease) || (step is Detach
        && next is Finish)
    &&& pumping(next) ==> pumping(step) || step is Activate
    &&& pumping(step) ==> pumping(next) || records_stop(next)
}

/// The stop of a pump that came out so.
pub open spec fn is_stop(lifecycle: TerminalWorkerLifecycle, result: Result<(), Failure>) -> bool {
    lifecycle matches TerminalWorkerLifecycle::Stopped { worker, reason } && worker
        == TerminalWorkerKind::AttachConnectionPump && match result {
        Ok(()) => reason == TerminalWorkerStop::AttachConnectionClosed,
        Err(failure) => reason matches TerminalWorkerStop::AttachConnectionFailed(text) && text@
            == failure.message,
    }
}

/// How a connection came out, as contracts speak of it.
pub open spec fn came_out(result: Result<(), ConnectionError>) -> Result<(), Failure> {
    match result {
        Ok(()) => Ok(()),
        Err(error) => Err(error@),
    }
}

/// Whether a step records that the pump came out so.
pub open spec fn stops_pump(
    step: DataStep,
    lease: TerminalViewerLease,
    result: Result<(), Failure>,
) -> bool {
    &&& step matches DataStep::Record(record)
    &&& record.lease == lease
    &&& is_stop(record.lifecycle, result)
    &&& record.after matches AfterRecord::Stop(stopped)
    &&& came_out(stopped) == result
}

/// Whether a step gives up the place of the viewer behind a failure, where the
/// pump has not started.
pub open spec fn gives_up(step: DataStep, lease: TerminalViewerLease, failure: Failure) -> bool {
    &&& step matches DataStep::Detach(detach)
    &&& detach.lease == lease
    &&& !detach.pumped
    &&& came_out(detach.result) == Err::<(), Failure>(failure)
}

/// What the data plane says to a request that is no attach.
pub open spec fn non_attach_refusal() -> Seq<char> {
    "data socket only accepts viewer attach; use the control socket"@
}

/// Whether a step is that of a data connection on a request that is no attach.
pub open spec fn refuses_non_attach(step: DataStep) -> bool {
    &&& step matches DataStep::Write(sent)
    &&& sent.bytes@ == reply_bytes(WireReply::AttachRejected(non_attach_refusal()))
    &&& sent.after matches AfterWrite::Fail(error)
    &&& error@ == failure(
        ErrorKind::InvalidInput,
        "non-attach request arrived on terminal-cell data socket"@,
    )
}

/// What the data plane says to a second viewer.
pub open spec fn second_viewer_refusal() -> Seq<char> {
    "terminal cell already has an attached viewer"@
}

/// The step behind bytes that were written, or could not be.
pub open spec fn after_write(after: AfterWrite, written: Result<(), ConnectionError>) -> DataStep {
    match after {
        AfterWrite::Finish => DataStep::Finish(written),
        AfterWrite::Fail(error) => match written {
            Ok(()) => DataStep::Finish(Err(error)),
            Err(other) => DataStep::Finish(Err(other)),
        },
        AfterWrite::Accepted(lease) => match written {
            Ok(()) => DataStep::Replay(ReplayStep { lease }),
            Err(error) => DataStep::Detach(
                DetachStep { lease, result: Err(error), pumped: false },
            ),
        },
        AfterWrite::Replayed(lease) => match written {
            Ok(()) => DataStep::Activate(ActivateStep { lease }),
            Err(error) => DataStep::Detach(
                DetachStep { lease, result: Err(error), pumped: false },
            ),
        },
    }
}

/// The step behind giving up the place of the viewer.
pub open spec fn after_detach(step: DetachStep) -> DataStep {
    if step.pumped && step.result is Err {
        DataStep::Detach(DetachStep { lease: step.lease, result: step.result, pumped: false })
    } else {
        DataStep::Finish(step.result)
    }
}

/// Whether a step follows from reserving the place of the viewer. A second viewer
/// is told that the place is taken, and the connection ends in good order.
pub open spec fn after_reserving(
    reserved: Result<TerminalViewerLease, TerminalFailure>,
    step: DataStep,
) -> bool {
    match reserved {
        Ok(lease) => {
            &&& step matches DataStep::Write(sent)
            &&& sent.bytes@ == reply_bytes(WireReply::AttachAccepted)
            &&& sent.after == AfterWrite::Accepted(lease)
        },
        Err(refusal) => if refusal.error == TerminalCellError::ViewerAlreadyAttached {
            &&& step matches DataStep::Write(sent)
            &&& sent.bytes@ == reply_bytes(
                WireReply::AttachRejected(second_viewer_refusal()),
            )
            &&& sent.after == AfterWrite::Finish
        } else {
            &&& step matches DataStep::Finish(Err(error))
            &&& error@ == failure(ErrorKind::BrokenPipe, refusal.text@)
        },
    }
}

/// Whether a step follows from the transcript so far, or from why there is none.
/// An empty one is not written.
pub open spec fn after_replay(
    lease: TerminalViewerLease,
    snapshot: Result<TranscriptSnapshot, String>,
    step: DataStep,
) -> bool {
    match snapshot {
        Err(text) => gives_up(step, lease, failure(ErrorKind::BrokenPipe, text@)),
        Ok(snapshot) => step == if snapshot.bytes@.len() == 0 {
            DataStep::Activate(ActivateStep { lease: lease })
        } else {
            DataStep::Write(
                WriteStep {
                    bytes: snapshot.bytes,
                    after: AfterWrite::Replayed(lease),
                },
            )
        },
    }
}

/// Whether a step follows from giving the terminal's output the connection.
pub open spec fn after_activation(
    lease: TerminalViewerLease,
    activated: Result<(), ActivationFailure>,
    step: DataStep,
) -> bool {
    match activated {
        Ok(()) => step == DataStep::Record(
            RecordStep {
                lease,
                lifecycle: TerminalWorkerLifecycle::Started(
                    TerminalWorkerKind::AttachConnectionPump,
                ),
                after: AfterRecord::Pump,
            },
        ),
        Err(ActivationFailure::Connection(error)) => gives_up(step, lease, error@),
        Err(ActivationFailure::Terminal(refusal)) => gives_up(
            step,
            lease,
            failure(ErrorKind::BrokenPipe, refusal.text@),
        ),
    }
}

/// The step behind a record.
pub open spec fn after_record(step: RecordStep) -> DataStep {
    match step.after {
        AfterRecord::Pump => DataStep::Read(
            ReadStep { lease: step.lease, limit: VIEWER_READ_LIMIT },
        ),
        AfterRecord::Stop(result) => DataStep::Detach(
            DetachStep { lease: step.lease, result, pumped: true },
        ),
    }
}

/// Whether a step follows from a read. No bytes at all are the end of what the
/// viewer sends.
pub open spec fn after_reading(
    lease: TerminalViewerLease,
    read: Result<Vec<u8>, ConnectionError>,
    step: DataStep,
) -> bool {
    match read {
        Err(error) => stops_pump(step, lease, Err(error@)),
        Ok(bytes) => if bytes@.len() == 0 {
            stops_pump(step, lease, Ok(()))
        } else {
            step == DataStep::Forward(
                ForwardStep {
                    lease,
                    input: TerminalInput { bytes, source: InputSource::Viewer },
                },
            )
        },
    }
}

/// Whether a step follows from handing the viewer's input to the terminal.
pub open spec fn after_forwarding(
    lease: TerminalViewerLease,
    accepted: Result<(), TerminalFailure>,
    step: DataStep,
) -> bool {
    match accepted {
        Ok(()) => step == DataStep::Read(
            ReadStep { lease, limit: VIEWER_READ_LIMIT },
        ),
        Err(refusal) => stops_pump(
            step,
            lease,
            Err(failure(ErrorKind::BrokenPipe, refusal.text@)),
        ),
    }
}

/// What a step is resumed with, as laws speak of it.
pub ghost enum DataEvent {
    Reserved(Result<TerminalViewerLease, TerminalFailure>),
    Written(Result<(), ConnectionError>),
    Snapshot(Result<TranscriptSnapshot, String>),
    Activated(Result<(), ActivationFailure>),
    Recorded,
    Read(Result<Vec<u8>, ConnectionError>),
    Accepted(Result<(), TerminalFailure>),
    Detached,
}

/// Whether a step, resumed with an event, leads to the next one.
pub open spec fn resumed(step: DataStep, event: DataEvent, next: DataStep) -> bool {
    match (step, event) {
        (DataStep::Reserve(_), DataEvent::Reserved(reserved)) => after_reserving(reserved, next),
        (DataStep::Write(write), DataEvent::Written(written)) => next == after_write(
            write.after,
            written,
        ),
        (DataStep::Replay(replay), DataEvent::Snapshot(snapshot)) => after_replay(
            replay.lease,
            snapshot,
            next,
        ),
        (DataStep::Activate(activate), DataEvent::Activated(activated)) => after_activation(
            activate.lease,
            activated,
            next,
        ),
        (DataStep::Record(record), DataEvent::Recorded) => next == after_record(record),
        (DataStep::Read(read), DataEvent::Read(bytes)) => after_reading(read.lease, bytes, next),
        (DataStep::Forward(forward), DataEvent::Accepted(accepted)) => after_forwarding(
            forward.lease,
            accepted,
            next,
        ),
        (DataStep::Detach(detach), DataEvent::Detached) => next == after_detach(detach),
        _ => false,
    }
}

fn give_up(lease: TerminalViewerLease, error: ConnectionError) -> (step: DataStep)
    ensures
        step == DataStep::Detach(DetachStep { lease, result: Err(error), pumped: false }),
{
    DataStep::Detach(DetachStep { lease, result: Err(error), pumped: false })
}

/// Records how the pump came out.
fn stop_pump(lease: TerminalViewerLease, result: Result<(), ConnectionError>) -> (step: DataStep)
    ensures
        stops_pump(step, lease, came_out(result)),
{
    let reason = match &result {
        Ok(()) => TerminalWorkerStop::AttachConnectionClosed,
        Err(error) => TerminalWorkerStop::AttachConnectionFailed(error.message.clone()),
    };
    DataStep::Record(
        RecordStep {
            lease,
            lifecycle: TerminalWorkerLifecycle::Stopped {
                worker: TerminalWorkerKind::AttachConnectionPump,
                reason,
            },
            after: AfterRecord::Stop(result),
        },
    )
}

fn read_more(lease: TerminalViewerLease) -> (step: DataStep)
    ensures
        step == DataStep::Read(ReadStep { lease, limit: VIEWER_READ_LIMIT }),
{
    DataStep::Read(ReadStep { lease, limit: VIEWER_READ_LIMIT })
}

/// The decisions of a data connection.
#[derive(Debug)]
pub struct TerminalDataConnection;

impl TerminalDataConnection {
    /// Begins to serve a request.
    pub fn run(request: SocketRequest) -> (step: DataStep)
        ensures
            match request {
                SocketRequest::Attach => step == DataStep::Reserve(ReserveStep {  }),
                _ => refuses_non_attach(step),
            },
    {
        match request {
            SocketRequest::Attach => Self::attach_viewer(),
            _ => Self::reject_non_attach_on_data_plane(),
        }
    }

    /// Begins to attach a viewer.
    pub fn attach_viewer() -> (step: DataStep)
        ensures
            step == DataStep::Reserve(ReserveStep {  }),
    {
        DataStep::Reserve(ReserveStep {  })
    }

    /// Refuses a request that belongs on the control socket.
    pub fn reject_non_attach_on_data_plane() -> (step: DataStep)
        ensures
            refuses_non_attach(step),
    {
        let mut writer = SocketReplyWriter::new(Vec::new());
        writer.write_attach_rejected(
            "data socket only accepts viewer attach; use the control socket",
        );
        assert(writer@ =~= reply_bytes(WireReply::AttachRejected(non_attach_refusal())));
        DataStep::Write(
            WriteStep {
                bytes: writer.into_bytes(),
                after: AfterWrite::Fail(
                    ConnectionError::new(
                        ErrorKind::InvalidInput,
                        "non-attach request arrived on terminal-cell data socket".to_owned(),
                    ),
                ),
            },
        )
    }
}

impl ReserveStep {
    /// Goes on with the place of the viewer.
    pub fn resume(self, reserved: Result<TerminalViewerLease, TerminalFailure>) -> (step: DataStep)
        ensures
            after_reserving(reserved, step),
            follows(DataStep::Reserve(self), step),
    {
        match reserved {
            Ok(lease) => {
                let mut writer = SocketReplyWriter::new(Vec::new());
                writer.write_attach_accepted();
                assert(writer@ =~= reply_bytes(WireReply::AttachAccepted));
                DataStep::Write(
                    WriteStep { bytes: writer.into_bytes(), after: AfterWrite::Accepted(lease) },
                )
            },
            Err(refusal) => match refusal.error {
                TerminalCellError::ViewerAlreadyAttached => {
                    let mut writer = SocketReplyWriter::new(Vec::new());
                    writer.write_attach_rejected("terminal cell already has an attached viewer");
                    assert(writer@ =~= reply_bytes(
                        WireReply::AttachRejected(second_viewer_refusal()),
                    ));
                    DataStep::Write(
                        WriteStep { bytes: writer.into_bytes(), after: AfterWrite::Finish },
                    )
                },
                _ => DataStep::Finish(
                    Err(ConnectionError::new(ErrorKind::BrokenPipe, refusal.text)),
                ),
            },
        }
    }
}

impl WriteStep {
    /// Goes on once the bytes have been written, or could not be.
    pub fn resume(self, written: Result<(), ConnectionError>) -> (step: DataStep)
        ensures
            step == after_write(self.after, written),
            follows(DataStep::Write(self), step),
    {
        match self.after {
            AfterWrite::Finish => DataStep::Finish(written),
            AfterWrite::Fail(error) => match written {
                Ok(()) => DataStep::Finish(Err(error)),
                Err(other) => DataStep::Finish(Err(other)),
            },
            AfterWrite::Accepted(lease) => match written {
                Ok(()) => DataStep::Replay(ReplayStep { lease }),
                Err(error) => give_up(lease, error),
            },
            AfterWrite::Replayed(lease) => match written {
                Ok(()) => DataStep::Activate(ActivateStep { lease }),
                Err(error) => give_up(lease, error),
            },
        }
    }
}

impl ReplayStep {
    /// Goes on with the transcript so far, or with why there is none.
    pub fn resume(self, snapshot: Result<TranscriptSnapshot, String>) -> (step: DataStep)
        ensures
            after_replay(self.lease, snapshot, step),
            follows(DataStep::Replay(self), step),
    {
        match snapshot {
            Err(text) => give_up(self.lease, ConnectionError::new(ErrorKind::BrokenPipe, text)),
            Ok(snapshot) => if snapshot.bytes.len() == 0 {
                DataStep::Activate(ActivateStep { lease: self.lease })
            } else {
                DataStep::Write(
                    WriteStep { bytes: snapshot.bytes, after: AfterWrite::Replayed(self.lease) },
                )
            },
        }
    }
}

impl ActivateStep {
    /// Goes on once the terminal's output writes to the connection.
    pub fn resume(self, activated: Result<(), ActivationFailure>) -> (step: DataStep)
        ensures
            after_activation(self.lease, activated, step),
            follows(DataStep::Activate(self), step),
    {
        match activated {
            Ok(()) => DataStep::Record(
                RecordStep {
                    lease: self.lease,
                    lifecycle: TerminalWorkerLifecycle::Started(
                        TerminalWorkerKind::AttachConnectionPump,
                    ),
                    after: AfterRecord::Pump,
                },
            ),
            Err(ActivationFailure::Connection(error)) => give_up(self.lease, error),
            Err(ActivationFailure::Terminal(refusal)) => give_up(
                self.lease,
                ConnectionError::new(ErrorKind::BrokenPipe, refusal.text),
            ),
        }
    }
}

impl RecordStep {
    /// Goes on, whether the terminal took notice or not.
    pub fn resume(self) -> (step: DataStep)
        ensures
            step == after_record(self),
            follows(DataStep::Record(self), step),
    {
        match self.after {
            AfterRecord::Pump => read_more(self.lease),
            AfterRecord::Stop(result) => DataStep::Detach(
                DetachStep { lease: self.lease, result, pumped: true },
            ),
        }
    }
}

impl ReadStep {
    /// Goes on with the bytes that were read.
    pub fn resume(self, read: Result<Vec<u8>, ConnectionError>) -> (step: DataStep)
        ensures
            after_reading(self.lease, read, step),
            follows(DataStep::Read(self), step),
    {
        match read {
            Err(error) => stop_pump(self.lease, Err(error)),
            Ok(bytes) => if bytes.len() == 0 {
                stop_pump(self.lease, Ok(()))
            } else {
                DataStep::Forward(
                    ForwardStep {
                        lease: self.lease,
                        input: TerminalInput::new(bytes, InputSource::Viewer),
                    },
                )
            },
        }
    }
}

impl ForwardStep {
    /// Goes on once the terminal has taken the input, or refused it.
    pub fn resume(self, accepted: Result<(), TerminalFailure>) -> (step: DataStep)
        ensures
            after_forwarding(self.lease, accepted, step),
            follows(DataStep::Forward(self), step),
    {
        match accepted {
            Ok(()) => read_more(self.lease),
            Err(refusal) => stop_pump(
                self.lease,
                Err(ConnectionError::new(ErrorKind::BrokenPipe, refusal.text)),
            ),
        }
    }
}

impl DetachStep {
    /// Goes on, whether the terminal took notice or not.
    pub fn resume(self) -> (step: DataStep)
        ensures
            step == after_detach(self),
            follows(DataStep::Detach(self), step),
    {
        if self.pumped && self.result.is_err() {
            DataStep::Detach(DetachStep { lease: self.lease, result: self.result, pumped: false })
        } else {
            DataStep::Finish(self.result)
        }
    }
}

} // verus!
