//! Requests on the wire. A request is a tag byte and what the tag calls for, or
//! a Signal archive behind its length.
use vstd::prelude::*;
use crate::cursor::{
    answers, number_outcome, payload_outcome, ByteCursor, FrameKind, Outcome, ReadInterruption,
};
use crate::failure::{failure, ConnectionError, ErrorKind};
use crate::signal::Query;
use crate::terminal::{
    gate_lease, InputSource, TerminalInput, TerminalInputGateLease, TerminalInputGateSequence,
    TerminalSize, WaitForTranscriptText,
};
use crate::text::joined;
use crate::wire::{be_bytes, be_value, push_big_endian};

verus! {

/// `C`.
pub const CAPTURE_REQUEST: u8 = 0x43;

/// `S`.
pub const SUBSCRIBE_REQUEST: u8 = 0x53;

/// `T`.
pub const ATTACH_REQUEST: u8 = 0x54;

/// `P`.
pub const PROGRAMMATIC_INPUT_REQUEST: u8 = 0x50;

/// `V`.
pub const VIEWER_INPUT_REQUEST: u8 = 0x56;

/// `G`.
pub const CLOSE_HUMAN_INPUT_REQUEST: u8 = 0x47;

/// `O`.
pub const OPEN_HUMAN_INPUT_REQUEST: u8 = 0x4f;

/// `R`.
pub const RESIZE_REQUEST: u8 = 0x52;

/// `W`.
pub const WAIT_REQUEST: u8 = 0x57;

/// `X`.
pub const WAIT_EXIT_REQUEST: u8 = 0x58;

/// `H`.
pub const WORKER_OBSERVATION_REQUEST: u8 = 0x48;

/// What a connection asks for.
#[derive(Debug, Clone, PartialEq, Eq)]
pub enum SocketRequest {
    Capture,
    SubscribeFromBeginning,
    Attach,
    Input(TerminalInput),
    CloseHumanInput,
    OpenHumanInput(TerminalInputGateLease),
    Resize(TerminalSize),
    Wait(WaitForTranscriptText),
    WaitExit,
    WorkerObservation,
    Signal(SignalSocketRequest),
}

/// A query that arrived as a Signal archive.
#[derive(Debug, Clone, PartialEq, Eq)]
pub struct SignalSocketRequest {
    payload: Query,
}

impl SignalSocketRequest {
    pub closed spec fn query(&self) -> Query {
        self.payload
    }

    fn new(payload: Query) -> (request: Self)
        ensures
            request.query() == payload,
    {
        SignalSocketRequest { payload }
    }

    pub fn payload(&self) -> (payload: &Query)
        ensures
            *payload == self.query(),
    {
        &self.payload
    }

    pub fn into_payload(self) -> (payload: Query)
        ensures
            payload == self.query(),
    {
        self.payload
    }
}

/// A request, as contracts speak of it.
pub ghost enum WireRequest {
    Capture,
    SubscribeFromBeginning,
    Attach,
    Input { bytes: Seq<u8>, source: InputSource },
    CloseHumanInput,
    OpenHumanInput(TerminalInputGateLease),
    Resize(TerminalSize),
    Wait(Seq<u8>),
    WaitExit,
    WorkerObservation,
    /// A query that is still an archive.
    Archive(Seq<u8>),
    /// A query.
    Query(Query),
}

impl View for SocketRequest {
    type V = WireRequest;

    open spec fn view(&self) -> WireRequest {
        match self {
            SocketRequest::Capture => WireRequest::Capture,
            SocketRequest::SubscribeFromBeginning => WireRequest::SubscribeFromBeginning,
            SocketRequest::Attach => WireRequest::Attach,
            SocketRequest::Input(input) => WireRequest::Input {
                bytes: input.bytes@,
                source: input.source,
            },
            SocketRequest::CloseHumanInput => WireRequest::CloseHumanInput,
            SocketRequest::OpenHumanInput(lease) => WireRequest::OpenHumanInput(*lease),
            SocketRequest::Resize(size) => WireRequest::Resize(*size),
            SocketRequest::Wait(wait) => WireRequest::Wait(wait.bytes@),
            SocketRequest::WaitExit => WireRequest::WaitExit,
            SocketRequest::WorkerObservation => WireRequest::WorkerObservation,
            SocketRequest::Signal(request) => WireRequest::Query(request.query()),
        }
    }
}

/// A request as it comes off the wire: a Signal archive is still to be restored.
#[derive(Debug, Clone, PartialEq, Eq)]
pub enum ReceivedRequest {
    Request(SocketRequest),
    Archive(SignalArchive),
}

impl View for ReceivedRequest {
    type V = WireRequest;

    open spec fn view(&self) -> WireRequest {
        match self {
            ReceivedRequest::Request(request) => request@,
            ReceivedRequest::Archive(archive) => WireRequest::Archive(archive@),
        }
    }
}

/// The archive of a query.
#[derive(Debug, Clone, PartialEq, Eq)]
pub struct SignalArchive {
    bytes: Vec<u8>,
}

impl View for SignalArchive {
    type V = Seq<u8>;

    closed spec fn view(&self) -> Seq<u8> {
        self.bytes@
    }
}

impl SignalArchive {
    /// The bytes that the query is to be restored from.
    pub fn bytes(&self) -> (bytes: &[u8])
        ensures
            bytes@ == self@,
    {
        self.bytes.as_slice()
    }

    /// The request that a restored archive is. An archive that cannot be
    /// restored is refused, whichever socket it arrived on.
    pub fn restored(self, query: Result<Query, String>) -> (request: Result<
        SocketRequest,
        ConnectionError,
    >)
        ensures
            match query {
                Ok(query) => request matches Ok(restored) && restored@ == WireRequest::Query(query),
                Err(complaint) => request matches Err(error) && error@ == failure(
                    ErrorKind::InvalidData,
                    "signal query restore failed: "@ + complaint@,
                ),
            },
    {
        match query {
            Ok(query) => Ok(SocketRequest::Signal(SignalSocketRequest::new(query))),
            Err(complaint) => Err(
                ConnectionError::new(
                    ErrorKind::InvalidData,
                    joined("signal query restore failed: ", complaint.as_str()),
                ),
            ),
        }
    }
}

/// A payload behind its length.
pub open spec fn frame(bytes: Seq<u8>) -> Seq<u8> {
    be_bytes(bytes.len(), 8) + bytes
}

/// A Signal archive behind its length.
pub open spec fn signal_frame(bytes: Seq<u8>) -> Seq<u8> {
    be_bytes(bytes.len(), 4) + bytes
}

/// The bytes of a request. A query has none of its own: its archive does.
pub open spec fn request_bytes(request: WireRequest) -> Seq<u8> {
    match request {
        WireRequest::Capture => seq![CAPTURE_REQUEST],
        WireRequest::SubscribeFromBeginning => seq![SUBSCRIBE_REQUEST],
        WireRequest::Attach => seq![ATTACH_REQUEST],
        WireRequest::Input { bytes, source: InputSource::Programmatic } => seq![
            PROGRAMMATIC_INPUT_REQUEST,
        ] + frame(bytes),
        WireRequest::Input { bytes, source: InputSource::Viewer } => seq![VIEWER_INPUT_REQUEST]
            + frame(bytes),
        WireRequest::CloseHumanInput => seq![CLOSE_HUMAN_INPUT_REQUEST],
        WireRequest::OpenHumanInput(lease) => seq![OPEN_HUMAN_INPUT_REQUEST] + be_bytes(
            lease.sequence.value as nat,
            8,
        ),
        WireRequest::Resize(size) => seq![RESIZE_REQUEST] + be_bytes(size.rows as nat, 2)
            + be_bytes(size.columns as nat, 2),
        WireRequest::Wait(bytes) => seq![WAIT_REQUEST] + frame(bytes),
        WireRequest::WaitExit => seq![WAIT_EXIT_REQUEST],
        WireRequest::WorkerObservation => seq![WORKER_OBSERVATION_REQUEST],
        WireRequest::Archive(bytes) => signal_frame(bytes),
        WireRequest::Query(_) => Seq::empty(),
    }
}

/// Rows and columns, two bytes each.
pub open spec fn size_outcome(bytes: Seq<u8>) -> Outcome<TerminalSize> {
    if bytes.len() < 2 {
        Outcome::Short { missing: (2 - bytes.len()) as nat }
    } else if bytes.len() < 4 {
        Outcome::Short { missing: (4 - bytes.len()) as nat }
    } else {
        Outcome::Complete {
            value: TerminalSize {
                rows: be_value(bytes.take(2)) as u16,
                columns: be_value(bytes.subrange(2, 4)) as u16,
            },
            consumed: 4,
        }
    }
}

/// The request at the front of received bytes. A first byte that is no tag is
/// the first byte of the length of a Signal archive.
pub open spec fn request_outcome(bytes: Seq<u8>) -> Outcome<WireRequest> {
    if bytes.len() == 0 {
        Outcome::Short { missing: 1 }
    } else {
        let tag = bytes[0];
        let rest = bytes.skip(1);
        if tag == CAPTURE_REQUEST {
            Outcome::Complete { value: WireRequest::Capture, consumed: 1 }
        } else if tag == SUBSCRIBE_REQUEST {
            Outcome::Complete { value: WireRequest::SubscribeFromBeginning, consumed: 1 }
        } else if tag == ATTACH_REQUEST {
            Outcome::Complete { value: WireRequest::Attach, consumed: 1 }
        } else if tag == PROGRAMMATIC_INPUT_REQUEST {
            payload_outcome(rest, FrameKind::Request).map(
                |bytes| WireRequest::Input { bytes, source: InputSource::Programmatic },
            ).behind(1)
        } else if tag == VIEWER_INPUT_REQUEST {
            payload_outcome(rest, FrameKind::Request).map(
                |bytes| WireRequest::Input { bytes, source: InputSource::Viewer },
            ).behind(1)
        } else if tag == CLOSE_HUMAN_INPUT_REQUEST {
            Outcome::Complete { value: WireRequest::CloseHumanInput, consumed: 1 }
        } else if tag == OPEN_HUMAN_INPUT_REQUEST {
            number_outcome(rest, 8).map(
                |value: nat| WireRequest::OpenHumanInput(gate_lease(value as u64)),
            ).behind(1)
        } else if tag == RESIZE_REQUEST {
            size_outcome(rest).map(|size| WireRequest::Resize(size)).behind(1)
        } else if tag == WAIT_REQUEST {
            payload_outcome(rest, FrameKind::Request).map(
                |bytes| WireRequest::Wait(bytes),
            ).behind(1)
        } else if tag == WAIT_EXIT_REQUEST {
            Outcome::Complete { value: WireRequest::WaitExit, consumed: 1 }
        } else if tag == WORKER_OBSERVATION_REQUEST {
            Outcome::Complete { value: WireRequest::WorkerObservation, consumed: 1 }
        } else {
            payload_outcome(bytes, FrameKind::Signal).map(|bytes| WireRequest::Archive(bytes))
        }
    }
}

/// Reads requests from the bytes that a connection has received.
#[derive(Debug, Clone, PartialEq, Eq)]
pub struct SocketRequestReader {
    reader: ByteCursor,
}

impl View for SocketRequestReader {
    type V = Seq<u8>;

    /// The bytes that have not been consumed.
    closed spec fn view(&self) -> Seq<u8> {
        self.reader@
    }
}

impl SocketRequestReader {
    pub fn new(received: Vec<u8>) -> (reader: Self)
        ensures
            reader@ == received@,
    {
        SocketRequestReader { reader: ByteCursor::new(received) }
    }

    /// Adds bytes behind those that have been received.
    pub fn receive(&mut self, bytes: &[u8])
        ensures
            final(self)@ == old(self)@ + bytes@,
    {
        self.reader.receive(bytes);
    }

    /// Reads the next request.
    pub fn read_request(&mut self) -> (request: Result<ReceivedRequest, ReadInterruption>)
        ensures
            answers(request, request_outcome(old(self)@), old(self)@, final(self)@),
    {
        let tag: u8 = match self.reader.byte_at(0) {
            Ok(tag) => tag,
            Err(interruption) => return Err(interruption),
        };
        match tag {
            CAPTURE_REQUEST => Ok(self.bare_request(SocketRequest::Capture)),
            SUBSCRIBE_REQUEST => Ok(self.bare_request(SocketRequest::SubscribeFromBeginning)),
            ATTACH_REQUEST => Ok(self.bare_request(SocketRequest::Attach)),
            PROGRAMMATIC_INPUT_REQUEST => match self.read_frame() {
                Ok(bytes) => Ok(
                    ReceivedRequest::Request(
                        SocketRequest::Input(TerminalInput::new(bytes, InputSource::Programmatic)),
                    ),
                ),
                Err(interruption) => Err(interruption),
            },
            VIEWER_INPUT_REQUEST => match self.read_frame() {
                Ok(bytes) => Ok(
                    ReceivedRequest::Request(
                        SocketRequest::Input(TerminalInput::new(bytes, InputSource::Viewer)),
                    ),
                ),
                Err(interruption) => Err(interruption),
            },
            CLOSE_HUMAN_INPUT_REQUEST => Ok(self.bare_request(SocketRequest::CloseHumanInput)),
            OPEN_HUMAN_INPUT_REQUEST => match self.read_u64() {
                Ok(value) => {
                    let lease = TerminalInputGateLease::new(TerminalInputGateSequence::new(value));
                    Ok(ReceivedRequest::Request(SocketRequest::OpenHumanInput(lease)))
                },
                Err(interruption) => Err(interruption),
            },
            RESIZE_REQUEST => match self.read_size() {
                Ok(size) => Ok(ReceivedRequest::Request(SocketRequest::Resize(size))),
                Err(interruption) => Err(interruption),
            },
            WAIT_REQUEST => match self.read_frame() {
                Ok(bytes) => Ok(
                    ReceivedRequest::Request(
                        SocketRequest::Wait(WaitForTranscriptText::new(bytes)),
                    ),
                ),
                Err(interruption) => Err(interruption),
            },
            WAIT_EXIT_REQUEST => Ok(self.bare_request(SocketRequest::WaitExit)),
            WORKER_OBSERVATION_REQUEST => Ok(self.bare_request(SocketRequest::WorkerObservation)),
            _ => self.read_signal_request(),
        }
    }

    /// Consumes the tag of a request that is a tag alone.
    fn bare_request(&mut self, request: SocketRequest) -> (received: ReceivedRequest)
        requires
            old(self)@.len() >= 1,
        ensures
            received == ReceivedRequest::Request(request),
            final(self)@ == old(self)@.skip(1),
    {
        self.reader.skip(1);
        ReceivedRequest::Request(request)
    }

    /// Reads the Signal archive at the front.
    fn read_signal_request(&mut self) -> (request: Result<ReceivedRequest, ReadInterruption>)
        ensures
            answers(
                request,
                payload_outcome(old(self)@, FrameKind::Signal).map(
                    |bytes| WireRequest::Archive(bytes),
                ),
                old(self)@,
                final(self)@,
            ),
    {
        assert(self@.skip(0) =~= self@);
        match self.reader.read_payload(0, FrameKind::Signal) {
            Ok(bytes) => Ok(ReceivedRequest::Archive(SignalArchive { bytes })),
            Err(interruption) => Err(interruption),
        }
    }

    /// Reads the payload behind the tag.
    fn read_frame(&mut self) -> (bytes: Result<Vec<u8>, ReadInterruption>)
        requires
            old(self)@.len() >= 1,
        ensures
            answers(
                bytes,
                payload_outcome(old(self)@.skip(1), FrameKind::Request).behind(1),
                old(self)@,
                final(self)@,
            ),
    {
        self.reader.read_payload(1, FrameKind::Request)
    }

    /// Reads the number behind the tag.
    fn read_u64(&mut self) -> (value: Result<u64, ReadInterruption>)
        requires
            old(self)@.len() >= 1,
        ensures
            answers(
                value,
                number_outcome(old(self)@.skip(1), 8).map(|value: nat| value as u64).behind(1),
                old(self)@,
                final(self)@,
            ),
    {
        let value = self.reader.number_at(1, 8);
        if value.is_ok() {
            self.reader.skip(9);
        }
        value
    }

    /// Looks at two bytes of the size behind the tag.
    fn read_u16(&self, at: usize) -> (value: Result<u16, ReadInterruption>)
        requires
            at <= self@.len(),
        ensures
            match value {
                Ok(value) => at + 2 <= self@.len() && value == be_value(
                    self@.subrange(at as int, at + 2),
                ),
                Err(interruption) => at + 2 > self@.len() && interruption
                    == ReadInterruption::NeedBytes((at + 2 - self@.len()) as usize),
            },
    {
        match self.reader.number_at(at, 2) {
            Ok(value) => {
                proof {
                    assert(self@.skip(at as int).take(2) =~= self@.subrange(at as int, at + 2));
                    crate::wire::be_value_is_in_range(self@.subrange(at as int, at + 2));
                    crate::wire::be_ranges();
                }
                Ok(value as u16)
            },
            Err(interruption) => Err(interruption),
        }
    }

    /// Reads the size behind the tag.
    fn read_size(&mut self) -> (size: Result<TerminalSize, ReadInterruption>)
        requires
            old(self)@.len() >= 1,
        ensures
            match size_outcome(old(self)@.skip(1)).behind(1) {
                Outcome::Complete { value, consumed } => {
                    &&& size == Ok::<TerminalSize, ReadInterruption>(value)
                    &&& final(self)@ == old(self)@.skip(consumed as int)
                    &&& consumed <= old(self)@.len()
                },
                Outcome::Refused { .. } => false,
                Outcome::Short { missing } => {
                    &&& size matches Err(ReadInterruption::NeedBytes(count)) && count == missing
                    &&& final(self)@ == old(self)@
                },
            },
    {
        let ghost rest = self@.skip(1);
        let rows: u16 = match self.read_u16(1) {
            Ok(rows) => rows,
            Err(interruption) => return Err(interruption),
        };
        let columns: u16 = match self.read_u16(3) {
            Ok(columns) => columns,
            Err(interruption) => return Err(interruption),
        };
        assert(rest.take(2) =~= self@.subrange(1, 3));
        assert(rest.subrange(2, 4) =~= self@.subrange(3, 5));
        self.reader.skip(5);
        Ok(TerminalSize::new(rows, columns))
    }
}

/// Writes requests for a connection to send.
#[derive(Debug, Clone, PartialEq, Eq)]
pub struct SocketRequestWriter {
    writer: Vec<u8>,
}

impl View for SocketRequestWriter {
    type V = Seq<u8>;

    /// The bytes that have been written.
    closed spec fn view(&self) -> Seq<u8> {
        self.writer@
    }
}

impl SocketRequestWriter {
    /// Writes behind the bytes that are there.
    pub fn new(writer: Vec<u8>) -> (requests: Self)
        ensures
            requests@ == writer@,
    {
        SocketRequestWriter { writer }
    }

    pub fn into_bytes(self) -> (bytes: Vec<u8>)
        ensures
            bytes@ == self@,
    {
        self.writer
    }

    pub fn write_capture_request(&mut self)
        ensures
            final(self)@ == old(self)@ + request_bytes(WireRequest::Capture),
    {
        self.write_tag(CAPTURE_REQUEST);
    }

    pub fn write_subscription_request(&mut self)
        ensures
            final(self)@ == old(self)@ + request_bytes(WireRequest::SubscribeFromBeginning),
    {
        self.write_tag(SUBSCRIBE_REQUEST);
    }

    pub fn write_attach_request(&mut self)
        ensures
            final(self)@ == old(self)@ + request_bytes(WireRequest::Attach),
    {
        self.write_tag(ATTACH_REQUEST);
    }

    pub fn write_programmatic_input(&mut self, bytes: &[u8])
        ensures
            final(self)@ == old(self)@ + request_bytes(
                WireRequest::Input { bytes: bytes@, source: InputSource::Programmatic },
            ),
    {
        self.write_tag(PROGRAMMATIC_INPUT_REQUEST);
        self.write_frame(bytes);
        assert(self@ =~= old(self)@ + (seq![PROGRAMMATIC_INPUT_REQUEST] + frame(bytes@)));
    }

    pub fn write_viewer_input(&mut self, bytes: &[u8])
        ensures
            final(self)@ == old(self)@ + request_bytes(
                WireRequest::Input { bytes: bytes@, source: InputSource::Viewer },
            ),
    {
        self.write_tag(VIEWER_INPUT_REQUEST);
        self.write_frame(bytes);
        assert(self@ =~= old(self)@ + (seq![VIEWER_INPUT_REQUEST] + frame(bytes@)));
    }

    pub fn write_close_human_input_request(&mut self)
        ensures
            final(self)@ == old(self)@ + request_bytes(WireRequest::CloseHumanInput),
    {
        self.write_tag(CLOSE_HUMAN_INPUT_REQUEST);
    }

    pub fn write_open_human_input_request(&mut self, lease: TerminalInputGateLease)
        ensures
            final(self)@ == old(self)@ + request_bytes(WireRequest::OpenHumanInput(lease)),
    {
        self.write_tag(OPEN_HUMAN_INPUT_REQUEST);
        self.write_u64(lease.sequence().into_u64());
        assert(self@ =~= old(self)@ + request_bytes(WireRequest::OpenHumanInput(lease)));
    }

    pub fn write_resize_request(&mut self, size: TerminalSize)
        ensures
            final(self)@ == old(self)@ + request_bytes(WireRequest::Resize(size)),
    {
        self.write_tag(RESIZE_REQUEST);
        self.write_u16(size.rows());
        self.write_u16(size.columns());
        assert(self@ =~= old(self)@ + request_bytes(WireRequest::Resize(size)));
    }

    pub fn write_wait_request(&mut self, bytes: &[u8])
        ensures
            final(self)@ == old(self)@ + request_bytes(WireRequest::Wait(bytes@)),
    {
        self.write_tag(WAIT_REQUEST);
        self.write_frame(bytes);
        assert(self@ =~= old(self)@ + (seq![WAIT_REQUEST] + frame(bytes@)));
    }

    pub fn write_wait_exit_request(&mut self)
        ensures
            final(self)@ == old(self)@ + request_bytes(WireRequest::WaitExit),
    {
        self.write_tag(WAIT_EXIT_REQUEST);
    }

    pub fn write_worker_observation_request(&mut self)
        ensures
            final(self)@ == old(self)@ + request_bytes(WireRequest::WorkerObservation),
    {
        self.write_tag(WORKER_OBSERVATION_REQUEST);
    }

    /// Writes the archive of a query, or reports why there is none.
    pub fn write_signal_request(&mut self, archive: Result<Vec<u8>, String>) -> (written: Result<
        (),
        ConnectionError,
    >)
        ensures
            match archive {
                Ok(bytes) => {
                    &&& written is Ok
                    &&& final(self)@ == old(self)@ + request_bytes(WireRequest::Archive(bytes@))
                },
                Err(complaint) => {
                    &&& written matches Err(error) && error@ == failure(
                        ErrorKind::InvalidData,
                        "signal query archive failed: "@ + complaint@,
                    )
                    &&& final(self)@ == old(self)@
                },
            },
    {
        match archive {
            Ok(bytes) => {
                push_big_endian(&mut self.writer, bytes.len() as u64, 4);
                self.writer.extend_from_slice(bytes.as_slice());
                assert(self@ =~= old(self)@ + signal_frame(bytes@));
                Ok(())
            },
            Err(complaint) => Err(
                ConnectionError::new(
                    ErrorKind::InvalidData,
                    joined("signal query archive failed: ", complaint.as_str()),
                ),
            ),
        }
    }

    fn write_tag(&mut self, tag: u8)
        ensures
            final(self)@ == old(self)@ + seq![tag],
    {
        self.writer.push(tag);
        assert(self@ =~= old(self)@ + seq![tag]);
    }

    fn write_frame(&mut self, bytes: &[u8])
        ensures
            final(self)@ == old(self)@ + frame(bytes@),
    {
        self.write_u64(bytes.len() as u64);
        self.writer.extend_from_slice(bytes);
        assert(self@ =~= old(self)@ + frame(bytes@));
    }

    fn write_u64(&mut self, value: u64)
        ensures
            final(self)@ == old(self)@ + be_bytes(value as nat, 8),
    {
        push_big_endian(&mut self.writer, value, 8);
    }

    fn write_u16(&mut self, value: u16)
        ensures
            final(self)@ == old(self)@ + be_bytes(value as nat, 2),
    {
        push_big_endian(&mut self.writer, value as u64, 2);
    }
}

} // verus!
