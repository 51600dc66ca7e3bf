//! The client of a terminal cell. Every verb goes to the control socket but
//! attach, which goes to the data socket. A verb is called again and again with
//! the same exchange: each call names the next piece of work for the transport,
//! until the verb is done.
use std::path::PathBuf;
use vstd::prelude::*;
use vstd::string::*;
use vstd::utf8::*;
use crate::cursor::{payload_outcome, FrameKind, Outcome, ReadInterruption};
use crate::failure::{failure, ConnectionError, ErrorKind, Failure};
use crate::reply::{
    attach_outcome, gate_lease_outcome, gate_release_outcome, tag_outcome, text_outcome,
    SocketReplyReader, ACCEPTANCE_REPLY, WAIT_SATISFIED_REPLY,
};
use crate::request::{request_bytes, SocketRequestWriter, WireRequest};
use crate::terminal::{
    InputSource, TerminalInputGateLease, TerminalInputGateRelease, TerminalSize,
};
use crate::text::{joined, utf8_complaint, utf8_text};

verus! {

/// `std::path::PathBuf`. A path is carried to whoever connects, and not looked
/// into.
#[verifier::external_type_specification]
#[verifier::external_body]
pub struct ExPathBuf(std::path::PathBuf);

/// `PathBuf::clone`. The contract claims that the copy is the same path.
pub assume_specification[ <std::path::PathBuf as Clone>::clone ](
    path: &std::path::PathBuf,
) -> (copy: std::path::PathBuf)
    ensures
        copy == *path,
;

/// How far an exchange has come.
#[derive(Debug, Clone, Copy, PartialEq, Eq, Structural)]
pub enum ExchangePhase {
    Unconnected,
    Connected,
    Sent,
    /// The daemon has ended the connection.
    Ended,
}

/// One request and its reply.
#[derive(Debug, PartialEq, Eq)]
pub struct SocketExchange {
    phase: ExchangePhase,
    replies: SocketReplyReader,
}

/// An exchange, as contracts speak of it.
pub ghost struct Exchange {
    pub phase: ExchangePhase,
    /// The bytes of the reply that have been received and not consumed.
    pub received: Seq<u8>,
}

impl View for SocketExchange {
    type V = Exchange;

    closed spec fn view(&self) -> Exchange {
        Exchange { phase: self.phase, received: self.replies@ }
    }
}

impl SocketExchange {
    pub fn new() -> (exchange: Self)
        ensures
            exchange@ == (Exchange { phase: ExchangePhase::Unconnected, received: Seq::empty() }),
    {
        SocketExchange {
            phase: ExchangePhase::Unconnected,
            replies: SocketReplyReader::new(Vec::new()),
        }
    }

    /// Adds bytes of the reply.
    pub fn receive(&mut self, bytes: &[u8])
        ensures
            final(self)@.phase == old(self)@.phase,
            final(self)@.received == old(self)@.received + bytes@,
    {
        self.replies.receive(bytes);
    }

    /// Takes notice that the daemon has ended the connection. A reply that is not
    /// complete never will be.
    pub fn end(&mut self)
        ensures
            final(self)@ == (Exchange {
                phase: if old(self)@.phase == ExchangePhase::Sent {
                    ExchangePhase::Ended
                } else {
                    old(self)@.phase
                },
                ..old(self)@
            }),
    {
        match self.phase {
            ExchangePhase::Sent => {
                self.phase = ExchangePhase::Ended;
            },
            _ => {},
        }
    }
}

/// What a client does next.
#[derive(Debug, PartialEq, Eq)]
pub enum ClientStep<'a, T> {
    /// Connect to a socket.
    Connect(&'a PathBuf),
    /// Write a request to the connection, and flush it.
    Send(Vec<u8>),
    /// Read so many bytes from the connection, and hand them to the exchange.
    Receive(usize),
    /// Return.
    Done(Result<T, ConnectionError>),
}

/// Whether a step fails.
pub open spec fn gives_failure<T>(step: ClientStep<T>, failure: Failure) -> bool {
    step matches ClientStep::Done(Err(error)) && error@ == failure
}

/// Whether a step is the first one of an exchange with a socket.
pub open spec fn connects<T>(
    step: ClientStep<T>,
    socket: PathBuf,
    before: Exchange,
    after: Exchange,
) -> bool {
    &&& step matches ClientStep::Connect(path)
    &&& *path == socket
    &&& after == (Exchange { phase: ExchangePhase::Connected, ..before })
}

/// Whether a step sends a request.
pub open spec fn sends<T>(
    step: ClientStep<T>,
    request: WireRequest,
    before: Exchange,
    after: Exchange,
) -> bool {
    &&& step matches ClientStep::Send(bytes)
    &&& bytes@ == request_bytes(request)
    &&& after == (Exchange { phase: ExchangePhase::Sent, ..before })
}

/// The failure of a verb whose reply was cut off.
pub open spec fn cut_off() -> Failure {
    failure(ErrorKind::UnexpectedEof, "failed to fill whole buffer"@)
}

/// Whether a step goes on from what has been received of a reply, which amounts
/// to an outcome. Missing bytes are waited for as long as the connection lasts.
pub open spec fn concludes<T: View>(
    step: ClientStep<T>,
    outcome: Outcome<T::V>,
    before: Exchange,
    after: Exchange,
) -> bool {
    &&& after.phase == before.phase
    &&& match outcome {
        Outcome::Complete { value, consumed } => {
            &&& step matches ClientStep::Done(Ok(read))
            &&& read@ == value
            &&& after.received == before.received.skip(consumed as int)
        },
        Outcome::Refused { failure, consumed } => {
            &&& gives_failure(step, failure)
            &&& after.received == before.received.skip(consumed as int)
        },
        Outcome::Short { missing } => {
            &&& if before.phase == ExchangePhase::Ended {
                gives_failure(step, cut_off())
            } else {
                step matches ClientStep::Receive(count) && count == missing
            }
            &&& after.received == before.received
        },
    }
}

/// Whether a step belongs to an exchange: the socket is connected to, the request
/// is sent, and the reply is read, in this order.
pub open spec fn exchanges<T: View>(
    step: ClientStep<T>,
    socket: PathBuf,
    request: WireRequest,
    outcome: Outcome<T::V>,
    before: Exchange,
    after: Exchange,
) -> bool {
    match before.phase {
        ExchangePhase::Unconnected => connects(step, socket, before, after),
        ExchangePhase::Connected => sends(step, request, before, after),
        ExchangePhase::Sent | ExchangePhase::Ended => concludes(step, outcome, before, after),
    }
}

/// The text on the terminal's workers.
pub open spec fn observation_outcome(bytes: Seq<u8>) -> Outcome<Seq<char>> {
    match payload_outcome(bytes, FrameKind::Reply) {
        Outcome::Complete { value, consumed } => if valid_utf8(value) {
            Outcome::Complete { value: decode_utf8(value), consumed }
        } else {
            Outcome::Refused {
                failure: failure(
                    ErrorKind::InvalidData,
                    "worker observation was not utf-8: "@ + utf8_complaint(value),
                ),
                consumed,
            }
        },
        Outcome::Refused { failure, consumed } => Outcome::Refused { failure, consumed },
        Outcome::Short { missing } => Outcome::Short { missing },
    }
}

/// What a client without a data socket says to an attach.
pub open spec fn missing_data_socket() -> Failure {
    failure(
        ErrorKind::Unsupported,
        "terminal-cell client has no data-socket path; construct with TerminalCellSocketClient::new for the attach plane"@,
    )
}

/// The work for the transport up to the reply.
fn reach<'a, T>(
    socket: &'a PathBuf,
    request: SocketRequestWriter,
    exchange: &mut SocketExchange,
) -> (step: Option<ClientStep<'a, T>>)
    ensures
        match old(exchange)@.phase {
            ExchangePhase::Unconnected => step matches Some(step) && connects(
                step,
                *socket,
                old(exchange)@,
                final(exchange)@,
            ),
            ExchangePhase::Connected => step matches Some(ClientStep::Send(bytes)) && bytes@
                == request@ && final(exchange)@ == (Exchange {
                phase: ExchangePhase::Sent,
                ..old(exchange)@
            }),
            ExchangePhase::Sent | ExchangePhase::Ended => step is None && final(exchange)@ == old(
                exchange,
            )@,
        },
{
    match exchange.phase {
        ExchangePhase::Unconnected => {
            exchange.phase = ExchangePhase::Connected;
            Some(ClientStep::Connect(socket))
        },
        ExchangePhase::Connected => {
            exchange.phase = ExchangePhase::Sent;
            Some(ClientStep::Send(request.into_bytes()))
        },
        ExchangePhase::Sent | ExchangePhase::Ended => None,
    }
}

/// The step behind a read of the reply.
fn conclude<'a, T>(read: Result<T, ReadInterruption>, phase: ExchangePhase) -> (step: ClientStep<
    'a,
    T,
>)
    ensures
        match read {
            Ok(value) => step == ClientStep::Done(Ok(value)),
            Err(ReadInterruption::NeedBytes(count)) => if phase == ExchangePhase::Ended {
                gives_failure(step, cut_off())
            } else {
                step == ClientStep::<T>::Receive(count)
            },
            Err(ReadInterruption::Failed(error)) => step == ClientStep::<T>::Done(Err(error)),
        },
{
    match read {
        Ok(value) => ClientStep::Done(Ok(value)),
        Err(ReadInterruption::NeedBytes(count)) => match phase {
            ExchangePhase::Ended => ClientStep::Done(
                Err(
                    ConnectionError::new(
                        ErrorKind::UnexpectedEof,
                        "failed to fill whole buffer".to_owned(),
                    ),
                ),
            ),
            _ => ClientStep::Receive(count),
        },
        Err(ReadInterruption::Failed(error)) => ClientStep::Done(Err(error)),
    }
}

/// A client of the control socket, and of the data socket where it has one.
#[derive(Debug, PartialEq, Eq)]
pub struct TerminalCellSocketClient {
    control_socket: PathBuf,
    data_socket: Option<PathBuf>,
}

impl Clone for TerminalCellSocketClient {
    fn clone(&self) -> (copy: Self)
        ensures
            copy.control_path() == self.control_path(),
            copy.data_path() == self.data_path(),
    {
        TerminalCellSocketClient {
            control_socket: self.control_socket.clone(),
            data_socket: match &self.data_socket {
                Some(path) => Some(path.clone()),
                None => None,
            },
        }
    }
}

impl TerminalCellSocketClient {
    pub closed spec fn control_path(&self) -> PathBuf {
        self.control_socket
    }

    pub closed spec fn data_path(&self) -> Option<PathBuf> {
        self.data_socket
    }

    /// A client of both sockets.
    pub fn new(control_socket: PathBuf, data_socket: PathBuf) -> (client: Self)
        ensures
            client.control_path() == control_socket,
            client.data_path() == Some(data_socket),
    {
        TerminalCellSocketClient { control_socket, data_socket: Some(data_socket) }
    }

    /// A client that never attaches.
    pub fn for_control_only(control_socket: PathBuf) -> (client: Self)
        ensures
            client.control_path() == control_socket,
            client.data_path() is None,
    {
        TerminalCellSocketClient { control_socket, data_socket: None }
    }

    pub fn control_socket(&self) -> (path: &PathBuf)
        ensures
            *path == self.control_path(),
    {
        &self.control_socket
    }

    pub fn data_socket(&self) -> (path: Option<&PathBuf>)
        ensures
            match path {
                Some(path) => self.data_path() == Some(*path),
                None => self.data_path() is None,
            },
    {
        match &self.data_socket {
            Some(path) => Some(path),
            None => None,
        }
    }

    /// The transcript so far.
    pub fn capture(&self, exchange: &mut SocketExchange) -> (step: ClientStep<'_, Vec<u8>>)
        ensures
            exchanges(
                step,
                self.control_path(),
                WireRequest::Capture,
                payload_outcome(old(exchange)@.received, FrameKind::Reply),
                old(exchange)@,
                final(exchange)@,
            ),
    {
        let mut request = SocketRequestWriter::new(Vec::new());
        request.write_capture_request();
        assert(request@ =~= request_bytes(WireRequest::Capture));
        match reach(&self.control_socket, request, exchange) {
            Some(step) => step,
            None => conclude(exchange.replies.read_snapshot(), exchange.phase),
        }
    }

    /// Input that passes a closed input gate.
    pub fn send_programmatic_input(
        &self,
        bytes: &[u8],
        exchange: &mut SocketExchange,
    ) -> (step: ClientStep<'_, ()>)
        ensures
            exchanges(
                step,
                self.control_path(),
                WireRequest::Input { bytes: bytes@, source: InputSource::Programmatic },
                tag_outcome(old(exchange)@.received, ACCEPTANCE_REPLY),
                old(exchange)@,
                final(exchange)@,
            ),
    {
        let mut request = SocketRequestWriter::new(Vec::new());
        request.write_programmatic_input(bytes);
        assert(request@ =~= request_bytes(
            WireRequest::Input { bytes: bytes@, source: InputSource::Programmatic },
        ));
        match reach(&self.control_socket, request, exchange) {
            Some(step) => step,
            None => conclude(exchange.replies.read_acceptance(), exchange.phase),
        }
    }

    /// Input that a closed input gate holds back.
    pub fn send_viewer_input(
        &self,
        bytes: &[u8],
        exchange: &mut SocketExchange,
    ) -> (step: ClientStep<'_, ()>)
        ensures
            exchanges(
                step,
                self.control_path(),
                WireRequest::Input { bytes: bytes@, source: InputSource::Viewer },
                tag_outcome(old(exchange)@.received, ACCEPTANCE_REPLY),
                old(exchange)@,
                final(exchange)@,
            ),
    {
        let mut request = SocketRequestWriter::new(Vec::new());
        request.write_viewer_input(bytes);
        assert(request@ =~= request_bytes(
            WireRequest::Input { bytes: bytes@, source: InputSource::Viewer },
        ));
        match reach(&self.control_socket, request, exchange) {
            Some(step) => step,
            None => conclude(exchange.replies.read_acceptance(), exchange.phase),
        }
    }

    /// Attaches to the data socket. Once this is done the connection carries raw
    /// bytes, and none of them have been read.
    pub fn open_attach_stream(&self, exchange: &mut SocketExchange) -> (step: ClientStep<'_, ()>)
        ensures
            match self.data_path() {
                Some(data_socket) => exchanges(
                    step,
                    data_socket,
                    WireRequest::Attach,
                    attach_outcome(old(exchange)@.received),
                    old(exchange)@,
                    final(exchange)@,
                ),
                None => gives_failure(step, missing_data_socket()) && final(exchange)@ == old(
                    exchange,
                )@,
            },
    {
        let data_socket = match &self.data_socket {
            Some(data_socket) => data_socket,
            None => return ClientStep::Done(
                Err(
                    ConnectionError::new(
                        ErrorKind::Unsupported,
                        "terminal-cell client has no data-socket path; construct with TerminalCellSocketClient::new for the attach plane".to_owned(),
                    ),
                ),
            ),
        };
        let mut request = SocketRequestWriter::new(Vec::new());
        request.write_attach_request();
        assert(request@ =~= request_bytes(WireRequest::Attach));
        match reach(data_socket, request, exchange) {
            Some(step) => step,
            None => conclude(exchange.replies.read_attach_acceptance(), exchange.phase),
        }
    }

    /// Closes the input gate to viewers.
    pub fn close_human_input(&self, exchange: &mut SocketExchange) -> (step: ClientStep<
        '_,
        TerminalInputGateLease,
    >)
        ensures
            exchanges(
                step,
                self.control_path(),
                WireRequest::CloseHumanInput,
                gate_lease_outcome(old(exchange)@.received),
                old(exchange)@,
                final(exchange)@,
            ),
    {
        let mut request = SocketRequestWriter::new(Vec::new());
        request.write_close_human_input_request();
        assert(request@ =~= request_bytes(WireRequest::CloseHumanInput));
        match reach(&self.control_socket, request, exchange) {
            Some(step) => step,
            None => conclude(exchange.replies.read_gate_lease(), exchange.phase),
        }
    }

    /// Opens the input gate, under the lease that it was closed with.
    pub fn open_human_input(
        &self,
        lease: TerminalInputGateLease,
        exchange: &mut SocketExchange,
    ) -> (step: ClientStep<'_, TerminalInputGateRelease>)
        ensures
            exchanges(
                step,
                self.control_path(),
                WireRequest::OpenHumanInput(lease),
                gate_release_outcome(old(exchange)@.received),
                old(exchange)@,
                final(exchange)@,
            ),
    {
        let mut request = SocketRequestWriter::new(Vec::new());
        request.write_open_human_input_request(lease);
        assert(request@ =~= request_bytes(WireRequest::OpenHumanInput(lease)));
        match reach(&self.control_socket, request, exchange) {
            Some(step) => step,
            None => conclude(exchange.replies.read_gate_release(), exchange.phase),
        }
    }

    pub fn resize(
        &self,
        size: TerminalSize,
        exchange: &mut SocketExchange,
    ) -> (step: ClientStep<'_, ()>)
        ensures
            exchanges(
                step,
                self.control_path(),
                WireRequest::Resize(size),
                tag_outcome(old(exchange)@.received, ACCEPTANCE_REPLY),
                old(exchange)@,
                final(exchange)@,
            ),
    {
        let mut request = SocketRequestWriter::new(Vec::new());
        request.write_resize_request(size);
        assert(request@ =~= request_bytes(WireRequest::Resize(size)));
        match reach(&self.control_socket, request, exchange) {
            Some(step) => step,
            None => conclude(exchange.replies.read_acceptance(), exchange.phase),
        }
    }

    /// Waits until the transcript holds some bytes.
    pub fn wait_for_transcript(
        &self,
        bytes: &[u8],
        exchange: &mut SocketExchange,
    ) -> (step: ClientStep<'_, ()>)
        ensures
            exchanges(
                step,
                self.control_path(),
                WireRequest::Wait(bytes@),
                tag_outcome(old(exchange)@.received, WAIT_SATISFIED_REPLY),
                old(exchange)@,
                final(exchange)@,
            ),
    {
        let mut request = SocketRequestWriter::new(Vec::new());
        request.write_wait_request(bytes);
        assert(request@ =~= request_bytes(WireRequest::Wait(bytes@)));
        match reach(&self.control_socket, request, exchange) {
            Some(step) => step,
            None => conclude(exchange.replies.read_wait_satisfied(), exchange.phase),
        }
    }

    /// Waits for the terminal's process, and gives the status that it exited with.
    pub fn wait_for_terminal_exit(&self, exchange: &mut SocketExchange) -> (step: ClientStep<
        '_,
        String,
    >)
        ensures
            exchanges(
                step,
                self.control_path(),
                WireRequest::WaitExit,
                text_outcome(old(exchange)@.received),
                old(exchange)@,
                final(exchange)@,
            ),
    {
        let mut request = SocketRequestWriter::new(Vec::new());
        request.write_wait_exit_request();
        assert(request@ =~= request_bytes(WireRequest::WaitExit));
        match reach(&self.control_socket, request, exchange) {
            Some(step) => step,
            None => conclude(exchange.replies.read_exit_status(), exchange.phase),
        }
    }

    pub fn worker_observation_text(&self, exchange: &mut SocketExchange) -> (step: ClientStep<
        '_,
        String,
    >)
        ensures
            exchanges(
                step,
                self.control_path(),
                WireRequest::WorkerObservation,
                observation_outcome(old(exchange)@.received),
                old(exchange)@,
                final(exchange)@,
            ),
    {
        let mut request = SocketRequestWriter::new(Vec::new());
        request.write_worker_observation_request();
        assert(request@ =~= request_bytes(WireRequest::WorkerObservation));
        match reach(&self.control_socket, request, exchange) {
            Some(step) => step,
            None => match exchange.replies.read_snapshot() {
                Ok(bytes) => match utf8_text(bytes) {
                    Ok(text) => ClientStep::Done(Ok(text)),
                    Err(complaint) => ClientStep::Done(
                        Err(
                            ConnectionError::new(
                                ErrorKind::InvalidData,
                                joined("worker observation was not utf-8: ", complaint.as_str()),
                            ),
                        ),
                    ),
                },
                Err(interruption) => conclude(Err(interruption), exchange.phase),
            },
        }
    }

    /// Sends the archive of a query, and gives the archive of the response. A query
    /// without an archive fails once the control socket is connected to.
    pub fn send_signal_request(
        &self,
        archive: &Result<Vec<u8>, String>,
        exchange: &mut SocketExchange,
    ) -> (step: ClientStep<'_, Vec<u8>>)
        ensures
            match *archive {
                Ok(bytes) => exchanges(
                    step,
                    self.control_path(),
                    WireRequest::Archive(bytes@),
                    payload_outcome(old(exchange)@.received, FrameKind::Signal),
                    old(exchange)@,
                    final(exchange)@,
                ),
                Err(complaint) => if old(exchange)@.phase == ExchangePhase::Unconnected {
                    connects(step, self.control_path(), old(exchange)@, final(exchange)@)
                } else {
                    &&& gives_failure(
                        step,
                        failure(
                            ErrorKind::InvalidData,
                            "signal query archive failed: "@ + complaint@,
                        ),
                    )
                    &&& final(exchange)@ == old(exchange)@
                },
            },
    {
        let copy = match archive {
            Ok(bytes) => {
                let copy = bytes.clone();
                assert(copy@ =~= bytes@);
                Ok(copy)
            },
            Err(complaint) => Err(complaint.clone()),
        };
        let mut request = SocketRequestWriter::new(Vec::new());
        match request.write_signal_request(copy) {
            Ok(()) => {
                assert(request@ =~= request_bytes(WireRequest::Archive(archive->Ok_0@)));
                match reach(&self.control_socket, request, exchange) {
                    Some(step) => step,
                    None => conclude(exchange.replies.read_signal_event(), exchange.phase),
                }
            },
            Err(error) => match exchange.phase {
                ExchangePhase::Unconnected => {
                    exchange.phase = ExchangePhase::Connected;
                    ClientStep::Connect(&self.control_socket)
                },
                _ => ClientStep::Done(Err(error)),
            },
        }
    }

    /// Subscribes to the transcript from its beginning. Once this is done the
    /// connection carries the transcript, and no byte of it has been read.
    pub fn subscribe_from_beginning(&self, exchange: &mut SocketExchange) -> (step: ClientStep<
        '_,
        (),
    >)
        ensures
            exchanges(
                step,
                self.control_path(),
                WireRequest::SubscribeFromBeginning,
                Outcome::Complete { value: (), consumed: 0 },
                old(exchange)@,
                final(exchange)@,
            ),
    {
        let mut request = SocketRequestWriter::new(Vec::new());
        request.write_subscription_request();
        assert(request@ =~= request_bytes(WireRequest::SubscribeFromBeginning));
        match reach(&self.control_socket, request, exchange) {
            Some(step) => step,
            None => {
                assert(exchange@.received.skip(0) =~= exchange@.received);
                ClientStep::Done(Ok(()))
            },
        }
    }
}

} // verus!
