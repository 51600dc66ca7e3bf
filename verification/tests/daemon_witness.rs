//! The daemon as its clients see it, on sockets and a terminal that are held in
//! memory.

use std::path::PathBuf;

use terminal_cell::signal as terminal_signal;
use terminal_cell::{
    ClientStep, Configuration, ConnectionError, ControlStep, DataStep, ErrorKind, InputSource,
    ReadInterruption, ReceivedRequest, SocketExchange, SocketReplyReader, SocketRequest,
    SocketRequestReader, SocketRequestWriter, TerminalCellEngine, TerminalCellError,
    TerminalCellProcessDaemon, TerminalCellSocketClient, TerminalControlConnection,
    TerminalDataConnection, TerminalFailure, TerminalInput, TerminalInputGateLease,
    TerminalInputGateRelease, TerminalInputGateSequence, TerminalSignalControlState, TerminalSize,
    TerminalViewerLease, TerminalWorkerKind, TerminalWorkerLifecycle, TranscriptSnapshot,
};

fn signal_bytes(bytes: &[u8]) -> Vec<i64> {
    bytes.iter().map(|byte| i64::from(*byte)).collect()
}

fn signal_terminal(name: &str) -> String {
    name.to_string()
}

fn signal_regex_pattern(bytes: &[u8]) -> terminal_signal::PromptPattern {
    terminal_signal::PromptPattern::RegexSuffix(signal_bytes(bytes))
}

fn signal_input_bytes(bytes: &[u8]) -> Vec<i64> {
    signal_bytes(bytes)
}

fn signal_cached_human_byte_count(bytes: &i64) -> u64 {
    *bytes as u64
}

/// The process behind the terminal.
#[derive(Debug, Clone, Copy, PartialEq, Eq)]
enum Program {
    Agent,
    EchoLines,
    DirtyPrompt,
    ShowSize,
    Exits,
}

struct Terminal {
    program: Program,
    lines_read: usize,
    line: Vec<u8>,
    transcript: Vec<u8>,
    sequence: u64,
    size: TerminalSize,
    exit: Option<String>,
    gates: u64,
    closed_under: Option<TerminalInputGateLease>,
    held: Vec<u8>,
    inputs: Vec<TerminalInput>,
    viewers: u64,
    viewer: Option<TerminalViewerLease>,
    detached: Vec<TerminalViewerLease>,
    lifecycles: Vec<TerminalWorkerLifecycle>,
}

impl Terminal {
    fn launch(program: Program, size: TerminalSize) -> Self {
        let mut terminal = Self {
            program,
            lines_read: 0,
            line: Vec::new(),
            transcript: Vec::new(),
            sequence: 0,
            size,
            exit: None,
            gates: 0,
            closed_under: None,
            held: Vec::new(),
            inputs: Vec::new(),
            viewers: 0,
            viewer: None,
            detached: Vec::new(),
            lifecycles: vec![
                TerminalWorkerLifecycle::Started(TerminalWorkerKind::InputWriter),
                TerminalWorkerLifecycle::Started(TerminalWorkerKind::OutputReader),
            ],
        };
        match program {
            Program::Agent => terminal.print("agent-ready\r\n"),
            Program::EchoLines => {}
            Program::DirtyPrompt => terminal.print("ready> dirty"),
            Program::ShowSize => terminal.print_size(),
            Program::Exits => {
                terminal.print("done-exiting\r\n");
                terminal.exit = Some("exit code 7".to_string());
            }
        }
        terminal
    }

    fn print(&mut self, text: &str) {
        self.transcript.extend_from_slice(text.as_bytes());
        self.sequence += 1;
    }

    fn print_size(&mut self) {
        let line = format!("{} {}\r\n", self.size.rows(), self.size.columns());
        self.print(&line);
    }

    fn type_bytes(&mut self, bytes: &[u8]) {
        for byte in bytes {
            if *byte == b'\r' {
                let line = String::from_utf8(std::mem::take(&mut self.line)).expect("line is text");
                self.answer(&line);
            } else {
                self.line.push(*byte);
            }
        }
    }

    fn answer(&mut self, line: &str) {
        self.lines_read += 1;
        let answer = match (self.program, self.lines_read) {
            (Program::Agent, _) if line == "/usage" => {
                "usage-window: five-hour=73 weekly=41\r\n".to_string()
            }
            (Program::Agent, _) => format!("agent-response: {line}\r\n"),
            (Program::EchoLines, 1) => format!("first:{line}\r\n"),
            (Program::EchoLines, _) => format!("second:{line}\r\n"),
            (Program::DirtyPrompt, _) => format!("seen:{line}\r\n"),
            (Program::ShowSize, _) => {
                self.print_size();
                String::new()
            }
            (Program::Exits, _) => String::new(),
        };
        if !answer.is_empty() {
            self.print(&answer);
        }
    }

    fn accept(&mut self, input: &TerminalInput) -> Result<(), TerminalFailure> {
        self.inputs.push(input.clone());
        if input.source == InputSource::Viewer && self.closed_under.is_some() {
            self.held.extend_from_slice(&input.bytes);
        } else {
            self.type_bytes(&input.bytes);
        }
        Ok(())
    }

    fn close_human_input(&mut self) -> Result<TerminalInputGateLease, TerminalFailure> {
        if let Some(lease) = self.closed_under {
            return Err(TerminalFailure {
                error: TerminalCellError::InputGateAlreadyClosed(lease),
                text: "terminal input gate is already closed".to_string(),
            });
        }
        self.gates += 1;
        let lease = TerminalInputGateLease::new(TerminalInputGateSequence::new(self.gates));
        self.closed_under = Some(lease);
        Ok(lease)
    }

    fn open_human_input(
        &mut self,
        lease: TerminalInputGateLease,
    ) -> Result<TerminalInputGateRelease, TerminalFailure> {
        if self.closed_under != Some(lease) {
            return Err(TerminalFailure {
                error: TerminalCellError::StaleInputGateLease,
                text: "terminal input gate lease is stale".to_string(),
            });
        }
        self.closed_under = None;
        let held = std::mem::take(&mut self.held);
        self.type_bytes(&held);
        Ok(TerminalInputGateRelease::new(lease, held.len()))
    }

    fn snapshot(&self) -> TranscriptSnapshot {
        TranscriptSnapshot {
            bytes: self.transcript.clone(),
            last_sequence: self.sequence,
        }
    }

    fn contains(&self, text: &[u8]) -> bool {
        self.transcript
            .windows(text.len())
            .any(|window| window == text)
    }

    fn reserve_viewer(&mut self) -> Result<TerminalViewerLease, TerminalFailure> {
        if self.viewer.is_some() {
            return Err(TerminalFailure {
                error: TerminalCellError::ViewerAlreadyAttached,
                text: "terminal viewer is already attached".to_string(),
            });
        }
        self.viewers += 1;
        let lease = TerminalViewerLease { value: self.viewers };
        self.viewer = Some(lease);
        Ok(lease)
    }
}

/// Archives that stand for the values they were made from.
#[derive(Default)]
struct Archives {
    queries: Vec<terminal_signal::Query>,
    responses: Vec<terminal_signal::Response>,
}

impl Archives {
    fn archive_query(&mut self, query: terminal_signal::Query) -> Vec<u8> {
        self.queries.push(query);
        format!("query-{}", self.queries.len() - 1).into_bytes()
    }

    fn restore_query(&self, bytes: &[u8]) -> Result<terminal_signal::Query, String> {
        (0..self.queries.len())
            .find(|at| format!("query-{at}").as_bytes() == bytes)
            .map(|at| self.queries[at].clone())
            .ok_or_else(|| "archive is not a query".to_string())
    }

    fn archive_response(&mut self, response: terminal_signal::Response) -> Vec<u8> {
        self.responses.push(response);
        format!("response-{}", self.responses.len() - 1).into_bytes()
    }

    fn restore_response(&self, bytes: &[u8]) -> Result<terminal_signal::Response, String> {
        (0..self.responses.len())
            .find(|at| format!("response-{at}").as_bytes() == bytes)
            .map(|at| self.responses[at].clone())
            .ok_or_else(|| "archive is not a response".to_string())
    }
}

/// A control connection: what it has written, and how it ended.
struct ControlStream {
    step: Option<ControlStep>,
    output: Vec<u8>,
    deltas_from: usize,
    lifecycles_from: usize,
    result: Option<Result<(), ConnectionError>>,
}

/// A data connection: what it has written, and how it ended.
struct ViewerStream {
    step: Option<DataStep>,
    output: Vec<u8>,
    result: Option<Result<(), ConnectionError>>,
}

struct DaemonFixture {
    engine: TerminalCellEngine<()>,
    terminal: Terminal,
    state: TerminalSignalControlState,
    archives: Archives,
    control_socket: PathBuf,
    data_socket: PathBuf,
}

impl DaemonFixture {
    fn spawn(name: &str) -> Self {
        Self::spawn_program(name, Program::Agent)
    }

    fn spawn_program(name: &str, program: Program) -> Self {
        let control_socket = format!("/run/terminal-cell-{name}/control.sock");
        let data_socket = format!("/run/terminal-cell-{name}/data.sock");
        let configuration = Configuration::new(
            control_socket.clone(),
            data_socket.clone(),
            "agent-terminal-fixture".to_string(),
            Vec::new(),
        );
        let mut engine =
            TerminalCellProcessDaemon::build_runtime(&configuration).expect("engine is built");
        let mut terminal = Terminal::launch(program, engine.launch().size);
        let ready = engine.start(Ok(())).expect("session starts");
        terminal.lifecycles.push(ready.lifecycle);
        assert!(
            ready.line.contains(&control_socket) && ready.line.contains(&data_socket),
            "daemon ready line names both socket paths: {}",
            ready.line
        );
        Self {
            engine,
            terminal,
            state: TerminalSignalControlState::new(),
            archives: Archives::default(),
            control_socket: PathBuf::from(control_socket),
            data_socket: PathBuf::from(data_socket),
        }
    }

    fn client(&self) -> TerminalCellSocketClient {
        TerminalCellSocketClient::new(self.control_socket.clone(), self.data_socket.clone())
    }

    /// The request on a new connection, which reads no byte past it.
    fn read_request(&self, sent: &[u8]) -> Result<SocketRequest, ConnectionError> {
        let mut reader = SocketRequestReader::new(Vec::new());
        let mut taken = 0;
        loop {
            match reader.read_request() {
                Ok(ReceivedRequest::Request(request)) => {
                    assert_eq!(taken, sent.len(), "request is read to its end");
                    return Ok(request);
                }
                Ok(ReceivedRequest::Archive(archive)) => {
                    let query = self.archives.restore_query(archive.bytes());
                    return archive.restored(query);
                }
                Err(ReadInterruption::NeedBytes(count)) => {
                    reader.receive(&sent[taken..taken + count]);
                    taken += count;
                }
                Err(ReadInterruption::Failed(error)) => return Err(error),
            }
        }
    }

    fn open_control(&mut self, sent: &[u8]) -> ControlStream {
        self.engine.session().expect("session has started");
        let step = match self.read_request(sent) {
            Ok(request) => TerminalControlConnection::run(request, &mut self.state),
            Err(error) => ControlStep::Finish(Err(error)),
        };
        let mut stream = ControlStream {
            step: Some(step),
            output: Vec::new(),
            deltas_from: 0,
            lifecycles_from: 0,
            result: None,
        };
        self.advance_control(&mut stream);
        stream
    }

    fn advance_control(&mut self, stream: &mut ControlStream) {
        while let Some(step) = stream.step.take() {
            let next = match step {
                ControlStep::Snapshot(step) => step.resume(Ok(self.terminal.snapshot())),
                ControlStep::Subscribe(step) => {
                    stream.deltas_from = self.terminal.transcript.len();
                    step.resume(Ok(self.terminal.transcript.clone()))
                }
                ControlStep::NextDelta(step) => {
                    let delta = self.terminal.transcript[stream.deltas_from..].to_vec();
                    if delta.is_empty() {
                        stream.step = Some(ControlStep::NextDelta(step));
                        return;
                    }
                    stream.deltas_from += delta.len();
                    step.resume(Some(delta))
                }
                ControlStep::Accept(step) => {
                    let accepted = self.terminal.accept(&step.input);
                    step.resume(accepted)
                }
                ControlStep::CloseGate(step) => {
                    let closed = self.terminal.close_human_input();
                    step.resume(closed, &mut self.state)
                }
                ControlStep::OpenGate(step) => {
                    let opened = self.terminal.open_human_input(step.lease);
                    step.resume(opened, &mut self.state)
                }
                ControlStep::Resize(step) => {
                    self.terminal.size = step.size;
                    step.resume(Ok(()))
                }
                ControlStep::WaitText(step) => {
                    let matched = self.terminal.contains(&step.wait.bytes);
                    step.resume(Ok(matched))
                }
                ControlStep::WaitExit(step) => {
                    let status = self.terminal.exit.clone();
                    step.resume(status.ok_or_else(|| "terminal still runs".to_string()))
                }
                ControlStep::ObserveWorkers(step) => {
                    step.resume(Ok(format!("workers: {}", self.terminal.lifecycles.len())))
                }
                ControlStep::SubscribeLifecycle(step) => {
                    stream.lifecycles_from = self.terminal.lifecycles.len();
                    step.resume(Ok(self.terminal.lifecycles.clone()))
                }
                ControlStep::NextLifecycle(step) => {
                    match self.terminal.lifecycles.get(stream.lifecycles_from) {
                        Some(lifecycle) => {
                            stream.lifecycles_from += 1;
                            step.resume(Some(lifecycle.clone()))
                        }
                        None => {
                            stream.step = Some(ControlStep::NextLifecycle(step));
                            return;
                        }
                    }
                }
                ControlStep::Archive(step) => {
                    let archive = self.archives.archive_response(step.response.clone());
                    step.resume(Ok(archive))
                }
                ControlStep::Reply(step) => {
                    stream.output.extend_from_slice(&step.bytes);
                    step.resume(Ok(()))
                }
                ControlStep::Finish(result) => {
                    stream.result = Some(result);
                    return;
                }
            };
            stream.step = Some(next);
        }
    }

    fn open_data(&mut self, sent: &[u8]) -> ViewerStream {
        self.engine.session().expect("session has started");
        let step = match self.read_request(sent) {
            Ok(request) => TerminalDataConnection::run(request),
            Err(error) => DataStep::Finish(Err(error)),
        };
        let mut stream = ViewerStream {
            step: Some(step),
            output: Vec::new(),
            result: None,
        };
        self.advance_data(&mut stream);
        stream
    }

    fn advance_data(&mut self, stream: &mut ViewerStream) {
        while let Some(step) = stream.step.take() {
            let next = match step {
                DataStep::Reserve(step) => step.resume(self.terminal.reserve_viewer()),
                DataStep::Write(step) => {
                    stream.output.extend_from_slice(&step.bytes);
                    step.resume(Ok(()))
                }
                DataStep::Replay(step) => step.resume(Ok(self.terminal.snapshot())),
                DataStep::Activate(step) => step.resume(Ok(())),
                DataStep::Record(step) => {
                    self.terminal.lifecycles.push(step.lifecycle.clone());
                    step.resume()
                }
                DataStep::Read(step) => {
                    stream.step = Some(DataStep::Read(step));
                    return;
                }
                DataStep::Forward(step) => {
                    let accepted = self.terminal.accept(&step.input);
                    step.resume(accepted)
                }
                DataStep::Detach(step) => {
                    self.terminal.detached.push(step.lease);
                    if self.terminal.viewer == Some(step.lease) {
                        self.terminal.viewer = None;
                    }
                    step.resume()
                }
                DataStep::Finish(result) => {
                    stream.result = Some(result);
                    return;
                }
            };
            stream.step = Some(next);
        }
    }

    /// What a viewer types on an attached connection.
    fn type_on(&mut self, stream: &mut ViewerStream, bytes: &[u8]) {
        match stream.step.take() {
            Some(DataStep::Read(step)) => {
                assert!(bytes.len() <= step.limit);
                stream.step = Some(step.resume(Ok(bytes.to_vec())));
            }
            other => panic!("expected an attached viewer, got {other:?}"),
        }
        self.advance_data(stream);
    }

    fn perform<'a, T>(
        &mut self,
        mut verb: impl FnMut(&mut SocketExchange) -> ClientStep<'a, T>,
    ) -> Result<T, ConnectionError> {
        let mut exchange = SocketExchange::new();
        let mut socket = None;
        let mut reply: Vec<u8> = Vec::new();
        loop {
            match verb(&mut exchange) {
                ClientStep::Connect(path) => socket = Some(path),
                ClientStep::Send(bytes) => {
                    let socket = socket.expect("request is sent behind a connection");
                    reply = if *socket == self.control_socket {
                        self.open_control(&bytes).output
                    } else {
                        assert_eq!(*socket, self.data_socket);
                        self.open_data(&bytes).output
                    };
                }
                ClientStep::Receive(count) if reply.len() < count => exchange.end(),
                ClientStep::Receive(count) => {
                    let rest = reply.split_off(count);
                    exchange.receive(&reply);
                    reply = rest;
                }
                ClientStep::Done(result) => return result,
            }
        }
    }

    fn send_signal_request(
        &mut self,
        query: terminal_signal::Query,
    ) -> Result<terminal_signal::Response, ConnectionError> {
        let client = self.client();
        let archive = Ok(self.archives.archive_query(query));
        let bytes = self.perform(|exchange| client.send_signal_request(&archive, exchange))?;
        SocketReplyReader::restored_signal_event(self.archives.restore_response(&bytes))
    }

    fn close_human_input(&mut self) -> Result<TerminalInputGateLease, ConnectionError> {
        let client = self.client();
        self.perform(|exchange| client.close_human_input(exchange))
    }

    fn open_human_input(
        &mut self,
        lease: TerminalInputGateLease,
    ) -> Result<TerminalInputGateRelease, ConnectionError> {
        let client = self.client();
        self.perform(|exchange| client.open_human_input(lease, exchange))
    }

    fn open_attach_stream(&mut self) -> ViewerStream {
        let mut writer = SocketRequestWriter::new(Vec::new());
        writer.write_attach_request();
        let mut stream = self.open_data(&writer.into_bytes());
        let replay = stream.output.split_off(1);
        SocketReplyReader::new(std::mem::replace(&mut stream.output, replay))
            .read_attach_acceptance()
            .expect("attach stream opened");
        stream
    }

    fn wait_for_text(&mut self, text: &str) {
        let client = TerminalCellSocketClient::for_control_only(self.control_socket.clone());
        self.perform(|exchange| client.wait_for_transcript(text.as_bytes(), exchange))
            .expect("wait command succeeded");
    }

    fn send_line(&mut self, line: &str) {
        let client = TerminalCellSocketClient::for_control_only(self.control_socket.clone());
        let bytes = format!("{line}\r").into_bytes();
        self.perform(|exchange| client.send_programmatic_input(&bytes, exchange))
            .expect("send command succeeded");
    }

    fn resize(&mut self, rows: u16, columns: u16) {
        let client = TerminalCellSocketClient::for_control_only(self.control_socket.clone());
        self.perform(|exchange| client.resize(TerminalSize::new(rows, columns), exchange))
            .expect("resize request accepted");
    }

    fn capture_text(&mut self) -> String {
        let client = TerminalCellSocketClient::for_control_only(self.control_socket.clone());
        let bytes = self
            .perform(|exchange| client.capture(exchange))
            .expect("capture command succeeded");
        String::from_utf8(bytes).expect("transcript is text")
    }
}

#[test]
fn control_socket_rejects_attach_and_data_socket_rejects_non_attach() {
    let mut daemon = DaemonFixture::spawn("plane-isolation");
    daemon.wait_for_text("agent-ready");

    let mut attach = SocketRequestWriter::new(Vec::new());
    attach.write_attach_request();
    let control_attach = daemon.open_control(&attach.into_bytes());
    let control_attach_error = match SocketReplyReader::new(control_attach.output)
        .read_attach_acceptance()
    {
        Err(ReadInterruption::Failed(error)) => error,
        other => panic!("control socket rejects attach: {other:?}"),
    };
    assert_eq!(
        control_attach_error.kind,
        ErrorKind::ConnectionRefused,
        "control socket emits a typed attach rejection"
    );
    assert!(
        control_attach_error.message.contains("control socket"),
        "rejection names the violated plane: {control_attach_error:?}"
    );
    assert_eq!(
        control_attach.result,
        Some(Err(ConnectionError::new(
            ErrorKind::InvalidInput,
            "attach request arrived on terminal-cell control socket".to_string()
        )))
    );

    let mut input = SocketRequestWriter::new(Vec::new());
    input.write_programmatic_input(b"this byte tag must not be honored on the data plane\r");
    let data_input = daemon.open_data(&input.into_bytes());
    let data_input_error =
        match SocketReplyReader::new(data_input.output).read_attach_acceptance() {
            Err(ReadInterruption::Failed(error)) => error,
            other => panic!("data socket rejects non-attach: {other:?}"),
        };
    assert_eq!(
        data_input_error.kind,
        ErrorKind::ConnectionRefused,
        "data socket emits a typed attach rejection"
    );
    assert!(
        data_input_error.message.contains("data socket"),
        "rejection names the violated plane: {data_input_error:?}"
    );
    assert_eq!(
        data_input.result,
        Some(Err(ConnectionError::new(
            ErrorKind::InvalidInput,
            "non-attach request arrived on terminal-cell data socket".to_string()
        )))
    );

    let transcript = daemon.capture_text();
    assert!(
        !transcript.contains("this byte tag must not be honored on the data plane"),
        "violation bytes never reach the child PTY: {transcript}"
    );
}

#[test]
fn daemon_accepts_programmatic_prompt_and_capture_reads_transcript() {
    let mut daemon = DaemonFixture::spawn("capture");

    daemon.wait_for_text("agent-ready");
    daemon.send_line("hello attached daemon");
    daemon.wait_for_text("agent-response: hello attached daemon");
    daemon.send_line("/usage");
    daemon.wait_for_text("usage-window: five-hour=73 weekly=41");

    let transcript = daemon.capture_text();
    assert!(transcript.contains("agent-response: hello attached daemon"));
    assert!(transcript.contains("usage-window: five-hour=73 weekly=41"));
}

#[test]
fn attach_view_replays_transcript_without_owning_the_child() {
    let mut daemon = DaemonFixture::spawn("view");

    daemon.wait_for_text("agent-ready");
    daemon.send_line("hello replayed viewer");
    daemon.wait_for_text("agent-response: hello replayed viewer");

    let mut viewer = daemon.open_attach_stream();
    let replay = String::from_utf8(viewer.output.clone()).expect("replay is text");
    assert!(replay.contains("agent-ready"));
    assert!(replay.contains("agent-response: hello replayed viewer"));

    daemon.type_on(&mut viewer, b"");
    assert_eq!(viewer.result, Some(Ok(())));
    assert_eq!(daemon.terminal.viewer, None);
    assert_eq!(daemon.terminal.exit, None, "the child outlives the viewer");
}

#[test]
fn daemon_exposes_terminal_exit_status() {
    let mut daemon = DaemonFixture::spawn_program("exit", Program::Exits);

    daemon.wait_for_text("done-exiting");

    let client = daemon.client();
    let status = daemon
        .perform(|exchange| client.wait_for_terminal_exit(exchange))
        .expect("exit command succeeded");
    assert!(
        !status.trim().is_empty(),
        "terminal-cell-exit prints the child status"
    );
}

#[test]
fn daemon_resizes_the_owned_pty() {
    let mut daemon = DaemonFixture::spawn_program("resize", Program::ShowSize);

    daemon.wait_for_text("24 80");
    daemon.resize(31, 97);
    daemon.send_line("");
    daemon.wait_for_text("31 97");

    let transcript = daemon.capture_text();
    assert!(transcript.contains("24 80"));
    assert!(transcript.contains("31 97"));
}

#[test]
fn attach_stream_is_raw_bidirectional_byte_path() {
    let mut daemon = DaemonFixture::spawn("attach-stream");

    daemon.wait_for_text("agent-ready");
    let mut stream = daemon.open_attach_stream();
    assert!(
        String::from_utf8_lossy(&stream.output).contains("agent-ready"),
        "attached stream emits transcript replay before live bytes"
    );

    daemon.type_on(&mut stream, b"hello raw attach stream\r");
    daemon.wait_for_text("agent-response: hello raw attach stream");

    let transcript = daemon.capture_text();
    assert!(transcript.contains("agent-response: hello raw attach stream"));
}

#[test]
fn input_gate_serializes_two_harness_lease_attempts() {
    let mut daemon = DaemonFixture::spawn("multi-harness-gate");
    daemon.wait_for_text("agent-ready");

    let first_lease = daemon
        .close_human_input()
        .expect("first harness acquires the input gate");

    let second_attempt = daemon.close_human_input();
    assert!(
        second_attempt.is_err(),
        "second concurrent gate acquire is rejected while the first is open"
    );

    let release = daemon
        .open_human_input(first_lease)
        .expect("first harness releases the input gate");
    assert_eq!(release.lease(), first_lease);

    let third_lease = daemon
        .close_human_input()
        .expect("post-release acquire succeeds");
    let _ = daemon
        .open_human_input(third_lease)
        .expect("third lease released");
}

#[test]
fn second_client_of_a_closed_gate_gets_no_lease() {
    let mut daemon = DaemonFixture::spawn("second-close");
    let first = daemon.close_human_input().expect("human input gate closes");

    let mut request = SocketRequestWriter::new(Vec::new());
    request.write_close_human_input_request();
    let second = daemon.open_control(&request.into_bytes());
    assert_eq!(second.output, Vec::<u8>::new());
    assert_eq!(
        second.result,
        Some(Err(ConnectionError::new(
            ErrorKind::BrokenPipe,
            "terminal input gate is already closed".to_string()
        )))
    );
    let error = daemon
        .close_human_input()
        .expect_err("no second lease is handed out");
    assert_eq!(error.kind, ErrorKind::UnexpectedEof);

    let release = daemon
        .open_human_input(first)
        .expect("the first lease is still good");
    assert_eq!(release.lease(), first);

    let third = daemon
        .close_human_input()
        .expect("the released input gate is closed again");
    assert_ne!(third, first);
    daemon
        .open_human_input(third)
        .expect("the third lease is good");
}

#[test]
fn viewer_input_is_handed_on_read_by_read() {
    let mut daemon = DaemonFixture::spawn_program("pump", Program::EchoLines);
    let mut viewer = daemon.open_attach_stream();
    let reads = [b"on".to_vec(), b"e\rtw".to_vec(), b"o\r".to_vec()];
    for read in &reads {
        daemon.type_on(&mut viewer, read);
    }
    daemon.type_on(&mut viewer, b"");
    assert_eq!(daemon.terminal.inputs.len(), reads.len());
    for (input, read) in daemon.terminal.inputs.iter().zip(&reads) {
        assert_eq!(
            *input,
            TerminalInput::new(read.clone(), InputSource::Viewer)
        );
    }
    assert_eq!(daemon.capture_text(), "first:one\r\nsecond:two\r\n");
    assert_eq!(viewer.output, Vec::<u8>::new(), "an empty transcript is not replayed");
}

#[test]
fn lifecycle_stream_tells_each_lifecycle_in_order() {
    let mut daemon = DaemonFixture::spawn("lifecycle-order");
    let archive = daemon.archives.archive_query(
        terminal_signal::Query::SubscribeTerminalWorkerLifecycle(
            terminal_signal::SubscribeTerminalWorkerLifecycleRequest {
                terminal: signal_terminal("operator"),
            },
        ),
    );
    let mut request = SocketRequestWriter::new(Vec::new());
    request
        .write_signal_request(Ok(archive))
        .expect("request writes");
    let mut subscription = daemon.open_control(&request.into_bytes());
    let mut viewer = daemon.open_attach_stream();
    daemon.type_on(&mut viewer, b"");
    daemon.advance_control(&mut subscription);

    let mut reader = SocketReplyReader::new(subscription.output);
    let mut told = Vec::new();
    while let Ok(archive) = reader.read_signal_event() {
        told.push(daemon.archives.restore_response(&archive));
    }
    let event = |observation| {
        Ok(terminal_signal::Response::Event(
            terminal_signal::TerminalEvent::TerminalWorkerLifecycleEvent(
                terminal_signal::TerminalWorkerLifecycleEventPayload {
                    terminal: signal_terminal("operator"),
                    observation,
                },
            ),
        ))
    };
    assert_eq!(told.len(), 3);
    assert!(matches!(
        told[0],
        Ok(terminal_signal::Response::TerminalWorkerLifecycleSnapshot(_))
    ));
    assert_eq!(
        told[1],
        event(terminal_signal::TerminalWorkerLifecycle::Started(
            terminal_signal::TerminalWorkerKind::AttachConnectionPump
        ))
    );
    assert_eq!(
        told[2],
        event(terminal_signal::TerminalWorkerLifecycle::Stopped(
            terminal_signal::TerminalWorkerStop {
                terminal_worker_kind: terminal_signal::TerminalWorkerKind::AttachConnectionPump,
                terminal_worker_stop_reason:
                    terminal_signal::TerminalWorkerStopReason::AttachConnectionClosed,
            }
        ))
    );
}

#[test]
fn input_gate_holds_human_bytes_during_programmatic_injection() {
    let mut daemon = DaemonFixture::spawn_program("input_gate", Program::EchoLines);
    let mut viewer = daemon.open_attach_stream();

    let lease = daemon.close_human_input().expect("human input gate closes");
    daemon.type_on(&mut viewer, b"human-held-behind-gate\r");

    let client = daemon.client();
    daemon
        .perform(|exchange| client.send_programmatic_input(b"persona-injection\r", exchange))
        .expect("programmatic bytes write while gate is closed");
    daemon.wait_for_text("first:persona-injection");

    let release = daemon
        .open_human_input(lease)
        .expect("human input gate reopens");
    assert_eq!(release.lease(), lease);
    assert_eq!(release.held_byte_count(), "human-held-behind-gate\r".len());
    daemon.wait_for_text("second:human-held-behind-gate");

    let transcript = daemon.capture_text();
    let programmatic = transcript
        .find("first:persona-injection")
        .expect("programmatic line appears");
    let human = transcript
        .find("second:human-held-behind-gate")
        .expect("held human line appears");
    assert!(
        programmatic < human,
        "programmatic input is written before held human input"
    );
}

#[test]
fn signal_control_plane_acquires_gate_injects_releases_and_replays_human_bytes() {
    let mut daemon = DaemonFixture::spawn("signal-control-plane");

    daemon.wait_for_text("agent-ready");
    let registered = daemon
        .send_signal_request(terminal_signal::Query::RegisterPromptPattern(
            terminal_signal::RegisterPromptPatternRequest {
                terminal: signal_terminal("operator"),
                pattern: signal_regex_pattern(br"agent-ready\r+\n$"),
            },
        ))
        .expect("prompt pattern registration succeeds");
    let pattern_id = match registered {
        terminal_signal::Response::PromptPatternRegistered(registered) => {
            registered.pattern_identifier
        }
        other => panic!("expected prompt-pattern registration, got {other:?}"),
    };

    let acquired = daemon
        .send_signal_request(terminal_signal::Query::AcquireInputGate(
            terminal_signal::AcquireInputGateRequest {
                terminal: signal_terminal("operator"),
                input_gate_reason: "witness injection".to_string(),
                prompt_pattern_identifier_selection: Some(pattern_id),
            },
        ))
        .expect("input gate acquisition succeeds");
    let lease = match acquired {
        terminal_signal::Response::GateAcquired(acquired) => {
            assert_eq!(acquired.prompt_state, terminal_signal::PromptState::Clean);
            acquired.lease
        }
        other => panic!("expected gate acquisition, got {other:?}"),
    };

    let mut viewer = daemon.open_attach_stream();
    daemon.type_on(&mut viewer, b"human-held-behind-signal-gate\r");

    let ack = daemon
        .send_signal_request(terminal_signal::Query::WriteInjection(
            terminal_signal::WriteInjectionRequest {
                terminal: signal_terminal("operator"),
                lease: lease.clone(),
                input_bytes: signal_input_bytes(b"persona-signal\r"),
            },
        ))
        .expect("Signal write injection succeeds");
    assert!(
        matches!(ack, terminal_signal::Response::InjectionAck(_)),
        "Signal write injection is acknowledged: {ack:?}"
    );
    daemon.wait_for_text("agent-response: persona-signal");

    let released = daemon
        .send_signal_request(terminal_signal::Query::ReleaseInputGate(
            terminal_signal::ReleaseInputGateRequest {
                terminal: signal_terminal("operator"),
                lease,
            },
        ))
        .expect("Signal input gate release succeeds");
    match released {
        terminal_signal::Response::GateReleased(released) => {
            assert_eq!(
                signal_cached_human_byte_count(&released.cached_human_bytes),
                "human-held-behind-signal-gate\r".len() as u64
            );
        }
        other => panic!("expected gate release, got {other:?}"),
    }
    daemon.wait_for_text("agent-response: human-held-behind-signal-gate");
}

#[test]
fn signal_dirty_prompt_rejects_write_injection_by_default() {
    let mut daemon = DaemonFixture::spawn_program("signal-dirty-prompt", Program::DirtyPrompt);

    daemon.wait_for_text("ready> dirty");
    let registered = daemon
        .send_signal_request(terminal_signal::Query::RegisterPromptPattern(
            terminal_signal::RegisterPromptPatternRequest {
                terminal: signal_terminal("operator"),
                pattern: signal_regex_pattern(br"ready> "),
            },
        ))
        .expect("prompt pattern registration succeeds");
    let pattern_id = match registered {
        terminal_signal::Response::PromptPatternRegistered(registered) => {
            registered.pattern_identifier
        }
        other => panic!("expected prompt-pattern registration, got {other:?}"),
    };

    let acquired = daemon
        .send_signal_request(terminal_signal::Query::AcquireInputGate(
            terminal_signal::AcquireInputGateRequest {
                terminal: signal_terminal("operator"),
                input_gate_reason: "dirty prompt witness".to_string(),
                prompt_pattern_identifier_selection: Some(pattern_id),
            },
        ))
        .expect("dirty prompt still returns a gate acquisition with state");
    let lease = match acquired {
        terminal_signal::Response::GateAcquired(acquired) => {
            assert_eq!(
                acquired.prompt_state,
                terminal_signal::PromptState::Dirty(5),
                "regex suffix prompt reports trailing dirty bytes"
            );
            acquired.lease
        }
        other => panic!("expected gate acquisition, got {other:?}"),
    };

    let rejected = daemon
        .send_signal_request(terminal_signal::Query::WriteInjection(
            terminal_signal::WriteInjectionRequest {
                terminal: signal_terminal("operator"),
                lease: lease.clone(),
                input_bytes: signal_input_bytes(b"must-not-inject\r"),
            },
        ))
        .expect("dirty injection produces a typed rejection");
    assert!(
        matches!(
            rejected,
            terminal_signal::Response::InjectionRejected(terminal_signal::InjectionRejectedReply {
                injection_rejection_reason: terminal_signal::InjectionRejectionReason::DirtyPrompt,
                ..
            })
        ),
        "dirty prompt rejects write injection: {rejected:?}"
    );
    assert!(!daemon.capture_text().contains("must-not-inject"));

    let _ = daemon
        .send_signal_request(terminal_signal::Query::ReleaseInputGate(
            terminal_signal::ReleaseInputGateRequest {
                terminal: signal_terminal("operator"),
                lease,
            },
        ))
        .expect("dirty prompt gate release succeeds");
}

#[test]
fn signal_worker_lifecycle_subscription_delivers_snapshot_then_deltas() {
    let mut daemon = DaemonFixture::spawn("signal-worker-lifecycle");
    daemon.wait_for_text("agent-ready");

    let archive = daemon.archives.archive_query(
        terminal_signal::Query::SubscribeTerminalWorkerLifecycle(
            terminal_signal::SubscribeTerminalWorkerLifecycleRequest {
                terminal: signal_terminal("operator"),
            },
        ),
    );
    let mut request = SocketRequestWriter::new(Vec::new());
    request
        .write_signal_request(Ok(archive))
        .expect("worker lifecycle subscription request writes");
    let mut subscription = daemon.open_control(&request.into_bytes());
    let mut reader = SocketReplyReader::new(std::mem::take(&mut subscription.output));

    let snapshot = reader
        .read_signal_event()
        .expect("initial worker lifecycle snapshot arrives");
    match daemon.archives.restore_response(&snapshot) {
        Ok(terminal_signal::Response::TerminalWorkerLifecycleSnapshot(snapshot)) => {
            assert!(
                snapshot.observations.iter().any(|observation| matches!(
                    observation,
                    terminal_signal::TerminalWorkerLifecycle::Started(
                        terminal_signal::TerminalWorkerKind::InputWriter
                    )
                )),
                "worker lifecycle snapshot includes already-started workers"
            );
        }
        other => panic!("expected worker lifecycle snapshot, got {other:?}"),
    }
    assert_eq!(
        reader.read_signal_event(),
        Err(ReadInterruption::NeedBytes(4)),
        "nothing follows until a worker starts"
    );

    let mut viewer = daemon.open_attach_stream();
    daemon.advance_control(&mut subscription);
    reader.receive(&subscription.output);
    let event = reader
        .read_signal_event()
        .expect("worker lifecycle delta arrives");
    let event = daemon
        .archives
        .restore_response(&event)
        .expect("worker lifecycle delta is a response");
    assert!(
        matches!(
            event,
            terminal_signal::Response::Event(
                terminal_signal::TerminalEvent::TerminalWorkerLifecycleEvent(
                    terminal_signal::TerminalWorkerLifecycleEventPayload {
                        ref observation,
                        ..
                    }
                )
            ) if matches!(
                observation,
                terminal_signal::TerminalWorkerLifecycle::Started(
                    terminal_signal::TerminalWorkerKind::AttachConnectionPump
                )
            )
        ),
        "attach pump start is delivered as a Signal lifecycle event: {event:?}"
    );
    daemon.type_on(
        &mut viewer,
        b"signal lifecycle stream remains separate from raw input\r",
    );
    daemon.wait_for_text("signal lifecycle stream remains separate from raw input");
}

#[test]
fn transcript_subscription_replays_and_goes_on_with_live_bytes() {
    let mut daemon = DaemonFixture::spawn("subscription");
    let mut request = SocketRequestWriter::new(Vec::new());
    request.write_subscription_request();
    let mut stream = daemon.open_control(&request.into_bytes());
    assert_eq!(stream.output, b"agent-ready\r\n".to_vec());
    daemon.send_line("more");
    daemon.advance_control(&mut stream);
    assert_eq!(
        stream.output,
        b"agent-ready\r\nagent-response: more\r\n".to_vec()
    );
    assert_eq!(stream.result, None);
}

#[test]
fn second_viewer_is_refused_in_good_order() {
    let mut daemon = DaemonFixture::spawn("second-viewer");
    let mut first = daemon.open_attach_stream();

    let client = daemon.client();
    let error = daemon
        .perform(|exchange| client.open_attach_stream(exchange))
        .expect_err("second viewer is refused");
    assert_eq!(
        error,
        ConnectionError::new(
            ErrorKind::ConnectionRefused,
            "terminal cell already has an attached viewer".to_string()
        )
    );

    daemon.type_on(&mut first, b"");
    daemon
        .perform(|exchange| client.open_attach_stream(exchange))
        .expect("the place is free again");
}

#[test]
fn viewer_input_on_the_control_socket_waits_behind_a_closed_gate() {
    let mut daemon = DaemonFixture::spawn_program("viewer-input", Program::EchoLines);
    let client = daemon.client();
    let lease = daemon.close_human_input().expect("human input gate closes");
    daemon
        .perform(|exchange| client.send_viewer_input(b"typed\r", exchange))
        .expect("viewer bytes are accepted");
    assert_eq!(daemon.capture_text(), "");
    let release = daemon.open_human_input(lease).expect("gate reopens");
    assert_eq!(release.held_byte_count(), 6);
    assert_eq!(daemon.capture_text(), "first:typed\r\n");
}

#[test]
fn plain_release_spends_the_lease_of_a_signal_client() {
    let mut daemon = DaemonFixture::spawn("plain-release");
    let acquired = daemon
        .send_signal_request(terminal_signal::Query::AcquireInputGate(
            terminal_signal::AcquireInputGateRequest {
                terminal: signal_terminal("operator"),
                input_gate_reason: "plain release".to_string(),
                prompt_pattern_identifier_selection: None,
            },
        ))
        .expect("input gate acquisition succeeds");
    let lease = match acquired {
        terminal_signal::Response::GateAcquired(acquired) => {
            assert_eq!(
                acquired.prompt_state,
                terminal_signal::PromptState::NotChecked
            );
            acquired.lease
        }
        other => panic!("expected gate acquisition, got {other:?}"),
    };
    assert_eq!(lease.input_gate_lease_identifier, 1);

    let busy = daemon
        .send_signal_request(terminal_signal::Query::AcquireInputGate(
            terminal_signal::AcquireInputGateRequest {
                terminal: signal_terminal("operator"),
                input_gate_reason: "second".to_string(),
                prompt_pattern_identifier_selection: None,
            },
        ))
        .expect("busy gate is answered");
    assert_eq!(
        busy,
        terminal_signal::Response::GateBusy(terminal_signal::GateBusyReply {
            terminal: signal_terminal("operator"),
            current_holder: 1,
        })
    );

    daemon
        .open_human_input(TerminalInputGateLease::new(TerminalInputGateSequence::new(1)))
        .expect("plain release succeeds");
    let unknown = terminal_signal::Response::InjectionRejected(
        terminal_signal::InjectionRejectedReply {
            terminal: signal_terminal("operator"),
            injection_rejection_reason: terminal_signal::InjectionRejectionReason::UnknownLease,
        },
    );
    assert_eq!(
        daemon.send_signal_request(terminal_signal::Query::WriteInjection(
            terminal_signal::WriteInjectionRequest {
                terminal: signal_terminal("operator"),
                lease,
                input_bytes: signal_input_bytes(b"too late\r"),
            },
        )),
        Ok(unknown.clone())
    );
    assert_eq!(
        daemon.send_signal_request(terminal_signal::Query::ReleaseInputGate(
            terminal_signal::ReleaseInputGateRequest {
                terminal: signal_terminal("operator"),
                lease,
            },
        )),
        Ok(unknown)
    );
}

#[test]
fn worker_observation_reaches_the_client_as_text() {
    let mut daemon = DaemonFixture::spawn("observation");
    let client = daemon.client();
    assert_eq!(
        daemon.perform(|exchange| client.worker_observation_text(exchange)),
        Ok("workers: 3".to_string())
    );
}

#[test]
fn unanswered_verb_ends_with_the_connection() {
    let mut daemon = DaemonFixture::spawn("unanswered");
    let client = daemon.client();
    let error = daemon
        .perform(|exchange| client.wait_for_transcript(b"never printed", exchange))
        .expect_err("the daemon closes the connection");
    assert_eq!(error.kind, ErrorKind::UnexpectedEof);
}
