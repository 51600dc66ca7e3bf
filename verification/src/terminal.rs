//! What the terminal side and the wire speak of: input, gate leases, sizes,
//! transcripts and worker lifecycles.
use vstd::prelude::*;

verus! {

/// Where input bytes come from. The input gate holds back what a viewer types
/// and lets programmatic input through.
#[derive(Debug, Clone, Copy, PartialEq, Eq, Structural)]
pub enum InputSource {
    Programmatic,
    Viewer,
}

/// Bytes for the terminal, with their source.
#[derive(Debug, Clone, PartialEq, Eq)]
pub struct TerminalInput {
    pub bytes: Vec<u8>,
    pub source: InputSource,
}

impl TerminalInput {
    pub fn new(bytes: Vec<u8>, source: InputSource) -> (input: Self)
        ensures
            input.bytes == bytes,
            input.source == source,
    {
        TerminalInput { bytes, source }
    }
}

/// The number of a closing of the input gate.
#[derive(Debug, Clone, Copy, PartialEq, Eq, Structural)]
pub struct TerminalInputGateSequence {
    pub value: u64,
}

impl TerminalInputGateSequence {
    pub fn new(value: u64) -> (sequence: Self)
        ensures
            sequence.value == value,
    {
        TerminalInputGateSequence { value }
    }

    pub fn into_u64(self) -> (value: u64)
        ensures
            value == self.value,
    {
        self.value
    }
}

/// The right to open the input gate again.
#[derive(Debug, Clone, Copy, PartialEq, Eq, Structural)]
pub struct TerminalInputGateLease {
    pub sequence: TerminalInputGateSequence,
}

/// The lease of a sequence number.
pub open spec fn gate_lease(value: u64) -> TerminalInputGateLease {
    TerminalInputGateLease { sequence: TerminalInputGateSequence { value } }
}

impl TerminalInputGateLease {
    pub fn new(sequence: TerminalInputGateSequence) -> (lease: Self)
        ensures
            lease.sequence == sequence,
    {
        TerminalInputGateLease { sequence }
    }

    pub fn sequence(&self) -> (sequence: TerminalInputGateSequence)
        ensures
            sequence == self.sequence,
    {
        self.sequence
    }
}

/// An opened input gate: whose lease it was, and how many bytes it had held.
#[derive(Debug, Clone, Copy, PartialEq, Eq, Structural)]
pub struct TerminalInputGateRelease {
    pub lease: TerminalInputGateLease,
    pub held_byte_count: usize,
}

impl TerminalInputGateRelease {
    pub fn new(lease: TerminalInputGateLease, held_byte_count: usize) -> (release: Self)
        ensures
            release.lease == lease,
            release.held_byte_count == held_byte_count,
    {
        TerminalInputGateRelease { lease, held_byte_count }
    }

    pub fn lease(&self) -> (lease: TerminalInputGateLease)
        ensures
            lease == self.lease,
    {
        self.lease
    }

    pub fn held_byte_count(&self) -> (count: usize)
        ensures
            count == self.held_byte_count,
    {
        self.held_byte_count
    }
}

/// The size of a terminal in character cells.
#[derive(Debug, Clone, Copy, PartialEq, Eq, Structural)]
pub struct TerminalSize {
    pub rows: u16,
    pub columns: u16,
}

impl TerminalSize {
    pub fn new(rows: u16, columns: u16) -> (size: Self)
        ensures
            size.rows == rows,
            size.columns == columns,
    {
        TerminalSize { rows, columns }
    }

    pub fn rows(&self) -> (rows: u16)
        ensures
            rows == self.rows,
    {
        self.rows
    }

    pub fn columns(&self) -> (columns: u16)
        ensures
            columns == self.columns,
    {
        self.columns
    }
}

/// A wait until the transcript holds some text.
#[derive(Debug, Clone, PartialEq, Eq)]
pub struct WaitForTranscriptText {
    pub bytes: Vec<u8>,
}

impl WaitForTranscriptText {
    pub fn new(bytes: Vec<u8>) -> (wait: Self)
        ensures
            wait.bytes == bytes,
    {
        WaitForTranscriptText { bytes }
    }
}

/// The transcript up to a sequence number.
#[derive(Debug, Clone, PartialEq, Eq)]
pub struct TranscriptSnapshot {
    pub bytes: Vec<u8>,
    pub last_sequence: u64,
}

/// What the terminal refused.
#[derive(Debug, Clone, Copy, PartialEq, Eq, Structural)]
pub enum TerminalCellError {
    /// The input gate is closed already, under this lease.
    InputGateAlreadyClosed(TerminalInputGateLease),
    /// The lease is not the one under which the input gate is closed.
    StaleInputGateLease,
    /// Another viewer is attached.
    ViewerAlreadyAttached,
    /// Anything else.
    Other,
}

/// A refusal by the terminal, with the text that it displays as.
#[derive(Debug, Clone, PartialEq, Eq)]
pub struct TerminalFailure {
    pub error: TerminalCellError,
    pub text: String,
}

/// The attachment of a viewer to the terminal's output.
#[derive(Debug, Clone, Copy, PartialEq, Eq, Structural)]
pub struct TerminalViewerLease {
    pub value: u64,
}

/// The workers behind a terminal.
#[derive(Debug, Clone, Copy, PartialEq, Eq, Structural)]
pub enum TerminalWorkerKind {
    InputWriter,
    ViewerFanout,
    TranscriptScriber,
    OutputReader,
    ChildExitWatcher,
    SocketAcceptLoop,
    AttachConnectionPump,
}

/// Why a worker stopped.
#[derive(Debug, Clone, PartialEq, Eq)]
pub enum TerminalWorkerStop {
    InputCommandChannelClosed,
    InputWriteFailed(String),
    OutputCommandChannelClosed,
    TranscriptNoticeChannelClosed,
    OutputReaderFinished,
    OutputReadFailed(String),
    OutputPortClosed,
    ChildExited(String),
    ChildWaitFailed(String),
    SocketAcceptFailed(String),
    AttachConnectionClosed,
    AttachConnectionFailed(String),
}

/// The start or the stop of a worker.
#[derive(Debug, Clone, PartialEq, Eq)]
pub enum TerminalWorkerLifecycle {
    Started(TerminalWorkerKind),
    Stopped { worker: TerminalWorkerKind, reason: TerminalWorkerStop },
}

} // verus!
