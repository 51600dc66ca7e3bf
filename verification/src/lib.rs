//! The wire protocol, the control plane and the data plane of a terminal cell.
//!
//! A terminal cell owns one pseudo-terminal and serves it on two sockets: a
//! control socket with tagged requests and replies, and a data socket that
//! carries nothing but an attach handshake and raw bytes. The crate holds what
//! both ends decide; it opens no socket and talks to no terminal. Where such
//! work is due it returns a step that names the work, and goes on from the
//! result that the step is resumed with.
pub mod client;
pub mod client_laws;
pub mod control;
pub mod control_laws;
pub mod control_state;
pub mod control_steps;
pub mod cursor;
pub mod data;
pub mod data_laws;
pub mod engine;
pub mod failure;
pub mod gate_laws;
pub mod prompt;
pub mod query_laws;
pub mod reply;
pub mod reply_laws;
pub mod request;
pub mod request_laws;
pub mod signal;
pub mod step_laws;
pub mod stream_laws;
pub mod terminal;
pub mod text;
pub mod wire;
pub mod worker;

pub use client::{ClientStep, SocketExchange, TerminalCellSocketClient};
pub use control::TerminalControlConnection;
pub use control_state::TerminalSignalControlState;
pub use control_steps::ControlStep;
pub use cursor::ReadInterruption;
pub use data::{DataStep, TerminalDataConnection};
pub use engine::{
    Configuration, EnvironmentVariable, TerminalCellDaemonError, TerminalCellEngine,
    TerminalCellProcessDaemon, TerminalCommand, TerminalLaunch,
};
pub use failure::{ConnectionError, ErrorKind};
pub use reply::{SocketReplyReader, SocketReplyWriter};
pub use request::{
    ReceivedRequest, SignalArchive, SignalSocketRequest, SocketRequest, SocketRequestReader,
    SocketRequestWriter,
};
pub use terminal::{
    InputSource, TerminalCellError, TerminalFailure, TerminalInput, TerminalInputGateLease,
    TerminalInputGateRelease, TerminalInputGateSequence, TerminalSize, TerminalViewerLease,
    TerminalWorkerKind, TerminalWorkerLifecycle, TerminalWorkerStop, TranscriptSnapshot,
    WaitForTranscriptText,
};
