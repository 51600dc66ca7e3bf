//! The Signal contract of a terminal: queries and responses, as the values that
//! stand in an archive. Bytes travel as integers, one per byte.
use vstd::prelude::*;

verus! {

/// The lease of an input gate, as a query or a response names it.
#[derive(Debug, Clone, Copy, PartialEq, Eq, Structural)]
pub struct InputGateLease {
    pub input_gate_lease_identifier: i64,
}

pub type Lease = InputGateLease;

/// What the end of a transcript is held against.
#[derive(Debug, Clone, PartialEq, Eq)]
pub enum PromptPattern {
    /// The bytes of the prompt.
    LiteralSuffix(Vec<i64>),
    /// The bytes of a regular expression for the prompt.
    RegexSuffix(Vec<i64>),
}

/// A prompt pattern, as contracts speak of it.
pub ghost enum Pattern {
    LiteralSuffix(Seq<i64>),
    RegexSuffix(Seq<i64>),
}

impl View for PromptPattern {
    type V = Pattern;

    open spec fn view(&self) -> Pattern {
        match self {
            PromptPattern::LiteralSuffix(bytes) => Pattern::LiteralSuffix(bytes@),
            PromptPattern::RegexSuffix(bytes) => Pattern::RegexSuffix(bytes@),
        }
    }
}

/// A registered prompt pattern with its identifier.
#[derive(Debug, Clone, PartialEq, Eq)]
pub struct PromptPatternEntry {
    pub pattern_identifier: String,
    pub pattern: PromptPattern,
}

/// Whether the terminal stood at its prompt when the input gate was closed.
#[derive(Debug, Clone, Copy, PartialEq, Eq, Structural)]
pub enum PromptState {
    NotChecked,
    Clean,
    /// So many bytes stand behind the prompt.
    Dirty(i64),
}

/// Why a terminal was detached, by name. It is passed on unread.
#[derive(Debug, Clone, PartialEq, Eq)]
pub struct TerminalDetachmentReason {
    pub name: String,
}

#[derive(Debug, Clone, Copy, PartialEq, Eq, Structural)]
pub enum TerminalRejectionReason {
    TransportFailed,
}

#[derive(Debug, Clone, Copy, PartialEq, Eq, Structural)]
pub enum InjectionRejectionReason {
    UnknownLease,
    DirtyPrompt,
}

#[derive(Debug, Clone, PartialEq, Eq)]
pub struct TerminalConnectionRequest {
    pub terminal: String,
}

#[derive(Debug, Clone, PartialEq, Eq)]
pub struct TerminalInputRequest {
    pub terminal: String,
    pub input_bytes: Vec<i64>,
}

#[derive(Debug, Clone, PartialEq, Eq)]
pub struct TerminalResizeRequest {
    pub terminal: String,
    pub rows: i64,
    pub columns: i64,
}

#[derive(Debug, Clone, PartialEq, Eq)]
pub struct TerminalDetachmentRequest {
    pub terminal: String,
    pub terminal_detachment_reason: TerminalDetachmentReason,
}

#[derive(Debug, Clone, PartialEq, Eq)]
pub struct TerminalCaptureRequest {
    pub terminal: String,
}

#[derive(Debug, Clone, PartialEq, Eq)]
pub struct RegisterPromptPatternRequest {
    pub terminal: String,
    pub pattern: PromptPattern,
}

#[derive(Debug, Clone, PartialEq, Eq)]
pub struct UnregisterPromptPatternRequest {
    pub terminal: String,
    pub pattern_identifier: String,
}

#[derive(Debug, Clone, PartialEq, Eq)]
pub struct ListPromptPatternsRequest {
    pub terminal: String,
}

#[derive(Debug, Clone, PartialEq, Eq)]
pub struct AcquireInputGateRequest {
    pub terminal: String,
    pub input_gate_reason: String,
    pub prompt_pattern_identifier_selection: Option<String>,
}

#[derive(Debug, Clone, PartialEq, Eq)]
pub struct ReleaseInputGateRequest {
    pub terminal: String,
    pub lease: Lease,
}

#[derive(Debug, Clone, PartialEq, Eq)]
pub struct WriteInjectionRequest {
    pub terminal: String,
    pub lease: Lease,
    pub input_bytes: Vec<i64>,
}

#[derive(Debug, Clone, PartialEq, Eq)]
pub struct SubscribeTerminalWorkerLifecycleRequest {
    pub terminal: String,
}

#[derive(Debug, Clone, PartialEq, Eq)]
pub struct TerminalWorkerLifecycleToken {
    pub terminal: String,
}

#[derive(Debug, Clone, PartialEq, Eq)]
pub struct ResolveSessionRequest {
    pub name: String,
}

/// What a client asks of a terminal.
#[derive(Debug, Clone, PartialEq, Eq)]
pub enum Query {
    TerminalConnection(TerminalConnectionRequest),
    TerminalInput(TerminalInputRequest),
    TerminalResize(TerminalResizeRequest),
    TerminalDetachment(TerminalDetachmentRequest),
    TerminalCapture(TerminalCaptureRequest),
    RegisterPromptPattern(RegisterPromptPatternRequest),
    UnregisterPromptPattern(UnregisterPromptPatternRequest),
    ListPromptPatterns(ListPromptPatternsRequest),
    AcquireInputGate(AcquireInputGateRequest),
    ReleaseInputGate(ReleaseInputGateRequest),
    WriteInjection(WriteInjectionRequest),
    SubscribeTerminalWorkerLifecycle(SubscribeTerminalWorkerLifecycleRequest),
    TerminalWorkerLifecycleRetraction(TerminalWorkerLifecycleToken),
    ListSessions,
    ResolveSession(ResolveSessionRequest),
}

#[derive(Debug, Clone, Copy, PartialEq, Eq, Structural)]
pub enum TerminalWorkerKind {
    InputWriter,
    ViewerFanout,
    TranscriptScriber,
    OutputReader,
    ChildExitWatcher,
    SocketAcceptLoop,
    AttachConnectionPump,
}

#[derive(Debug, Clone, PartialEq, Eq)]
pub enum TerminalWorkerStopReason {
    InputCommandChannelClosed,
    InputWriteFailed(String),
    OutputCommandChannelClosed,
    TranscriptNoticeChannelClosed,
    OutputReaderFinished,
    OutputReadFailed(String),
    OutputPortClosed,
    ChildExited(String),
    ChildWaitFailed(String),
    SocketAcceptFailed(String),
    AttachConnectionClosed,
    AttachConnectionFailed(String),
}

#[derive(Debug, Clone, PartialEq, Eq)]
pub struct TerminalWorkerStop {
    pub terminal_worker_kind: TerminalWorkerKind,
    pub terminal_worker_stop_reason: TerminalWorkerStopReason,
}

#[derive(Debug, Clone, PartialEq, Eq)]
pub enum TerminalWorkerLifecycle {
    Started(TerminalWorkerKind),
    Stopped(TerminalWorkerStop),
}

#[derive(Debug, Clone, PartialEq, Eq)]
pub struct TerminalReadyReply {
    pub terminal: String,
    pub generation: i64,
}

#[derive(Debug, Clone, PartialEq, Eq)]
pub struct TerminalInputAcceptedReply {
    pub terminal: String,
    pub generation: i64,
}

#[derive(Debug, Clone, PartialEq, Eq)]
pub struct TerminalResizedReply {
    pub terminal: String,
    pub rows: i64,
    pub columns: i64,
    pub generation: i64,
}

#[derive(Debug, Clone, PartialEq, Eq)]
pub struct TerminalDetachedReply {
    pub terminal: String,
    pub generation: i64,
    pub terminal_detachment_reason: TerminalDetachmentReason,
}

#[derive(Debug, Clone, PartialEq, Eq)]
pub struct TerminalCapturedReply {
    pub terminal: String,
    pub generation: i64,
    pub transcript_bytes: Vec<i64>,
}

#[derive(Debug, Clone, PartialEq, Eq)]
pub struct PromptPatternRegisteredReply {
    pub terminal: String,
    pub pattern_identifier: String,
}

#[derive(Debug, Clone, PartialEq, Eq)]
pub struct PromptPatternUnregisteredReply {
    pub terminal: String,
    pub pattern_identifier: String,
}

#[derive(Debug, Clone, PartialEq, Eq)]
pub struct PromptPatternListReply {
    pub terminal: String,
    pub entries: Vec<PromptPatternEntry>,
}

#[derive(Debug, Clone, PartialEq, Eq)]
pub struct GateAcquiredReply {
    pub terminal: String,
    pub lease: Lease,
    pub prompt_state: PromptState,
}

#[derive(Debug, Clone, PartialEq, Eq)]
pub struct GateBusyReply {
    pub terminal: String,
    pub current_holder: i64,
}

#[derive(Debug, Clone, PartialEq, Eq)]
pub struct GateReleasedReply {
    pub terminal: String,
    pub lease: Lease,
    pub cached_human_bytes: i64,
}

#[derive(Debug, Clone, PartialEq, Eq)]
pub struct InjectionAckReply {
    pub terminal: String,
    pub generation: i64,
    pub sequence: i64,
}

#[derive(Debug, Clone, PartialEq, Eq)]
pub struct InjectionRejectedReply {
    pub terminal: String,
    pub injection_rejection_reason: InjectionRejectionReason,
}

#[derive(Debug, Clone, PartialEq, Eq)]
pub struct TerminalRejectedReply {
    pub terminal: String,
    pub terminal_rejection_reason: TerminalRejectionReason,
}

#[derive(Debug, Clone, PartialEq, Eq)]
pub struct SubscriptionRetractedReply {
    pub token: TerminalWorkerLifecycleToken,
}

#[derive(Debug, Clone, PartialEq, Eq)]
pub struct TerminalWorkerLifecycleSnapshotReply {
    pub terminal: String,
    pub observations: Vec<TerminalWorkerLifecycle>,
}

#[derive(Debug, Clone, PartialEq, Eq)]
pub struct SessionEntry {
    pub name: String,
}

#[derive(Debug, Clone, PartialEq, Eq)]
pub struct SessionListReply {
    pub session_entries: Vec<SessionEntry>,
}

#[derive(Debug, Clone, PartialEq, Eq)]
pub struct TerminalWorkerLifecycleEventPayload {
    pub terminal: String,
    pub observation: TerminalWorkerLifecycle,
}

#[derive(Debug, Clone, PartialEq, Eq)]
pub enum TerminalEvent {
    TerminalWorkerLifecycleEvent(TerminalWorkerLifecycleEventPayload),
}

/// What a terminal answers.
#[derive(Debug, Clone, PartialEq, Eq)]
pub enum Response {
    TerminalReady(TerminalReadyReply),
    TerminalInputAccepted(TerminalInputAcceptedReply),
    TerminalResized(TerminalResizedReply),
    TerminalDetached(TerminalDetachedReply),
    TerminalCaptured(TerminalCapturedReply),
    PromptPatternRegistered(PromptPatternRegisteredReply),
    PromptPatternUnregistered(PromptPatternUnregisteredReply),
    PromptPatternList(PromptPatternListReply),
    GateAcquired(GateAcquiredReply),
    GateBusy(GateBusyReply),
    GateReleased(GateReleasedReply),
    InjectionAck(InjectionAckReply),
    InjectionRejected(InjectionRejectedReply),
    TerminalRejected(TerminalRejectedReply),
    SubscriptionRetracted(SubscriptionRetractedReply),
    TerminalWorkerLifecycleSnapshot(TerminalWorkerLifecycleSnapshotReply),
    SessionList(SessionListReply),
    Event(TerminalEvent),
}

} // verus!
