//! What each request does, told from its parts, its first step and what the control plane
//! remembers before and behind it.
use vstd::prelude::*;
use crate::control::TerminalControlConnection;
use crate::control_state::{
    entries_are_what_they_list, identifier_holds_the_number, is_number_of,
    lease_numbers_are_their_own, TerminalSignalControlState,
};
use crate::control_steps::{
    AcceptPurpose, AfterReply, CloseGatePurpose, ControlStep, OpenGatePurpose, ResizePurpose,
    SnapshotPurpose,
};
use crate::reply::{reply_bytes, WireReply};
use crate::request::{SignalSocketRequest, SocketRequest};
use crate::signal::{
    AcquireInputGateRequest, Lease, ListPromptPatternsRequest,
    PromptState, Query, RegisterPromptPatternRequest, ReleaseInputGateRequest, Response,
    TerminalInputRequest, TerminalResizeRequest,
    UnregisterPromptPatternRequest, WriteInjectionRequest,
};
use crate::text::numeral_value;

verus! {

/// Whether bytes are what integers stand for: as many, and each apart from its integer by
/// whole multiples of 256. Integers that are bytes stand for themselves.
pub open spec fn are_bytes_of(bytes: Seq<u8>, values: Seq<i64>) -> bool {
    &&& bytes.len() == values.len()
    &&& forall|at: int| 0 <= at < bytes.len() ==> (values[at] - #[trigger] bytes[at]) % 256 == 0
}

/// Integers that are bytes stand for those bytes and for no others.
pub proof fn bytes_stand_for_themselves(bytes: Seq<u8>, values: Seq<i64>, exact: Seq<u8>)
    requires
        are_bytes_of(bytes, values),
        exact.len() == values.len(),
        forall|at: int| 0 <= at < exact.len() ==> values[at] == #[trigger] exact[at],
    ensures
        bytes == exact,
{
    assert forall|at: int| 0 <= at < exact.len() implies bytes[at] == exact[at] by {
        assert(values[at] == exact[at]);
        assert((values[at] - bytes[at]) % 256 == 0);
    }
    assert(bytes =~= exact);
}

/// Input in a query reaches the terminal byte for byte, as programmatic input, and is
/// answered for the terminal that the query names.
pub proof fn queried_input_reaches_the_terminal(
    input: TerminalInputRequest,
    signal: SignalSocketRequest,
    state: &mut TerminalSignalControlState,
    step: ControlStep,
    bytes: Seq<u8>,
)
    requires
        signal.query() == Query::TerminalInput(input),
        call_ensures(
            TerminalControlConnection::run,
            (SocketRequest::Signal(signal), state),
            step,
        ),
    ensures
        ({
            &&& step matches ControlStep::Accept(handed)
            &&& are_bytes_of(handed.input.bytes@, input.input_bytes@)
            &&& handed.input.source is Programmatic
            &&& handed.purpose matches AcceptPurpose::SignalInput { terminal }
            &&& terminal@ == input.terminal@
        }),
        input.input_bytes@.len() == bytes.len() && (forall|at: int|
            0 <= at < bytes.len() ==> input.input_bytes@[at] == #[trigger] bytes[at]) ==> (
        step matches ControlStep::Accept(handed) && handed.input.bytes@ == bytes),
        final(state)@ == old(state)@,
{
    if input.input_bytes@.len() == bytes.len() && (forall|at: int|
        0 <= at < bytes.len() ==> input.input_bytes@[at] == #[trigger] bytes[at]) {
        bytes_stand_for_themselves(step->Accept_0.input.bytes@, input.input_bytes@, bytes);
    }
}

/// A resize reaches the terminal with the rows and the columns of the query, up to whole
/// multiples of 65536, and is kept to be answered as it was asked.
pub proof fn queried_size_reaches_the_terminal(
    resize: TerminalResizeRequest,
    signal: SignalSocketRequest,
    state: &mut TerminalSignalControlState,
    step: ControlStep,
)
    requires
        signal.query() == Query::TerminalResize(resize),
        call_ensures(
            TerminalControlConnection::run,
            (SocketRequest::Signal(signal), state),
            step,
        ),
    ensures
        ({
            &&& step matches ControlStep::Resize(asked)
            &&& (resize.rows - asked.size.rows) % 0x1_0000 == 0
            &&& (resize.columns - asked.size.columns) % 0x1_0000 == 0
            &&& 0 <= resize.rows < 0x1_0000 ==> asked.size.rows == resize.rows
            &&& 0 <= resize.columns < 0x1_0000 ==> asked.size.columns == resize.columns
            &&& asked.purpose matches ResizePurpose::Signal(kept)
            &&& kept.terminal@ == resize.terminal@
            &&& kept.rows == resize.rows
            &&& kept.columns == resize.columns
        }),
        final(state)@ == old(state)@,
{
}

/// Queries that need neither the terminal nor the memory are answered at once, each for the
/// terminal that it names. There are no sessions to list or to resolve here. A capture asks
/// for the transcript, and a subscription for the lifecycles, of the terminal that is named.
pub proof fn other_queries_are_answered_for_their_terminal(
    signal: SignalSocketRequest,
    state: &mut TerminalSignalControlState,
    step: ControlStep,
)
    requires
        call_ensures(
            TerminalControlConnection::run,
            (SocketRequest::Signal(signal), state),
            step,
        ),
    ensures
        match signal.query() {
            Query::TerminalConnection(connection) => {
                &&& step matches ControlStep::Archive(archive)
                &&& archive.after is Finish
                &&& archive.response matches Response::TerminalReady(ready)
                &&& ready.terminal@ == connection.terminal@
                &&& ready.generation == 1
                &&& final(state)@ == old(state)@
            },
            Query::TerminalDetachment(detachment) => {
                &&& step matches ControlStep::Archive(archive)
                &&& archive.after is Finish
                &&& archive.response matches Response::TerminalDetached(detached)
                &&& detached.terminal@ == detachment.terminal@
                &&& detached.generation == 1
                &&& detached.terminal_detachment_reason.name@
                    == detachment.terminal_detachment_reason.name@
                &&& final(state)@ == old(state)@
            },
            Query::TerminalCapture(capture) => {
                &&& step matches ControlStep::Snapshot(asked)
                &&& asked.purpose matches SnapshotPurpose::SignalCapture { terminal }
                &&& terminal@ == capture.terminal@
                &&& final(state)@ == old(state)@
            },
            Query::SubscribeTerminalWorkerLifecycle(subscription) => {
                &&& step matches ControlStep::SubscribeLifecycle(asked)
                &&& asked.terminal@ == subscription.terminal@
                &&& final(state)@ == old(state)@
            },
            Query::TerminalWorkerLifecycleRetraction(token) => {
                &&& step matches ControlStep::Archive(archive)
                &&& archive.after is Finish
                &&& archive.response matches Response::SubscriptionRetracted(retracted)
                &&& retracted.token.terminal@ == token.terminal@
                &&& final(state)@ == old(state)@
            },
            Query::ListSessions => {
                &&& step matches ControlStep::Archive(archive)
                &&& archive.after is Finish
                &&& archive.response matches Response::SessionList(sessions)
                &&& sessions.session_entries@.len() == 0
                &&& final(state)@ == old(state)@
            },
            Query::ResolveSession(resolve) => {
                &&& step matches ControlStep::Archive(archive)
                &&& archive.after is Finish
                &&& archive.response matches Response::TerminalRejected(rejected)
                &&& rejected.terminal@ == resolve.name@
                &&& rejected.terminal_rejection_reason is TransportFailed
                &&& final(state)@ == old(state)@
            },
            _ => true,
        },
{
}

/// A single answer is no stream: where one is asked for, a subscription to lifecycles and
/// its retraction are rejected for the terminal that they name.
pub proof fn lifecycles_are_no_single_answer(
    query: Query,
    state: &mut TerminalSignalControlState,
    step: ControlStep,
)
    requires
        call_ensures(TerminalControlConnection::signal_event, (query, state), step),
        query is SubscribeTerminalWorkerLifecycle || query is TerminalWorkerLifecycleRetraction,
    ensures
        ({
            &&& step matches ControlStep::Archive(archive)
            &&& archive.after is Finish
            &&& archive.response matches Response::TerminalRejected(rejected)
            &&& rejected.terminal@ == match query {
                Query::SubscribeTerminalWorkerLifecycle(subscription) => subscription.terminal@,
                Query::TerminalWorkerLifecycleRetraction(token) => token.terminal@,
                _ => Seq::empty(),
            }
            &&& rejected.terminal_rejection_reason is TransportFailed
            &&& final(state)@ == old(state)@
        }),
{
}

/// Once a pattern is registered, the name in the answer selects it. Every other name selects
/// what it did, and every lease is as it was. The name has the next number in it, which is
/// then one higher.
pub proof fn registration_adds_one_name(
    registration: RegisterPromptPatternRequest,
    signal: SignalSocketRequest,
    state: &mut TerminalSignalControlState,
    step: ControlStep,
    other: Seq<char>,
    lease: Lease,
)
    requires
        signal.query() == Query::RegisterPromptPattern(registration),
        call_ensures(
            TerminalControlConnection::run,
            (SocketRequest::Signal(signal), state),
            step,
        ),
    ensures
        ({
            &&& step matches ControlStep::Archive(archive)
            &&& archive.after is Finish
            &&& archive.response matches Response::PromptPatternRegistered(registered)
            &&& registered.terminal@ == registration.terminal@
            &&& "prompt-pattern-"@.is_prefix_of(registered.pattern_identifier@)
            &&& numeral_value(
                registered.pattern_identifier@.skip("prompt-pattern-"@.len() as int),
            ) == old(state)@.next_prompt_pattern
            &&& final(state)@.selected(registered.pattern_identifier@) == Some(
                registration.pattern@,
            )
            &&& other != registered.pattern_identifier@ ==> final(state)@.selected(other)
                == old(state)@.selected(other)
        }),
        final(state)@.lease_state(lease) == old(state)@.lease_state(lease),
        old(state)@.next_prompt_pattern < u64::MAX ==> final(state)@.next_prompt_pattern
            == old(state)@.next_prompt_pattern + 1,
{
    identifier_holds_the_number(old(state)@.next_prompt_pattern);
}

/// Once a pattern is unregistered, its name selects nothing. Every other name selects what
/// it did, every lease is as it was, and the next number stays the next.
pub proof fn unregistration_takes_one_name(
    unregistration: UnregisterPromptPatternRequest,
    signal: SignalSocketRequest,
    state: &mut TerminalSignalControlState,
    step: ControlStep,
    other: Seq<char>,
    lease: Lease,
)
    requires
        signal.query() == Query::UnregisterPromptPattern(unregistration),
        call_ensures(
            TerminalControlConnection::run,
            (SocketRequest::Signal(signal), state),
            step,
        ),
    ensures
        ({
            &&& step matches ControlStep::Archive(archive)
            &&& archive.after is Finish
            &&& archive.response matches Response::PromptPatternUnregistered(unregistered)
            &&& unregistered.terminal@ == unregistration.terminal@
            &&& unregistered.pattern_identifier@ == unregistration.pattern_identifier@
        }),
        final(state)@.selected(unregistration.pattern_identifier@) is None,
        other != unregistration.pattern_identifier@ ==> final(state)@.selected(other)
            == old(state)@.selected(other),
        final(state)@.lease_state(lease) == old(state)@.lease_state(lease),
        final(state)@.next_prompt_pattern == old(state)@.next_prompt_pattern,
{
}

/// The list of patterns holds each name that selects one, once and with what it selects, and
/// nothing else. Listing changes nothing.
pub proof fn list_tells_what_names_select(
    list: ListPromptPatternsRequest,
    signal: SignalSocketRequest,
    state: &mut TerminalSignalControlState,
    step: ControlStep,
    name: Seq<char>,
)
    requires
        signal.query() == Query::ListPromptPatterns(list),
        call_ensures(
            TerminalControlConnection::run,
            (SocketRequest::Signal(signal), state),
            step,
        ),
    ensures
        ({
            &&& step matches ControlStep::Archive(archive)
            &&& archive.after is Finish
            &&& archive.response matches Response::PromptPatternList(listing)
            &&& listing.terminal@ == list.terminal@
            &&& forall|at: int|
                0 <= at < listing.entries@.len() ==> old(state)@.selected(
                    (#[trigger] listing.entries@[at]).pattern_identifier@,
                ) == Some(listing.entries@[at].pattern@)
            &&& old(state)@.selected(name) is Some ==> exists|at: int|
                0 <= at < listing.entries@.len() && (
                #[trigger] listing.entries@[at]).pattern_identifier@ == name
            &&& forall|at: int, later: int|
                0 <= at < later < listing.entries@.len() ==> (
                #[trigger] listing.entries@[at]).pattern_identifier@ != (
                #[trigger] listing.entries@[later]).pattern_identifier@
        }),
        final(state)@ == old(state)@,
{
    let listing = step->Archive_0.response->PromptPatternList_0;
    entries_are_what_they_list(listing.entries@, old(state)@.prompt_patterns, name);
}

/// The input gate is closed at once where no pattern is named, and the prompt is then not
/// checked. Where one is named, the transcript is asked for first, to be held against what
/// the name selects.
pub proof fn acquisition_checks_the_named_pattern(
    acquire: AcquireInputGateRequest,
    signal: SignalSocketRequest,
    state: &mut TerminalSignalControlState,
    step: ControlStep,
)
    requires
        signal.query() == Query::AcquireInputGate(acquire),
        call_ensures(
            TerminalControlConnection::run,
            (SocketRequest::Signal(signal), state),
            step,
        ),
    ensures
        match acquire.prompt_pattern_identifier_selection {
            None => {
                &&& step matches ControlStep::CloseGate(asked)
                &&& asked.purpose matches CloseGatePurpose::Signal { terminal, prompt_state }
                &&& terminal@ == acquire.terminal@
                &&& prompt_state is NotChecked
            },
            Some(name) => {
                &&& step matches ControlStep::Snapshot(asked)
                &&& asked.purpose matches SnapshotPurpose::PromptState { terminal, pattern }
                &&& terminal@ == acquire.terminal@
                &&& pattern is Some <==> old(state)@.selected(name@) is Some
                &&& pattern matches Some(found) ==> old(state)@.selected(name@) == Some(found@)
            },
        },
        final(state)@ == old(state)@,
{
}

/// A lease that is known goes to the terminal under its own number, and stays known until
/// the terminal has answered. One that is not known is rejected.
pub proof fn release_is_asked_for_a_known_lease(
    release: ReleaseInputGateRequest,
    signal: SignalSocketRequest,
    state: &mut TerminalSignalControlState,
    step: ControlStep,
)
    requires
        signal.query() == Query::ReleaseInputGate(release),
        call_ensures(
            TerminalControlConnection::run,
            (SocketRequest::Signal(signal), state),
            step,
        ),
    ensures
        old(state)@.lease_state(release.lease) is Some ==> {
            &&& step matches ControlStep::OpenGate(asked)
            &&& is_number_of(asked.lease.sequence.value, release.lease)
            &&& asked.purpose matches OpenGatePurpose::Signal { terminal, lease }
            &&& terminal@ == release.terminal@
            &&& lease == release.lease
        },
        old(state)@.lease_state(release.lease) is None ==> {
            &&& step matches ControlStep::Archive(archive)
            &&& archive.after is Finish
            &&& archive.response matches Response::InjectionRejected(rejected)
            &&& rejected.terminal@ == release.terminal@
            &&& rejected.injection_rejection_reason is UnknownLease
        },
        final(state)@ == old(state)@,
{
    lease_numbers_are_their_own(release.lease, release.lease);
}

/// Input is injected under a lease that is known and was not given out at a dirty prompt: it
/// reaches the terminal byte for byte, as programmatic input. Under a dirty lease, and under
/// one that is not known, nothing reaches the terminal, and the answer says which it was.
pub proof fn injection_reaches_the_terminal_under_a_clean_lease(
    injection: WriteInjectionRequest,
    signal: SignalSocketRequest,
    state: &mut TerminalSignalControlState,
    step: ControlStep,
)
    requires
        signal.query() == Query::WriteInjection(injection),
        call_ensures(
            TerminalControlConnection::run,
            (SocketRequest::Signal(signal), state),
            step,
        ),
    ensures
        match old(state)@.lease_state(injection.lease) {
            Some(PromptState::Clean) | Some(PromptState::NotChecked) => {
                &&& step matches ControlStep::Accept(handed)
                &&& are_bytes_of(handed.input.bytes@, injection.input_bytes@)
                &&& handed.input.source is Programmatic
                &&& handed.purpose matches AcceptPurpose::Injection { terminal }
                &&& terminal@ == injection.terminal@
            },
            Some(PromptState::Dirty(_)) => {
                &&& step matches ControlStep::Archive(archive)
                &&& archive.after is Finish
                &&& archive.response matches Response::InjectionRejected(rejected)
                &&& rejected.terminal@ == injection.terminal@
                &&& rejected.injection_rejection_reason is DirtyPrompt
            },
            None => {
                &&& step matches ControlStep::Archive(archive)
                &&& archive.after is Finish
                &&& archive.response matches Response::InjectionRejected(rejected)
                &&& rejected.terminal@ == injection.terminal@
                &&& rejected.injection_rejection_reason is UnknownLease
            },
        },
        final(state)@ == old(state)@,
{
}

/// Each request but a query names one piece of work, which gets what the request holds. An
/// attach names none here: it is told to use the other socket, and the connection fails.
pub proof fn requests_name_their_work(
    request: SocketRequest,
    state: &mut TerminalSignalControlState,
    step: ControlStep,
)
    requires
        request !is Signal,
        call_ensures(TerminalControlConnection::run, (request, state), step),
    ensures
        match request {
            SocketRequest::Capture => step matches ControlStep::Snapshot(asked)
                && asked.purpose is Capture,
            SocketRequest::SubscribeFromBeginning => step is Subscribe,
            SocketRequest::Attach => {
                &&& step matches ControlStep::Reply(sent)
                &&& sent.bytes@ == reply_bytes(
                    WireReply::AttachRejected(
                        "control socket does not accept viewer attach; use the data socket"@,
                    ),
                )
                &&& sent.after matches AfterReply::Fail(error)
                &&& error.kind is InvalidInput
                &&& error.message@ == "attach request arrived on terminal-cell control socket"@
            },
            SocketRequest::Input(input) => {
                &&& step matches ControlStep::Accept(handed)
                &&& handed.input.bytes@ == input.bytes@
                &&& handed.input.source == input.source
                &&& handed.purpose is Input
            },
            SocketRequest::CloseHumanInput => step matches ControlStep::CloseGate(asked)
                && asked.purpose is Lease,
            SocketRequest::OpenHumanInput(lease) => {
                &&& step matches ControlStep::OpenGate(asked)
                &&& asked.lease.sequence.value == lease.sequence.value
                &&& asked.purpose is Release
            },
            SocketRequest::Resize(size) => {
                &&& step matches ControlStep::Resize(asked)
                &&& asked.size.rows == size.rows
                &&& asked.size.columns == size.columns
                &&& asked.purpose is Resize
            },
            SocketRequest::Wait(wait) => step matches ControlStep::WaitText(asked)
                && asked.wait.bytes@ == wait.bytes@,
            SocketRequest::WaitExit => step is WaitExit,
            SocketRequest::WorkerObservation => step is ObserveWorkers,
            SocketRequest::Signal(_) => true,
        },
        final(state)@ == old(state)@,
{
}

/// The memory is waited for by the queries on prompt patterns, by those under a lease, and
/// by the acquisition that names a pattern, and by nothing else.
pub proof fn memory_is_waited_for(request: SocketRequest, consults: bool)
    requires
        call_ensures(TerminalControlConnection::consults_signal_state, (&request,), consults),
    ensures
        consults <==> (request matches SocketRequest::Signal(signal) && {
            ||| signal.query() is RegisterPromptPattern
            ||| signal.query() is UnregisterPromptPattern
            ||| signal.query() is ListPromptPatterns
            ||| signal.query() is ReleaseInputGate
            ||| signal.query() is WriteInjection
            ||| signal.query() matches Query::AcquireInputGate(acquire)
                && acquire.prompt_pattern_identifier_selection is Some
        }),
{
}

/// Where the memory is lost, the connection that needs it fails and says so.
pub proof fn lost_memory_fails_the_connection(step: ControlStep)
    requires
        call_ensures(TerminalControlConnection::fail_on_poisoned_signal_state, (), step),
    ensures
        ({
            &&& step matches ControlStep::Finish(Err(error))
            &&& error.kind is Other
            &&& error.message@ == "terminal signal control state lock poisoned"@
        }),
{
}

} // verus!
