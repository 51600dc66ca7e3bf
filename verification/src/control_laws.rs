//! What holds of the control plane from one request to the next.
use vstd::prelude::*;
use vstd::utf8::*;
use crate::control::{
    answers_query, attach_refusal, begins_acquisition, begins_injection, begins_release,
    consults_memory, hands_over, serves,
};
use crate::control_state::{lease_key, SignalMemory};
use crate::control_steps::{
    advances, after_reply, injection_rejected, pattern_in, responds, signal_lease_of, steps_left,
    streams, terminal_lease_of, AcceptPurpose, ControlStep, OpenGatePurpose, OpenGateStep,
    SnapshotPurpose,
};
use crate::cursor::Outcome;
use crate::failure::{failure, ConnectionError, ErrorKind};
use crate::prompt::{low_bytes, prompt_state};
use crate::reply::{attach_outcome, WireReply};
use crate::reply_laws::reply_survives_the_wire;
use crate::request::SocketRequest;
use crate::signal::{
    AcquireInputGateRequest, InjectionRejectionReason, Lease, PromptState, Query,
    RegisterPromptPatternRequest, ReleaseInputGateRequest, WriteInjectionRequest,
};
use crate::terminal::{InputSource, TerminalInputGateLease};
use crate::text::encoded_length_is_bounded;

verus! {

/// A lease comes back from the Signal contract as it went in, and the other way
/// round: no two leases of the terminal look the same to a client.
pub proof fn leases_translate_both_ways(lease: TerminalInputGateLease, signal: Lease)
    ensures
        terminal_lease_of(signal_lease_of(lease)) == lease,
        signal_lease_of(terminal_lease_of(signal)) == signal,
        lease_key(signal_lease_of(lease)) == lease.sequence.value,
{
    let value = lease.sequence.value;
    assert((value as i64) as u64 == value) by (bit_vector);
    let identifier = signal.input_gate_lease_identifier;
    assert((identifier as u64) as i64 == identifier) by (bit_vector);
}

/// An attach on the control socket reaches the client as a refused connection
/// that names the control socket. It leaves the memory alone, and the connection
/// fails, whether the client took the reply or not.
pub proof fn attach_is_refused_on_the_control_plane(
    step: ControlStep,
    before: SignalMemory,
    after: SignalMemory,
    written: Result<(), ConnectionError>,
    rest: Seq<u8>,
)
    requires
        serves(step, SocketRequest::Attach, before, after),
    ensures
        step matches ControlStep::Reply(sent) && attach_outcome(sent.bytes@ + rest) == (Outcome::<
            (),
        >::Refused {
            failure: failure(ErrorKind::ConnectionRefused, attach_refusal()),
            consumed: sent.bytes@.len(),
        }) && after_reply(sent.after, written) matches ControlStep::Finish(Err(_)),
        after == before,
{
    reveal_strlit("control socket does not accept viewer attach; use the data socket");
    encoded_length_is_bounded(attach_refusal());
    reply_survives_the_wire(WireReply::AttachRejected(attach_refusal()), rest);
}

/// Injected input needs a lease that was given out, and the prompt state that
/// it was given out with decides: a dirty prompt rejects every injection under
/// the lease, and any other lets it through to the terminal.
pub proof fn prompt_state_of_the_lease_decides_injection(
    memory: SignalMemory,
    lease: TerminalInputGateLease,
    state: PromptState,
    injection: WriteInjectionRequest,
    step: ControlStep,
)
    requires
        injection.lease == signal_lease_of(lease),
        begins_injection(step, injection, memory.recording(lease.sequence.value, state)),
    ensures
        state is Dirty ==> responds(
            step,
            injection_rejected(injection.terminal, InjectionRejectionReason::DirtyPrompt),
        ),
        !(state is Dirty) ==> hands_over(
            step,
            low_bytes(injection.input_bytes@),
            InputSource::Programmatic,
            AcceptPurpose::Injection { terminal: injection.terminal },
        ),
{
    leases_translate_both_ways(lease, injection.lease);
}

/// A lease that was given out goes back to the terminal as the terminal gave it.
pub proof fn acquired_lease_is_given_back(
    memory: SignalMemory,
    lease: TerminalInputGateLease,
    state: PromptState,
    release: ReleaseInputGateRequest,
    step: ControlStep,
)
    requires
        release.lease == signal_lease_of(lease),
        begins_release(step, release, memory.recording(lease.sequence.value, state)),
    ensures
        step == ControlStep::OpenGate(
            OpenGateStep {
                lease,
                purpose: OpenGatePurpose::Signal {
                    terminal: release.terminal,
                    lease: release.lease,
                },
            },
        ),
{
    leases_translate_both_ways(lease, release.lease);
}

/// A lease that has been released is unknown, whichever way it was released: it
/// can be used neither for an injection nor for another release.
pub proof fn released_lease_is_unknown(
    memory: SignalMemory,
    lease: TerminalInputGateLease,
    injection: WriteInjectionRequest,
    injecting: ControlStep,
    release: ReleaseInputGateRequest,
    releasing: ControlStep,
)
    requires
        injection.lease == signal_lease_of(lease),
        begins_injection(injecting, injection, memory.releasing(lease.sequence.value)),
        release.lease == signal_lease_of(lease),
        begins_release(releasing, release, memory.releasing(lease.sequence.value)),
    ensures
        responds(
            injecting,
            injection_rejected(injection.terminal, InjectionRejectionReason::UnknownLease),
        ),
        responds(
            releasing,
            injection_rejected(release.terminal, InjectionRejectionReason::UnknownLease),
        ),
{
    leases_translate_both_ways(lease, injection.lease);
}

/// A client that acquires the input gate with the identifier it was given has the
/// transcript held against the pattern that it registered.
pub proof fn registered_pattern_is_selected(
    registration: RegisterPromptPatternRequest,
    registering: ControlStep,
    before: SignalMemory,
    after: SignalMemory,
    acquire: AcquireInputGateRequest,
    acquiring: ControlStep,
)
    requires
        answers_query(
            registering,
            Query::RegisterPromptPattern(registration),
            before,
            after,
        ),
        acquire.prompt_pattern_identifier_selection matches Some(identifier) && identifier@
            == registering->Archive_0.response->PromptPatternRegistered_0.pattern_identifier@,
        begins_acquisition(acquiring, acquire, after),
    ensures
        acquiring matches ControlStep::Snapshot(asked) && asked.purpose matches
            SnapshotPurpose::PromptState { terminal, pattern } && terminal == acquire.terminal
            && pattern_in(pattern) == Some(registration.pattern@),
{
}

/// A pattern that is not registered makes the prompt dirty: a lease acquired with
/// it lets no injection through.
pub proof fn unknown_pattern_makes_the_prompt_dirty(
    memory: SignalMemory,
    identifier: Seq<char>,
    transcript: Seq<u8>,
)
    requires
        !memory.prompt_patterns.contains_key(identifier),
    ensures
        prompt_state(memory.selected(identifier), transcript) == Ok::<
            PromptState,
            crate::failure::Failure,
        >(PromptState::Dirty(transcript.len() as i64)),
{
}

/// Beginning to serve a request changes what the control plane remembers only
/// where a pattern is registered or unregistered, and leaves the leases alone.
pub proof fn requests_leave_the_leases_alone(
    step: ControlStep,
    request: SocketRequest,
    before: SignalMemory,
    after: SignalMemory,
)
    requires
        serves(step, request, before, after),
    ensures
        after.signal_leases == before.signal_leases,
        after != before ==> (request matches SocketRequest::Signal(signal) && (
        signal.query() is RegisterPromptPattern || signal.query() is UnregisterPromptPattern)),
{
}

/// A request that does not consult the memory is served alike under any.
pub proof fn unconsulted_memory_does_not_matter(
    step: ControlStep,
    request: SocketRequest,
    before: SignalMemory,
    after: SignalMemory,
    other: SignalMemory,
)
    requires
        !consults_memory(request),
        serves(step, request, before, after),
    ensures
        after == before,
        serves(step, request, other, other),
{
}

/// Every request gets an answer in four steps at most, but for the two that
/// subscribe to a stream.
pub proof fn requests_are_answered_or_streamed(
    step: ControlStep,
    request: SocketRequest,
    before: SignalMemory,
    after: SignalMemory,
)
    requires
        serves(step, request, before, after),
    ensures
        streams(step) <==> (request is SubscribeFromBeginning || (
        request matches SocketRequest::Signal(signal)
            && signal.query() is SubscribeTerminalWorkerLifecycle)),
        0 < steps_left(step) <= 4,
{
}

/// A connection that is no stream ends: each step leaves fewer to come.
pub proof fn connection_ends(steps: Seq<ControlStep>)
    requires
        steps.len() >= 1,
        !streams(steps[0]),
        forall|at: int|
            0 <= at < steps.len() - 1 ==> #[trigger] advances(steps[at], steps[at + 1]),
    ensures
        steps.len() <= steps_left(steps[0]) + 1,
    decreases steps.len(),
{
    if steps.len() > 1 {
        let rest = steps.skip(1);
        assert(advances(steps[0], steps[0int + 1]));
        assert forall|at: int| 0 <= at < rest.len() - 1 implies #[trigger] advances(
            rest[at],
            rest[at + 1],
        ) by {
            assert(advances(steps[at + 1], steps[at + 1 + 1]));
        }
        connection_ends(rest);
    }
}

} // verus!
