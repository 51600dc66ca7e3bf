//! What holds between the terminal's input gate and what the control plane
//! remembers of its leases, where each closing and each opening is taken to its
//! end before the next one.
use std::path::PathBuf;
use vstd::prelude::*;
use crate::client::{
    cut_off, exchanges, gives_failure, ClientStep, Exchange, ExchangePhase,
};
use crate::control::begins_injection;
use crate::control_state::{
    lease_numbers_are_their_own, SignalMemory, TerminalSignalControlState,
};
use crate::control_steps::{
    after_closing, after_opening, fails, responds, signal_lease_of, terminal_lease_of,
    CloseGatePurpose, ControlStep, OpenGatePurpose, OpenGateStep,
};
use crate::cursor::Outcome;
use crate::failure::{failure, ErrorKind};
use crate::reply::{gate_lease_outcome, gate_release_outcome, WireReply};
use crate::reply_laws::reply_survives_the_wire;
use crate::request::WireRequest;
use crate::signal::{GateBusyReply, Lease, Response, WriteInjectionRequest};
use crate::terminal::{
    gate_lease, InputSource, TerminalCellError, TerminalFailure, TerminalInput,
    TerminalInputGateLease, TerminalInputGateRelease,
};

verus! {

/// Whether a terminal closed its input gate as it should: an open one, under a
/// lease. One that is closed stays closed under its lease, which is named. A
/// terminal that fails leaves its gate as it is.
pub open spec fn closes(
    gate: Option<TerminalInputGateLease>,
    closed: Result<TerminalInputGateLease, TerminalFailure>,
    after: Option<TerminalInputGateLease>,
) -> bool {
    match closed {
        Ok(lease) => gate is None && after == Some(lease),
        Err(refusal) => {
            &&& after == gate
            &&& match gate {
                Some(holder) => refusal.error == TerminalCellError::InputGateAlreadyClosed(holder)
                    || refusal.error == TerminalCellError::Other,
                None => refusal.error == TerminalCellError::Other,
            }
        },
    }
}

/// Whether a terminal opened its input gate as it should: for the lease that it
/// is closed under, and for no other.
pub open spec fn opens(
    gate: Option<TerminalInputGateLease>,
    lease: TerminalInputGateLease,
    opened: Result<TerminalInputGateRelease, TerminalFailure>,
    after: Option<TerminalInputGateLease>,
) -> bool {
    match opened {
        Ok(release) => gate == Some(lease) && release.lease == lease && after is None,
        Err(refusal) => {
            &&& after == gate
            &&& refusal.error == TerminalCellError::StaleInputGateLease ==> gate != Some(lease)
        },
    }
}

/// Whether the lease that an opening is for is the one that the terminal is
/// handed.
pub open spec fn is_for(purpose: OpenGatePurpose, lease: TerminalInputGateLease) -> bool {
    purpose matches OpenGatePurpose::Signal { lease: signal, .. } ==> lease == terminal_lease_of(
        signal,
    )
}

/// Whether no lease is remembered but that under which the input gate is closed.
pub open spec fn holder_alone_is_remembered(
    memory: SignalMemory,
    gate: Option<TerminalInputGateLease>,
) -> bool {
    forall|key: u64| #[trigger]
        memory.signal_leases.contains_key(key) ==> gate == Some(gate_lease(key))
}

/// A control plane that has served nobody remembers no lease.
pub proof fn nothing_is_remembered_at_first(gate: Option<TerminalInputGateLease>)
    ensures
        holder_alone_is_remembered(SignalMemory::empty(), gate),
{
}

/// Closing the input gate leaves at most its holder remembered.
pub proof fn closing_keeps_to_the_holder(
    gate: Option<TerminalInputGateLease>,
    closed: Result<TerminalInputGateLease, TerminalFailure>,
    closed_gate: Option<TerminalInputGateLease>,
    purpose: CloseGatePurpose,
    step: ControlStep,
    before: SignalMemory,
    after: SignalMemory,
)
    requires
        holder_alone_is_remembered(before, gate),
        closes(gate, closed, closed_gate),
        after_closing(purpose, closed, step, before, after),
    ensures
        holder_alone_is_remembered(after, closed_gate),
{
}

/// Opening the input gate leaves at most its holder remembered: nobody, where it
/// is open.
pub proof fn opening_keeps_to_the_holder(
    gate: Option<TerminalInputGateLease>,
    lease: TerminalInputGateLease,
    opened: Result<TerminalInputGateRelease, TerminalFailure>,
    opened_gate: Option<TerminalInputGateLease>,
    purpose: OpenGatePurpose,
    step: ControlStep,
    before: SignalMemory,
    after: SignalMemory,
)
    requires
        holder_alone_is_remembered(before, gate),
        is_for(purpose, lease),
        opens(gate, lease, opened, opened_gate),
        after_opening(purpose, opened, step, before, after),
    ensures
        holder_alone_is_remembered(after, opened_gate),
        opened is Ok ==> after.signal_leases.dom() =~= Set::<u64>::empty(),
{
}

/// Input is injected only under the lease that holds the input gate closed.
pub proof fn injection_needs_the_holder(
    gate: Option<TerminalInputGateLease>,
    memory: SignalMemory,
    injection: WriteInjectionRequest,
    step: ControlStep,
)
    requires
        holder_alone_is_remembered(memory, gate),
        begins_injection(step, injection, memory),
        step is Accept,
    ensures
        gate == Some(terminal_lease_of(injection.lease)),
{
}

/// What a client has to read from a step.
pub open spec fn written_by(step: ControlStep) -> Seq<u8> {
    match step {
        ControlStep::Reply(reply) => reply.bytes@,
        _ => Seq::empty(),
    }
}

/// Of two clients that close the input gate one after the other, the second gets
/// no lease. The terminal names the first lease as the holder, unless it fails,
/// and the connection fails with what the terminal says. Nothing is written: the
/// client waits for the first byte of a reply, and fails once the connection has
/// ended. The input gate stays closed under the first lease, what is remembered
/// stays as it is, and the first lease is not stale.
pub proof fn second_client_gets_no_lease(
    first: TerminalInputGateLease,
    closed: Result<TerminalInputGateLease, TerminalFailure>,
    gate: Option<TerminalInputGateLease>,
    step: ControlStep,
    before: SignalMemory,
    after: SignalMemory,
    socket: PathBuf,
    verb: ClientStep<TerminalInputGateLease>,
    exchange: Exchange,
    exchanged: Exchange,
    opened: Result<TerminalInputGateRelease, TerminalFailure>,
    opened_gate: Option<TerminalInputGateLease>,
)
    requires
        closes(Some(first), closed, gate),
        after_closing(CloseGatePurpose::Lease, closed, step, before, after),
        exchange.phase == ExchangePhase::Sent || exchange.phase == ExchangePhase::Ended,
        exchange.received.is_prefix_of(written_by(step)),
        exchanges(
            verb,
            socket,
            WireRequest::CloseHumanInput,
            gate_lease_outcome(exchange.received),
            exchange,
            exchanged,
        ),
        opens(gate, first, opened, opened_gate),
    ensures
        closed matches Err(refusal) && (refusal.error
            == TerminalCellError::InputGateAlreadyClosed(first) || refusal.error
            == TerminalCellError::Other) && fails(
            step,
            failure(ErrorKind::BrokenPipe, refusal.text@),
        ),
        exchange.phase == ExchangePhase::Sent ==> verb == ClientStep::<
            TerminalInputGateLease,
        >::Receive(1),
        exchange.phase == ExchangePhase::Ended ==> gives_failure(verb, cut_off()),
        gate == Some(first),
        after == before,
        !(opened matches Err(refusal) && refusal.error == TerminalCellError::StaleInputGateLease),
{
    assert(exchange.received.len() == 0);
}

/// Whether a step sends a lease that a client reads.
pub open spec fn sends_lease(
    step: ControlStep,
    lease: TerminalInputGateLease,
    rest: Seq<u8>,
) -> bool {
    step matches ControlStep::Reply(sent) && gate_lease_outcome(sent.bytes@ + rest) == (
    Outcome::Complete { value: lease, consumed: sent.bytes@.len() })
}

/// Whether a step sends a release that a client reads.
pub open spec fn sends_release(
    step: ControlStep,
    release: TerminalInputGateRelease,
    rest: Seq<u8>,
) -> bool {
    step matches ControlStep::Reply(sent) && gate_release_outcome(sent.bytes@ + rest) == (
    Outcome::Complete { value: release, consumed: sent.bytes@.len() })
}

/// A second closing is refused and leaves nothing behind, the release of the first
/// lease opens the input gate, and a third closing finds it open: unless the
/// terminal fails, the client gets a lease, which is not stale when it is given
/// back.
pub proof fn released_input_gate_is_closed_again(
    first: TerminalInputGateLease,
    second: Result<TerminalInputGateLease, TerminalFailure>,
    refused_gate: Option<TerminalInputGateLease>,
    refused: ControlStep,
    before: SignalMemory,
    still: SignalMemory,
    release: TerminalInputGateRelease,
    open_gate: Option<TerminalInputGateLease>,
    released: ControlStep,
    after: SignalMemory,
    third: Result<TerminalInputGateLease, TerminalFailure>,
    closed_gate: Option<TerminalInputGateLease>,
    closed: ControlStep,
    later: SignalMemory,
    given_back: Result<TerminalInputGateRelease, TerminalFailure>,
    last_gate: Option<TerminalInputGateLease>,
    rest: Seq<u8>,
)
    requires
        closes(Some(first), second, refused_gate),
        after_closing(CloseGatePurpose::Lease, second, refused, before, still),
        opens(refused_gate, first, Ok(release), open_gate),
        after_opening(OpenGatePurpose::Release, Ok(release), released, still, after),
        closes(open_gate, third, closed_gate),
        after_closing(CloseGatePurpose::Lease, third, closed, after, later),
        third matches Ok(lease) ==> opens(closed_gate, lease, given_back, last_gate),
    ensures
        second is Err,
        still == before,
        release.lease == first,
        open_gate is None,
        sends_release(released, release, rest),
        third matches Err(refusal) ==> refusal.error == TerminalCellError::Other,
        third matches Ok(lease) ==> closed_gate == Some(lease) && sends_lease(closed, lease, rest)
            && !(given_back matches Err(refusal) && refusal.error
            == TerminalCellError::StaleInputGateLease),
        later == after,
{
    reply_survives_the_wire(WireReply::GateRelease(release), rest);
    if third is Ok {
        reply_survives_the_wire(WireReply::GateLease(third->Ok_0), rest);
    }
}

/// A terminal with an input gate, as laws speak of it.
pub ghost struct GatedTerminal {
    pub gate: Option<TerminalInputGateLease>,
    /// What viewers have typed behind the closed input gate.
    pub held: Seq<u8>,
    /// What has reached the terminal's process.
    pub typed: Seq<u8>,
}

impl GatedTerminal {
    /// The terminal once it has taken input as it should: a closed input gate holds
    /// back what a viewer types, and all else goes through.
    pub open spec fn taking(self, input: TerminalInput) -> GatedTerminal {
        if self.gate is Some && input.source == InputSource::Viewer {
            GatedTerminal { held: self.held + input.bytes@, ..self }
        } else {
            GatedTerminal { typed: self.typed + input.bytes@, ..self }
        }
    }

    /// The terminal once it has taken inputs, one behind the other.
    pub open spec fn taking_all(self, inputs: Seq<TerminalInput>) -> GatedTerminal
        decreases inputs.len(),
    {
        if inputs.len() == 0 {
            self
        } else {
            self.taking_all(inputs.drop_last()).taking(inputs.last())
        }
    }

    /// The terminal once its input gate is open again: what was held goes through.
    pub open spec fn opened(self) -> GatedTerminal {
        GatedTerminal { gate: None, held: Seq::empty(), typed: self.typed + self.held }
    }

    /// Whether the terminal opens its input gate as it should, and counts what it
    /// had held.
    pub open spec fn releases(
        self,
        lease: TerminalInputGateLease,
        release: TerminalInputGateRelease,
    ) -> bool {
        &&& opens(self.gate, lease, Ok(release), self.opened().gate)
        &&& release.held_byte_count == self.held.len()
    }
}

/// The bytes of the inputs from a source, in their order.
pub open spec fn bytes_from(inputs: Seq<TerminalInput>, source: InputSource) -> Seq<u8>
    decreases inputs.len(),
{
    if inputs.len() == 0 {
        Seq::empty()
    } else {
        let before = bytes_from(inputs.drop_last(), source);
        if inputs.last().source == source {
            before + inputs.last().bytes@
        } else {
            before
        }
    }
}

proof fn closed_gate_sorts_input(terminal: GatedTerminal, inputs: Seq<TerminalInput>)
    requires
        terminal.gate is Some,
    ensures
        terminal.taking_all(inputs).gate == terminal.gate,
        terminal.taking_all(inputs).held == terminal.held + bytes_from(inputs, InputSource::Viewer),
        terminal.taking_all(inputs).typed == terminal.typed + bytes_from(
            inputs,
            InputSource::Programmatic,
        ),
    decreases inputs.len(),
{
    if inputs.len() > 0 {
        closed_gate_sorts_input(terminal, inputs.drop_last());
    }
    assert(terminal.taking_all(inputs).held =~= terminal.held + bytes_from(
        inputs,
        InputSource::Viewer,
    ));
    assert(terminal.taking_all(inputs).typed =~= terminal.typed + bytes_from(
        inputs,
        InputSource::Programmatic,
    ));
}

/// Behind a closed input gate, programmatic input goes through and is not counted;
/// what viewers type is held, reaches the terminal's process behind it once the
/// lease is given back, and is what the client is told the count of.
pub proof fn held_input_is_counted_and_comes_last(
    terminal: GatedTerminal,
    lease: TerminalInputGateLease,
    inputs: Seq<TerminalInput>,
    release: TerminalInputGateRelease,
    step: ControlStep,
    before: SignalMemory,
    after: SignalMemory,
    rest: Seq<u8>,
)
    requires
        terminal.gate == Some(lease),
        terminal.held.len() == 0,
        terminal.taking_all(inputs).releases(lease, release),
        after_opening(OpenGatePurpose::Release, Ok(release), step, before, after),
    ensures
        release.lease == lease,
        release.held_byte_count == bytes_from(inputs, InputSource::Viewer).len(),
        terminal.taking_all(inputs).opened().typed == terminal.typed + bytes_from(
            inputs,
            InputSource::Programmatic,
        ) + bytes_from(inputs, InputSource::Viewer),
        sends_release(step, release, rest),
{
    closed_gate_sorts_input(terminal, inputs);
    assert(terminal.held + bytes_from(inputs, InputSource::Viewer) =~= bytes_from(
        inputs,
        InputSource::Viewer,
    ));
    reply_survives_the_wire(WireReply::GateRelease(release), rest);
}

/// So it is for a Signal client: it is told of the terminal and the lease that it named, and
/// the count in the answer is that of the bytes that viewers typed behind the closed input
/// gate. The lease is then unknown, and every other lease is as it was.
pub proof fn held_input_is_counted_for_a_signal_client(
    terminal: GatedTerminal,
    asked: OpenGateStep,
    name: String,
    lease: Lease,
    inputs: Seq<TerminalInput>,
    release: TerminalInputGateRelease,
    state: &mut TerminalSignalControlState,
    step: ControlStep,
    other: Lease,
)
    requires
        asked.purpose == (OpenGatePurpose::Signal { terminal: name, lease }),
        terminal.gate == Some(asked.lease),
        terminal.held.len() == 0,
        terminal.taking_all(inputs).releases(asked.lease, release),
        bytes_from(inputs, InputSource::Viewer).len() <= i64::MAX,
        call_ensures(OpenGateStep::resume, (asked, Ok(release), state), step),
        other != lease,
    ensures
        ({
            &&& step matches ControlStep::Archive(archive)
            &&& archive.after is Finish
            &&& archive.response matches Response::GateReleased(released)
            &&& released.terminal@ == name@
            &&& released.lease == lease
            &&& released.cached_human_bytes == bytes_from(inputs, InputSource::Viewer).len()
        }),
        terminal.taking_all(inputs).opened().typed == terminal.typed + bytes_from(
            inputs,
            InputSource::Programmatic,
        ) + bytes_from(inputs, InputSource::Viewer),
        final(state)@.lease_state(lease) is None,
        final(state)@.lease_state(other) == old(state)@.lease_state(other),
{
    closed_gate_sorts_input(terminal, inputs);
    assert(terminal.held + bytes_from(inputs, InputSource::Viewer) =~= bytes_from(
        inputs,
        InputSource::Viewer,
    ));
    lease_numbers_are_their_own(lease, other);
}

/// Of two clients that acquire the input gate one after the other, the second is
/// told the lease of the first, and what is remembered stays as it is.
pub proof fn second_client_is_told_the_holder(
    holder: TerminalInputGateLease,
    refusal: TerminalFailure,
    purpose: CloseGatePurpose,
    step: ControlStep,
    before: SignalMemory,
    after: SignalMemory,
)
    requires
        refusal.error == TerminalCellError::InputGateAlreadyClosed(holder),
        purpose is Signal,
        after_closing(purpose, Err(refusal), step, before, after),
    ensures
        responds(
            step,
            Response::GateBusy(
                GateBusyReply {
                    terminal: purpose->terminal,
                    current_holder: signal_lease_of(holder).input_gate_lease_identifier,
                },
            ),
        ),
        after == before,
{
}

} // verus!
