//! What holds between a client and the daemon behind the sockets.
use std::path::PathBuf;
use vstd::prelude::*;
use vstd::utf8::*;
use crate::client::{
    observation_outcome, sends, ClientStep, Exchange, SocketExchange, TerminalCellSocketClient,
};
use crate::control::{hands_over, serves};
use crate::control_state::SignalMemory;
use crate::control_steps::{replies, AcceptPurpose, ControlStep};
use crate::cursor::{FrameKind, Outcome, ReadInterruption, MAXIMUM_FRAME_LENGTH};
use crate::reply::{
    attach_outcome, gate_lease_outcome, gate_release_outcome, reply_bytes, SocketReplyReader,
    WireReply,
};
use crate::reply_laws::{readable, reads_as, reply_survives_the_wire};
use crate::request::{request_bytes, request_outcome, SocketRequest, WireRequest};
use crate::request_laws::{payload_is_read_back, prefixed, request_survives_the_wire};
use crate::terminal::{
    InputSource, TerminalInputGateLease, TerminalInputGateRelease, TerminalSize,
};
use crate::text::utf8_complaint;

verus! {

/// The daemon reads the request that a client sends, and leaves what follows it on
/// the connection.
pub proof fn daemon_reads_what_a_client_sends<T>(
    step: ClientStep<T>,
    request: WireRequest,
    before: Exchange,
    after: Exchange,
    rest: Seq<u8>,
)
    requires
        sends(step, request, before, after),
        crate::request_laws::readable(request),
    ensures
        step matches ClientStep::Send(bytes) && request_outcome(bytes@ + rest) == (
        Outcome::Complete { value: request, consumed: bytes@.len() }),
{
    request_survives_the_wire(request, rest);
}

/// Input that a client sends reaches the terminal unchanged, and marked as what it
/// was sent as: programmatic, or a viewer's.
pub proof fn input_keeps_its_source(
    bytes: Seq<u8>,
    source: InputSource,
    request: SocketRequest,
    step: ControlStep,
    before: SignalMemory,
    after: SignalMemory,
    rest: Seq<u8>,
)
    requires
        bytes.len() <= MAXIMUM_FRAME_LENGTH,
        request_outcome(request_bytes(WireRequest::Input { bytes, source }) + rest) matches
            Outcome::Complete { value, .. } && request@ == value,
        serves(step, request, before, after),
    ensures
        hands_over(step, bytes, source, AcceptPurpose::Input),
{
    request_survives_the_wire(WireRequest::Input { bytes, source }, rest);
}

/// A client reads the reply that the control plane sends.
pub proof fn client_reads_what_the_control_plane_replies(
    step: ControlStep,
    reply: WireReply,
    rest: Seq<u8>,
)
    requires
        replies(step, reply),
        crate::reply_laws::readable(reply),
    ensures
        step matches ControlStep::Reply(sent) && reads_as(
            sent.bytes@ + rest,
            reply,
            sent.bytes@.len(),
        ),
{
    reply_survives_the_wire(reply, rest);
}

/// A text on the terminal's workers reaches the client as it is.
pub proof fn observation_survives_the_wire(text: Seq<char>, rest: Seq<u8>)
    requires
        encode_utf8(text).len() <= MAXIMUM_FRAME_LENGTH,
    ensures
        observation_outcome(reply_bytes(WireReply::Snapshot(encode_utf8(text))) + rest) == (
        Outcome::Complete {
            value: text,
            consumed: reply_bytes(WireReply::Snapshot(encode_utf8(text))).len(),
        }),
{
    payload_is_read_back(encode_utf8(text), FrameKind::Reply, rest);
    encode_utf8_valid_utf8(text);
    encode_utf8_decode_utf8(text);
    assert(reply_bytes(WireReply::Snapshot(encode_utf8(text))) =~= prefixed(
        encode_utf8(text),
        FrameKind::Reply,
    ));
}

/// The lease of a closed input gate comes back to the daemon as the daemon gave
/// it, and so does the count of what the input gate had held to the client.
pub proof fn lease_comes_back_unchanged(
    lease: TerminalInputGateLease,
    release: TerminalInputGateRelease,
    rest: Seq<u8>,
)
    ensures
        gate_lease_outcome(reply_bytes(WireReply::GateLease(lease)) + rest) matches
            Outcome::Complete { value, .. } && request_outcome(
            request_bytes(WireRequest::OpenHumanInput(value)) + rest,
        ) == (Outcome::Complete {
            value: WireRequest::OpenHumanInput(lease),
            consumed: request_bytes(WireRequest::OpenHumanInput(value)).len(),
        }),
        gate_release_outcome(reply_bytes(WireReply::GateRelease(release)) + rest) matches
            Outcome::Complete { value, .. } && value == release,
{
    reply_survives_the_wire(WireReply::GateLease(lease), rest);
    request_survives_the_wire(WireRequest::OpenHumanInput(lease), rest);
    reply_survives_the_wire(WireReply::GateRelease(release), rest);
}

/// What follows the handshake on an attached connection is raw: the client takes
/// the handshake and not one byte more, and the next bytes are the transcript.
pub proof fn attached_stream_begins_with_the_replay(transcript: Seq<u8>)
    ensures
        ({
            let stream = reply_bytes(WireReply::AttachAccepted) + transcript;
            attach_outcome(stream) == (Outcome::Complete { value: (), consumed: 1 })
                && stream.skip(1) == transcript
        }),
{
    reply_survives_the_wire(WireReply::AttachAccepted, transcript);
    assert((reply_bytes(WireReply::AttachAccepted) + transcript).skip(1) =~= transcript);
}

/// Whether an exchange is taken up to its reply as it should be: where there is no
/// connection the socket is connected to, and on the connection the bytes are sent. Nothing
/// that was received is taken.
pub open spec fn reaches<T>(
    step: ClientStep<T>,
    socket: PathBuf,
    bytes: Seq<u8>,
    before: Exchange,
    after: Exchange,
) -> bool {
    &&& before.phase is Unconnected ==> {
        &&& step matches ClientStep::Connect(path)
        &&& *path == socket
        &&& after.phase is Connected
        &&& after.received == before.received
    }
    &&& before.phase is Connected ==> {
        &&& step matches ClientStep::Send(sent)
        &&& sent@ == bytes
        &&& after.phase is Sent
        &&& after.received == before.received
    }
}

/// Whether an exchange waits for the rest of a reply: for some bytes, `left` at most, as long
/// as the connection lasts, and with a failure once it has ended. Nothing is taken.
pub open spec fn waits<T>(
    step: ClientStep<T>,
    left: nat,
    before: Exchange,
    after: Exchange,
) -> bool {
    &&& after == before
    &&& if before.phase is Ended {
        &&& step matches ClientStep::Done(Err(error))
        &&& error.kind is UnexpectedEof
        &&& error.message@ == "failed to fill whole buffer"@
    } else {
        step matches ClientStep::Receive(count) && 1 <= count <= left
    }
}

/// Whether an exchange is past its request.
pub open spec fn is_answered(exchange: Exchange) -> bool {
    exchange.phase is Sent || exchange.phase is Ended
}

/// Whether an exchange goes as the read of its reply does: it takes what the read takes,
/// waits where bytes are due, and fails as the read fails.
pub open spec fn goes_as_read<T, R>(
    step: ClientStep<T>,
    result: Result<R, ReadInterruption>,
    before: Exchange,
    after: Exchange,
    left: Seq<u8>,
) -> bool {
    &&& after.phase == before.phase
    &&& after.received == left
    &&& match result {
        Ok(_) => step is Done,
        Err(ReadInterruption::NeedBytes(count)) => waits(step, count as nat, before, after),
        Err(ReadInterruption::Failed(error)) => {
            &&& step matches ClientStep::Done(Err(same))
            &&& same.kind == error.kind
            &&& same.message@ == error.message@
        },
    }
}

/// An exchange begins without a connection and without bytes; bytes that are received stand
/// behind those that are there. The end of the connection counts once the request is sent.
pub proof fn exchange_takes_what_comes(
    fresh: SocketExchange,
    receiving: &mut SocketExchange,
    bytes: &[u8],
    ending: &mut SocketExchange,
)
    requires
        call_ensures(SocketExchange::new, (), fresh),
        call_ensures(SocketExchange::receive, (receiving, bytes), ()),
        call_ensures(SocketExchange::end, (ending,), ()),
    ensures
        fresh@.phase is Unconnected && fresh@.received.len() == 0,
        final(receiving)@.phase == old(receiving)@.phase,
        final(receiving)@.received == old(receiving)@.received + bytes@,
        final(ending)@.received == old(ending)@.received,
        old(ending)@.phase is Sent ==> final(ending)@.phase is Ended,
        !(old(ending)@.phase is Sent) ==> final(ending)@.phase == old(ending)@.phase,
{
}

/// A client has the sockets that it was made with, a copy has those of the client, and the
/// client names them.
pub proof fn client_keeps_its_sockets(
    control: PathBuf,
    data: PathBuf,
    both: TerminalCellSocketClient,
    one: TerminalCellSocketClient,
    client: TerminalCellSocketClient,
    copy: TerminalCellSocketClient,
    control_path: &PathBuf,
    data_path: Option<&PathBuf>,
)
    requires
        call_ensures(<TerminalCellSocketClient as Clone>::clone, (&client,), copy),
        call_ensures(TerminalCellSocketClient::new, (control, data), both),
        call_ensures(TerminalCellSocketClient::for_control_only, (control,), one),
        call_ensures(TerminalCellSocketClient::control_socket, (&client,), control_path),
        call_ensures(TerminalCellSocketClient::data_socket, (&client,), data_path),
    ensures
        both.control_path() == control,
        both.data_path() == Some(data),
        one.control_path() == control,
        one.data_path() is None,
        copy.control_path() == client.control_path(),
        copy.data_path() == client.data_path(),
        *control_path == client.control_path(),
        data_path is Some <==> client.data_path() is Some,
        data_path matches Some(path) ==> client.data_path() == Some(*path),
{
}

/// A capture asks for the transcript and gives the one that is read from the reply.
pub proof fn capture_gives_the_transcript(
    client: TerminalCellSocketClient,
    exchange: &mut SocketExchange,
    step: ClientStep<Vec<u8>>,
    reader: &mut SocketReplyReader,
    result: Result<Vec<u8>, ReadInterruption>,
)
    requires
        call_ensures(
            TerminalCellSocketClient::capture,
            (&client, exchange),
            step,
        ),
        call_ensures(SocketReplyReader::read_snapshot, (reader,), result),
    ensures
        reaches(
            step,
            client.control_path(),
            request_bytes(WireRequest::Capture),
            old(exchange)@,
            final(exchange)@,
        ),
        is_answered(old(exchange)@) && old(reader)@ == old(exchange)@.received ==> {
            &&& goes_as_read(step, result, old(exchange)@, final(exchange)@, final(reader)@)
            &&& result matches Ok(read) ==> (step matches ClientStep::Done(Ok(given)) && given@
                == read@)
        },
{
}

/// Programmatic input is sent byte for byte and marked as such, and is done once an
/// acceptance is read.
pub proof fn programmatic_input_is_sent_whole(
    client: TerminalCellSocketClient,
    bytes: &[u8],
    exchange: &mut SocketExchange,
    step: ClientStep<()>,
    reader: &mut SocketReplyReader,
    result: Result<(), ReadInterruption>,
)
    requires
        call_ensures(
            TerminalCellSocketClient::send_programmatic_input,
            (&client, bytes, exchange),
            step,
        ),
        call_ensures(SocketReplyReader::read_acceptance, (reader,), result),
    ensures
        reaches(
            step,
            client.control_path(),
            request_bytes(
                WireRequest::Input { bytes: bytes@, source: InputSource::Programmatic },
            ),
            old(exchange)@,
            final(exchange)@,
        ),
        is_answered(old(exchange)@) && old(reader)@ == old(exchange)@.received ==> {
            &&& goes_as_read(step, result, old(exchange)@, final(exchange)@, final(reader)@)
            &&& result matches Ok(()) ==> (step matches ClientStep::Done(Ok(_)))
        },
{
}

/// What a viewer types is sent byte for byte and marked as such, and is done once an
/// acceptance is read.
pub proof fn viewer_input_is_sent_whole(
    client: TerminalCellSocketClient,
    bytes: &[u8],
    exchange: &mut SocketExchange,
    step: ClientStep<()>,
    reader: &mut SocketReplyReader,
    result: Result<(), ReadInterruption>,
)
    requires
        call_ensures(
            TerminalCellSocketClient::send_viewer_input,
            (&client, bytes, exchange),
            step,
        ),
        call_ensures(SocketReplyReader::read_acceptance, (reader,), result),
    ensures
        reaches(
            step,
            client.control_path(),
            request_bytes(
                WireRequest::Input { bytes: bytes@, source: InputSource::Viewer },
            ),
            old(exchange)@,
            final(exchange)@,
        ),
        is_answered(old(exchange)@) && old(reader)@ == old(exchange)@.received ==> {
            &&& goes_as_read(step, result, old(exchange)@, final(exchange)@, final(reader)@)
            &&& result matches Ok(()) ==> (step matches ClientStep::Done(Ok(_)))
        },
{
}

/// Closing the input gate gives the lease that is read from the reply.
pub proof fn closing_gives_the_lease(
    client: TerminalCellSocketClient,
    exchange: &mut SocketExchange,
    step: ClientStep<TerminalInputGateLease>,
    reader: &mut SocketReplyReader,
    result: Result<TerminalInputGateLease, ReadInterruption>,
)
    requires
        call_ensures(
            TerminalCellSocketClient::close_human_input,
            (&client, exchange),
            step,
        ),
        call_ensures(SocketReplyReader::read_gate_lease, (reader,), result),
    ensures
        reaches(
            step,
            client.control_path(),
            request_bytes(WireRequest::CloseHumanInput),
            old(exchange)@,
            final(exchange)@,
        ),
        is_answered(old(exchange)@) && old(reader)@ == old(exchange)@.received ==> {
            &&& goes_as_read(step, result, old(exchange)@, final(exchange)@, final(reader)@)
            &&& result matches Ok(read) ==> (step matches ClientStep::Done(Ok(given)) && given
                == read)
        },
{
}

/// Opening the input gate sends the lease, and gives the release that is read from the
/// reply.
pub proof fn opening_gives_the_release(
    client: TerminalCellSocketClient,
    lease: TerminalInputGateLease,
    exchange: &mut SocketExchange,
    step: ClientStep<TerminalInputGateRelease>,
    reader: &mut SocketReplyReader,
    result: Result<TerminalInputGateRelease, ReadInterruption>,
)
    requires
        call_ensures(
            TerminalCellSocketClient::open_human_input,
            (&client, lease, exchange),
            step,
        ),
        call_ensures(SocketReplyReader::read_gate_release, (reader,), result),
    ensures
        reaches(
            step,
            client.control_path(),
            request_bytes(WireRequest::OpenHumanInput(lease)),
            old(exchange)@,
            final(exchange)@,
        ),
        is_answered(old(exchange)@) && old(reader)@ == old(exchange)@.received ==> {
            &&& goes_as_read(step, result, old(exchange)@, final(exchange)@, final(reader)@)
            &&& result matches Ok(read) ==> (step matches ClientStep::Done(Ok(given)) && given
                == read)
        },
{
}

/// A resize sends the size, and is done once an acceptance is read.
pub proof fn resize_sends_the_size(
    client: TerminalCellSocketClient,
    size: TerminalSize,
    exchange: &mut SocketExchange,
    step: ClientStep<()>,
    reader: &mut SocketReplyReader,
    result: Result<(), ReadInterruption>,
)
    requires
        call_ensures(
            TerminalCellSocketClient::resize,
            (&client, size, exchange),
            step,
        ),
        call_ensures(SocketReplyReader::read_acceptance, (reader,), result),
    ensures
        reaches(
            step,
            client.control_path(),
            request_bytes(WireRequest::Resize(size)),
            old(exchange)@,
            final(exchange)@,
        ),
        is_answered(old(exchange)@) && old(reader)@ == old(exchange)@.received ==> {
            &&& goes_as_read(step, result, old(exchange)@, final(exchange)@, final(reader)@)
            &&& result matches Ok(()) ==> (step matches ClientStep::Done(Ok(_)))
        },
{
}

/// A wait sends the bytes that are waited for, and is done once the reply says that they
/// are there.
pub proof fn wait_sends_the_bytes(
    client: TerminalCellSocketClient,
    bytes: &[u8],
    exchange: &mut SocketExchange,
    step: ClientStep<()>,
    reader: &mut SocketReplyReader,
    result: Result<(), ReadInterruption>,
)
    requires
        call_ensures(
            TerminalCellSocketClient::wait_for_transcript,
            (&client, bytes, exchange),
            step,
        ),
        call_ensures(SocketReplyReader::read_wait_satisfied, (reader,), result),
    ensures
        reaches(
            step,
            client.control_path(),
            request_bytes(WireRequest::Wait(bytes@)),
            old(exchange)@,
            final(exchange)@,
        ),
        is_answered(old(exchange)@) && old(reader)@ == old(exchange)@.received ==> {
            &&& goes_as_read(step, result, old(exchange)@, final(exchange)@, final(reader)@)
            &&& result matches Ok(()) ==> (step matches ClientStep::Done(Ok(_)))
        },
{
}

/// A wait for the exit gives the status that is read from the reply.
pub proof fn exit_gives_the_status(
    client: TerminalCellSocketClient,
    exchange: &mut SocketExchange,
    step: ClientStep<String>,
    reader: &mut SocketReplyReader,
    result: Result<String, ReadInterruption>,
)
    requires
        call_ensures(
            TerminalCellSocketClient::wait_for_terminal_exit,
            (&client, exchange),
            step,
        ),
        call_ensures(SocketReplyReader::read_exit_status, (reader,), result),
    ensures
        reaches(
            step,
            client.control_path(),
            request_bytes(WireRequest::WaitExit),
            old(exchange)@,
            final(exchange)@,
        ),
        is_answered(old(exchange)@) && old(reader)@ == old(exchange)@.received ==> {
            &&& goes_as_read(step, result, old(exchange)@, final(exchange)@, final(reader)@)
            &&& result matches Ok(read) ==> (step matches ClientStep::Done(Ok(given)) && given@
                == read@)
        },
{
}

/// The text on the workers has the bytes that are read from the reply; bytes that are no
/// text fail.
pub proof fn observation_gives_the_text(
    client: TerminalCellSocketClient,
    exchange: &mut SocketExchange,
    step: ClientStep<String>,
    reader: &mut SocketReplyReader,
    result: Result<Vec<u8>, ReadInterruption>,
)
    requires
        call_ensures(
            TerminalCellSocketClient::worker_observation_text,
            (&client, exchange),
            step,
        ),
        call_ensures(SocketReplyReader::read_snapshot, (reader,), result),
    ensures
        reaches(
            step,
            client.control_path(),
            request_bytes(WireRequest::WorkerObservation),
            old(exchange)@,
            final(exchange)@,
        ),
        is_answered(old(exchange)@) && old(reader)@ == old(exchange)@.received ==> {
            &&& goes_as_read(step, result, old(exchange)@, final(exchange)@, final(reader)@)
            &&& result matches Ok(read) ==> if valid_utf8(read@) {
                step matches ClientStep::Done(Ok(given)) && encode_utf8(given@) == read@
            } else {
                &&& step matches ClientStep::Done(Err(error))
                &&& error.kind is InvalidData
                &&& error.message@ == "worker observation was not utf-8: "@ + utf8_complaint(
                    read@,
                )
            }
        },
{
    if let Ok(read) = result {
        if valid_utf8(read@) {
            decode_utf8_encode_utf8(read@);
        }
    }
}

/// A query is sent as its archive, and the archive that is read from the reply is given.
pub proof fn query_is_sent_as_its_archive(
    client: TerminalCellSocketClient,
    bytes: Vec<u8>,
    archive: Result<Vec<u8>, String>,
    exchange: &mut SocketExchange,
    step: ClientStep<Vec<u8>>,
    reader: &mut SocketReplyReader,
    result: Result<Vec<u8>, ReadInterruption>,
)
    requires
        archive == Ok::<Vec<u8>, String>(bytes),
        call_ensures(
            TerminalCellSocketClient::send_signal_request,
            (&client, &archive, exchange),
            step,
        ),
        call_ensures(SocketReplyReader::read_signal_event, (reader,), result),
    ensures
        reaches(
            step,
            client.control_path(),
            request_bytes(WireRequest::Archive(bytes@)),
            old(exchange)@,
            final(exchange)@,
        ),
        is_answered(old(exchange)@) && old(reader)@ == old(exchange)@.received ==> {
            &&& goes_as_read(step, result, old(exchange)@, final(exchange)@, final(reader)@)
            &&& result matches Ok(read) ==> (step matches ClientStep::Done(Ok(given)) && given@
                == read@)
        },
{
}

/// A query that could not be archived fails with the reason once the control socket is
/// connected to, and nothing is sent.
pub proof fn query_without_an_archive_fails(
    client: TerminalCellSocketClient,
    complaint: String,
    archive: Result<Vec<u8>, String>,
    exchange: &mut SocketExchange,
    step: ClientStep<Vec<u8>>,
)
    requires
        archive == Err::<Vec<u8>, String>(complaint),
        call_ensures(
            TerminalCellSocketClient::send_signal_request,
            (&client, &archive, exchange),
            step,
        ),
    ensures
        if old(exchange)@.phase is Unconnected {
            &&& step matches ClientStep::Connect(path)
            &&& *path == client.control_path()
            &&& final(exchange)@.phase is Connected
            &&& final(exchange)@.received == old(exchange)@.received
        } else {
            &&& step matches ClientStep::Done(Err(error))
            &&& error.kind is InvalidData
            &&& error.message@ == "signal query archive failed: "@ + complaint@
            &&& final(exchange)@ == old(exchange)@
        },
{
}

/// A subscription is done as soon as it is sent: every byte behind it is left to be read.
pub proof fn subscription_leaves_the_stream(
    client: TerminalCellSocketClient,
    exchange: &mut SocketExchange,
    step: ClientStep<()>,
)
    requires
        call_ensures(TerminalCellSocketClient::subscribe_from_beginning, (&client, exchange), step),
    ensures
        reaches(
            step,
            client.control_path(),
            request_bytes(WireRequest::SubscribeFromBeginning),
            old(exchange)@,
            final(exchange)@,
        ),
        is_answered(old(exchange)@) ==> {
            &&& step matches ClientStep::Done(Ok(()))
            &&& final(exchange)@ == old(exchange)@
        },
{
    assert(old(exchange)@.received.skip(0) =~= old(exchange)@.received);
}

/// An attach goes to the data socket. It is done once the daemon accepts it, and every byte
/// behind the acceptance is left to be read; where the daemon rejects it, it fails as a
/// refused connection with the daemon's reason. A client without a data socket fails at once
/// and touches nothing.
pub proof fn attach_goes_to_the_data_socket(
    client: TerminalCellSocketClient,
    exchange: &mut SocketExchange,
    step: ClientStep<()>,
    reason: Seq<char>,
    rest: Seq<u8>,
    reader: &mut SocketReplyReader,
    result: Result<(), ReadInterruption>,
)
    requires
        call_ensures(SocketReplyReader::read_attach_acceptance, (reader,), result),
        call_ensures(TerminalCellSocketClient::open_attach_stream, (&client, exchange), step),
    ensures
        match client.data_path() {
            None => {
                &&& step matches ClientStep::Done(Err(error))
                &&& error.kind is Unsupported
                &&& error.message@
                    == "terminal-cell client has no data-socket path; construct with TerminalCellSocketClient::new for the attach plane"@
                &&& final(exchange)@ == old(exchange)@
            },
            Some(socket) => {
                &&& reaches(
                    step,
                    socket,
                    request_bytes(WireRequest::Attach),
                    old(exchange)@,
                    final(exchange)@,
                )
                &&& is_answered(old(exchange)@) ==> {
                    &&& old(exchange)@.received == seq![0x49u8] + rest ==> {
                        &&& step matches ClientStep::Done(Ok(()))
                        &&& final(exchange)@.received == rest
                    }
                    &&& readable(WireReply::AttachRejected(reason)) && old(exchange)@.received
                        == reply_bytes(WireReply::AttachRejected(reason)) + rest ==> {
                        &&& step matches ClientStep::Done(Err(error))
                        &&& error.kind is ConnectionRefused
                        &&& error.message@ == reason
                        &&& final(exchange)@.received == rest
                    }
                    &&& old(exchange)@.received.len() == 0 ==> waits(
                        step,
                        1,
                        old(exchange)@,
                        final(exchange)@,
                    )
                    &&& step matches ClientStep::Done(Ok(())) ==> old(exchange)@.received
                        == seq![0x49u8] + final(exchange)@.received
                    &&& old(reader)@ == old(exchange)@.received ==> {
                        &&& goes_as_read(
                            step,
                            result,
                            old(exchange)@,
                            final(exchange)@,
                            final(reader)@,
                        )
                        &&& result is Ok ==> step matches ClientStep::Done(Ok(()))
                    }
                }
            },
        },
{
    let received = old(exchange)@.received;
    let rejected = WireReply::AttachRejected(reason);
    if received == seq![0x49u8] + rest {
        assert(received.skip(1) =~= rest);
    }
    if readable(rejected) && received == reply_bytes(rejected) + rest {
        reply_survives_the_wire(rejected, rest);
        assert(received.skip(reply_bytes(rejected).len() as int) =~= rest);
    }
    if received.len() > 0 {
        assert(received =~= seq![received[0]] + received.skip(1));
    }
}

} // verus!
