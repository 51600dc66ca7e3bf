//! What holds of all requests on the wire.
use vstd::prelude::*;
use crate::cursor::{
    payload_outcome, ByteCursor, FrameKind, Outcome, ReadInterruption, MAXIMUM_FRAME_LENGTH,
};
use crate::failure::{failure, ConnectionError, ErrorKind};
use crate::request::{
    request_bytes, request_outcome, ReceivedRequest, SignalArchive, SocketRequest,
    SocketRequestReader, SocketRequestWriter, WireRequest, ATTACH_REQUEST, CAPTURE_REQUEST,
    CLOSE_HUMAN_INPUT_REQUEST, OPEN_HUMAN_INPUT_REQUEST, PROGRAMMATIC_INPUT_REQUEST,
    RESIZE_REQUEST, SUBSCRIBE_REQUEST, VIEWER_INPUT_REQUEST, WAIT_EXIT_REQUEST, WAIT_REQUEST,
    WORKER_OBSERVATION_REQUEST,
};
use crate::signal::Query;
use crate::terminal::{
    InputSource, TerminalInput, TerminalInputGateLease, TerminalSize, WaitForTranscriptText,
};
use crate::text::decimal;
use crate::wire::{
    be_bytes, be_bytes_have_the_width, be_bytes_of_be_value, be_bytes_spell_the_number, be_range,
    be_ranges, be_value, be_value_is_in_range, be_value_is_spelled, be_value_of_be_bytes,
    place_digit, spelling_tells_numbers_apart, spells,
};

verus! {

/// Whether a request is one that travels, and short enough to be read.
pub open spec fn readable(request: WireRequest) -> bool {
    match request {
        WireRequest::Input { bytes, .. } => bytes.len() <= MAXIMUM_FRAME_LENGTH,
        WireRequest::Wait(bytes) => bytes.len() <= MAXIMUM_FRAME_LENGTH,
        WireRequest::Archive(bytes) => bytes.len() <= MAXIMUM_FRAME_LENGTH,
        WireRequest::Query(_) => false,
        _ => true,
    }
}

/// A payload behind its length, as its kind writes it.
pub open spec fn prefixed(bytes: Seq<u8>, kind: FrameKind) -> Seq<u8> {
    be_bytes(bytes.len(), kind.prefix_width()) + bytes
}

/// The length is read back, whatever stands behind it.
pub proof fn length_is_read_back(length: nat, kind: FrameKind, rest: Seq<u8>)
    requires
        length < be_range(kind.prefix_width()),
    ensures
        be_bytes(length, kind.prefix_width()).len() == kind.prefix_width(),
        be_value((be_bytes(length, kind.prefix_width()) + rest).take(kind.prefix_width() as int))
            == length,
{
    let width = kind.prefix_width();
    be_bytes_have_the_width(length, width);
    be_value_of_be_bytes(length, width);
    assert((be_bytes(length, width) + rest).take(width as int) =~= be_bytes(length, width));
}

/// A payload up to the maximum is read back, and nothing behind it is touched.
pub proof fn payload_is_read_back(bytes: Seq<u8>, kind: FrameKind, rest: Seq<u8>)
    requires
        bytes.len() <= MAXIMUM_FRAME_LENGTH,
    ensures
        payload_outcome(prefixed(bytes, kind) + rest, kind) == (Outcome::Complete {
            value: bytes,
            consumed: prefixed(bytes, kind).len(),
        }),
        prefixed(bytes, kind).len() == kind.prefix_width() + bytes.len(),
{
    be_ranges();
    let width = kind.prefix_width();
    let all = prefixed(bytes, kind) + rest;
    length_is_read_back(bytes.len(), kind, bytes + rest);
    assert(all =~= be_bytes(bytes.len(), width) + (bytes + rest));
    assert(all.subrange(width as int, (width + bytes.len()) as int) =~= bytes);
}

/// Part of a payload calls for bytes of the payload, and for no others.
pub proof fn partial_payload_is_short(bytes: Seq<u8>, kind: FrameKind, cut: nat)
    requires
        bytes.len() <= MAXIMUM_FRAME_LENGTH,
        cut < prefixed(bytes, kind).len(),
    ensures
        payload_outcome(prefixed(bytes, kind).take(cut as int), kind) matches Outcome::Short {
            missing,
        } && 1 <= missing <= prefixed(bytes, kind).len() - cut,
{
    be_ranges();
    let width = kind.prefix_width();
    length_is_read_back(bytes.len(), kind, bytes);
    if cut >= width {
        assert(prefixed(bytes, kind).take(cut as int).take(width as int) =~= prefixed(
            bytes,
            kind,
        ).take(width as int));
    }
}

/// More bytes do not change what a payload amounts to.
pub proof fn decided_payload_stays_decided(bytes: Seq<u8>, kind: FrameKind, more: Seq<u8>)
    requires
        !(payload_outcome(bytes, kind) is Short),
    ensures
        payload_outcome(bytes + more, kind) == payload_outcome(bytes, kind),
{
    let width = kind.prefix_width();
    assert((bytes + more).take(width as int) =~= bytes.take(width as int));
    let length = be_value(bytes.take(width as int));
    if length <= MAXIMUM_FRAME_LENGTH {
        assert((bytes + more).subrange(width as int, (width + length) as int) =~= bytes.subrange(
            width as int,
            (width + length) as int,
        ));
    }
}

/// Fewer bytes than a payload calls for do not decide it.
pub proof fn short_payload_stays_short(bytes: Seq<u8>, kind: FrameKind, more: Seq<u8>)
    requires
        payload_outcome(bytes, kind) matches Outcome::Short { missing } && more.len() < missing,
    ensures
        payload_outcome(bytes + more, kind) is Short,
{
    let width = kind.prefix_width();
    if bytes.len() >= width {
        assert((bytes + more).take(width as int) =~= bytes.take(width as int));
    }
}

/// A payload that was read is the only one with those bytes.
pub proof fn payload_is_written_as_it_was_read(bytes: Seq<u8>, kind: FrameKind)
    requires
        payload_outcome(bytes, kind) is Complete,
    ensures
        payload_outcome(bytes, kind) matches Outcome::Complete { value, consumed } && prefixed(
            value,
            kind,
        ) == bytes.take(consumed as int),
{
    let width = kind.prefix_width();
    let prefix = bytes.take(width as int);
    be_bytes_of_be_value(prefix);
    let length = be_value(prefix);
    let value = bytes.subrange(width as int, (width + length) as int);
    assert(prefixed(value, kind) =~= bytes.take((width + length) as int));
}

/// Reading a request gives back what was written, and takes none of the bytes
/// behind it.
pub proof fn request_survives_the_wire(request: WireRequest, rest: Seq<u8>)
    requires
        readable(request),
    ensures
        request_outcome(request_bytes(request) + rest) == (Outcome::Complete {
            value: request,
            consumed: request_bytes(request).len(),
        }),
{
    be_ranges();
    let bytes = request_bytes(request);
    let all = bytes + rest;
    match request {
        WireRequest::Input { bytes: payload, source } => {
            payload_is_read_back(payload, FrameKind::Request, rest);
            assert(all.skip(1) =~= prefixed(payload, FrameKind::Request) + rest);
        },
        WireRequest::Wait(payload) => {
            payload_is_read_back(payload, FrameKind::Request, rest);
            assert(all.skip(1) =~= prefixed(payload, FrameKind::Request) + rest);
        },
        WireRequest::Archive(archive) => {
            payload_is_read_back(archive, FrameKind::Signal, rest);
            archive_begins_with_no_tag(archive.len());
            assert(all =~= prefixed(archive, FrameKind::Signal) + rest);
            assert(all[0] == be_bytes(archive.len(), 4)[0]);
        },
        WireRequest::OpenHumanInput(lease) => {
            let value = lease.sequence.value as nat;
            be_bytes_have_the_width(value, 8);
            be_value_of_be_bytes(value, 8);
            assert(all.skip(1).take(8) =~= be_bytes(value, 8));
        },
        WireRequest::Resize(size) => {
            be_bytes_have_the_width(size.rows as nat, 2);
            be_bytes_have_the_width(size.columns as nat, 2);
            be_value_of_be_bytes(size.rows as nat, 2);
            be_value_of_be_bytes(size.columns as nat, 2);
            assert(all.skip(1).take(2) =~= be_bytes(size.rows as nat, 2));
            assert(all.skip(1).subrange(2, 4) =~= be_bytes(size.columns as nat, 2));
        },
        _ => {},
    }
}

/// Whether a byte is the tag of a request.
pub open spec fn is_tag(byte: u8) -> bool {
    ||| byte == CAPTURE_REQUEST
    ||| byte == SUBSCRIBE_REQUEST
    ||| byte == ATTACH_REQUEST
    ||| byte == PROGRAMMATIC_INPUT_REQUEST
    ||| byte == VIEWER_INPUT_REQUEST
    ||| byte == CLOSE_HUMAN_INPUT_REQUEST
    ||| byte == OPEN_HUMAN_INPUT_REQUEST
    ||| byte == RESIZE_REQUEST
    ||| byte == WAIT_REQUEST
    ||| byte == WAIT_EXIT_REQUEST
    ||| byte == WORKER_OBSERVATION_REQUEST
}

/// The first byte of the length of an archive is the highest of the four, and is
/// no tag where the archive is short enough to be read.
pub proof fn archive_begins_with_no_tag(length: nat)
    requires
        length <= u32::MAX,
    ensures
        be_bytes(length, 4).len() == 4,
        be_bytes(length, 4)[0] == length / 0x100_0000,
        length <= MAXIMUM_FRAME_LENGTH ==> !is_tag(be_bytes(length, 4)[0]),
{
    be_bytes_have_the_width(length, 4);
    reveal_with_fuel(be_bytes, 5);
    assert(be_bytes(length, 4)[0] == (length / 256 / 256 / 256) % 256);
}

/// Input over the maximum, or text to wait for, is refused for its length, with
/// the length in the message.
pub proof fn oversized_payload_is_refused(request: WireRequest, payload: Seq<u8>, rest: Seq<u8>)
    requires
        MAXIMUM_FRAME_LENGTH < payload.len() <= u64::MAX,
        match request {
            WireRequest::Input { bytes, .. } => bytes == payload,
            WireRequest::Wait(bytes) => bytes == payload,
            _ => false,
        },
    ensures
        request_outcome(request_bytes(request) + rest) == (Outcome::<WireRequest>::Refused {
            failure: failure(
                ErrorKind::InvalidData,
                FrameKind::Request.too_long(payload.len()),
            ),
            consumed: 9,
        }),
{
    be_ranges();
    let all = request_bytes(request) + rest;
    length_is_read_back(payload.len(), FrameKind::Request, payload + rest);
    assert(all.skip(1) =~= be_bytes(payload.len(), 8) + (payload + rest));
}

/// An archive over the maximum is refused for its length, as long as the length
/// fits its four bytes and does not begin with a tag.
pub proof fn oversized_archive_is_refused(archive: Seq<u8>, rest: Seq<u8>)
    requires
        MAXIMUM_FRAME_LENGTH < archive.len() <= u32::MAX,
        !is_tag((archive.len() / 0x100_0000) as u8),
    ensures
        request_outcome(request_bytes(WireRequest::Archive(archive)) + rest) == (Outcome::<
            WireRequest,
        >::Refused {
            failure: failure(ErrorKind::InvalidData, FrameKind::Signal.too_long(archive.len())),
            consumed: 4,
        }),
{
    be_ranges();
    let all = request_bytes(WireRequest::Archive(archive)) + rest;
    archive_begins_with_no_tag(archive.len());
    length_is_read_back(archive.len(), FrameKind::Signal, archive + rest);
    assert(all =~= be_bytes(archive.len(), 4) + (archive + rest));
    assert(all[0] == be_bytes(archive.len(), 4)[0]);
}

/// Part of a request calls for bytes of the request, and for no others: what
/// follows it on the connection is left for whoever comes next.
pub proof fn partial_request_is_short(request: WireRequest, cut: nat)
    requires
        readable(request),
        cut < request_bytes(request).len(),
    ensures
        request_outcome(request_bytes(request).take(cut as int)) matches Outcome::Short { missing }
            && 1 <= missing <= request_bytes(request).len() - cut,
{
    be_ranges();
    let bytes = request_bytes(request);
    let part = bytes.take(cut as int);
    if cut > 0 {
        match request {
            WireRequest::Input { bytes: payload, source } => {
                partial_payload_is_short(payload, FrameKind::Request, (cut - 1) as nat);
                assert(part.skip(1) =~= prefixed(payload, FrameKind::Request).take(cut - 1));
            },
            WireRequest::Wait(payload) => {
                partial_payload_is_short(payload, FrameKind::Request, (cut - 1) as nat);
                assert(part.skip(1) =~= prefixed(payload, FrameKind::Request).take(cut - 1));
            },
            WireRequest::Archive(archive) => {
                partial_payload_is_short(archive, FrameKind::Signal, cut);
                archive_begins_with_no_tag(archive.len());
                assert(part =~= prefixed(archive, FrameKind::Signal).take(cut as int));
                assert(part[0] == be_bytes(archive.len(), 4)[0]);
            },
            WireRequest::OpenHumanInput(lease) => {
                be_bytes_have_the_width(lease.sequence.value as nat, 8);
            },
            WireRequest::Resize(size) => {
                be_bytes_have_the_width(size.rows as nat, 2);
                be_bytes_have_the_width(size.columns as nat, 2);
            },
            _ => {},
        }
    }
}

/// More bytes do not change what a request that has been read or refused
/// amounts to.
pub proof fn decided_request_stays_decided(bytes: Seq<u8>, more: Seq<u8>)
    requires
        !(request_outcome(bytes) is Short),
    ensures
        request_outcome(bytes + more) == request_outcome(bytes),
{
    let rest = bytes.skip(1);
    assert((bytes + more).skip(1) =~= rest + more);
    if !(payload_outcome(rest, FrameKind::Request) is Short) {
        decided_payload_stays_decided(rest, FrameKind::Request, more);
    }
    if !(payload_outcome(bytes, FrameKind::Signal) is Short) {
        decided_payload_stays_decided(bytes, FrameKind::Signal, more);
    }
    if rest.len() >= 8 {
        assert((rest + more).take(8) =~= rest.take(8));
    }
    if rest.len() >= 4 {
        assert((rest + more).take(2) =~= rest.take(2));
        assert((rest + more).subrange(2, 4) =~= rest.subrange(2, 4));
    }
}

/// Fewer bytes than a request calls for do not decide it.
pub proof fn short_request_stays_short(bytes: Seq<u8>, more: Seq<u8>)
    requires
        request_outcome(bytes) matches Outcome::Short { missing } && more.len() < missing,
    ensures
        request_outcome(bytes + more) is Short,
{
    if bytes.len() > 0 {
        let rest = bytes.skip(1);
        assert((bytes + more).skip(1) =~= rest + more);
        if payload_outcome(rest, FrameKind::Request) matches Outcome::Short { missing }
            && more.len() < missing {
            short_payload_stays_short(rest, FrameKind::Request, more);
        }
        if payload_outcome(bytes, FrameKind::Signal) matches Outcome::Short { missing }
            && more.len() < missing {
            short_payload_stays_short(bytes, FrameKind::Signal, more);
        }
    }
}

/// A request that was read is the only one with those bytes.
pub proof fn request_is_written_as_it_was_read(bytes: Seq<u8>)
    requires
        request_outcome(bytes) is Complete,
    ensures
        request_outcome(bytes) matches Outcome::Complete { value, consumed } && request_bytes(value)
            == bytes.take(consumed as int) && readable(value),
{
    be_ranges();
    let rest = bytes.skip(1);
    let read = request_outcome(bytes)->value;
    let consumed = request_outcome(bytes)->Complete_consumed;
    let written = request_bytes(read);
    if payload_outcome(rest, FrameKind::Request) is Complete {
        payload_is_written_as_it_was_read(rest, FrameKind::Request);
    }
    if payload_outcome(bytes, FrameKind::Signal) is Complete {
        payload_is_written_as_it_was_read(bytes, FrameKind::Signal);
    }
    match read {
        WireRequest::OpenHumanInput(lease) => {
            be_value_is_in_range(rest.take(8));
            be_bytes_of_be_value(rest.take(8));
        },
        WireRequest::Resize(size) => {
            be_value_is_in_range(rest.take(2));
            be_bytes_of_be_value(rest.take(2));
            be_value_is_in_range(rest.subrange(2, 4));
            be_bytes_of_be_value(rest.subrange(2, 4));
        },
        _ => {},
    }
    assert(written =~= bytes.take(consumed as int));
}

/// Requests written one behind the other are told apart: no request is the
/// beginning of another.
pub proof fn requests_are_told_apart(
    first: WireRequest,
    behind_first: Seq<u8>,
    second: WireRequest,
    behind_second: Seq<u8>,
)
    requires
        readable(first),
        readable(second),
        request_bytes(first) + behind_first == request_bytes(second) + behind_second,
    ensures
        first == second,
        behind_first == behind_second,
{
    request_survives_the_wire(first, behind_first);
    request_survives_the_wire(second, behind_second);
    let bytes = request_bytes(first);
    assert(behind_first =~= (bytes + behind_first).skip(bytes.len() as int));
    assert(behind_second =~= (bytes + behind_second).skip(bytes.len() as int));
}

/// What is spelled in bytes is spelled further back in those bytes behind others.
pub proof fn spelling_moves_back(front: Seq<u8>, bytes: Seq<u8>, behind: Seq<u8>, value: nat)
    requires
        spells(bytes, 0, bytes.len(), value),
    ensures
        spells(front + bytes + behind, front.len(), bytes.len(), value),
{
    let all = front + bytes + behind;
    assert forall|place: nat| place < bytes.len() implies #[trigger] place_digit(value, place)
        == all[front.len() + bytes.len() - 1 - place] by {
        assert(all[front.len() + bytes.len() - 1 - place] == bytes[bytes.len() - 1 - place]);
    }
}

/// A number that is spelled within bytes, and that its width has room for, is the one that
/// those bytes stand for.
pub proof fn spelled_number_is_read(bytes: Seq<u8>, from: nat, width: nat, value: nat)
    requires
        spells(bytes, from, width, value),
        value < be_range(width),
    ensures
        be_value(bytes.subrange(from as int, (from + width) as int)) == value,
{
    let part = bytes.subrange(from as int, (from + width) as int);
    assert forall|place: nat| place < width implies #[trigger] place_digit(value, place)
        == part[0 + width - 1 - place] by {
        assert(part[width - 1 - place] == bytes[from + width - 1 - place]);
    }
    be_value_is_spelled(part);
    be_value_is_in_range(part);
    spelling_tells_numbers_apart(part, width, value, be_value(part));
}

/// A payload of sixteen mebibytes is the longest that is read.
pub proof fn longest_payload_is_sixteen_mebibytes()
    ensures
        MAXIMUM_FRAME_LENGTH == 16 * 1024 * 1024,
{
}

/// The bytes of each request: its letter, and behind it what the request calls for, numbers
/// spelled out and payloads unchanged behind their lengths. A Signal archive has no letter.
pub proof fn requests_have_their_layout(request: WireRequest)
    ensures
        ({
            let bytes = request_bytes(request);
            match request {
                WireRequest::Capture => bytes == seq![0x43u8],
                WireRequest::SubscribeFromBeginning => bytes == seq![0x53u8],
                WireRequest::Attach => bytes == seq![0x54u8],
                WireRequest::Input { bytes: payload, source } => {
                    &&& bytes.len() == 9 + payload.len()
                    &&& bytes[0] == match source {
                        InputSource::Programmatic => 0x50u8,
                        InputSource::Viewer => 0x56u8,
                    }
                    &&& spells(bytes, 1, 8, payload.len())
                    &&& bytes.skip(9) == payload
                },
                WireRequest::CloseHumanInput => bytes == seq![0x47u8],
                WireRequest::OpenHumanInput(lease) => {
                    &&& bytes.len() == 9
                    &&& bytes[0] == 0x4fu8
                    &&& spells(bytes, 1, 8, lease.sequence.value as nat)
                },
                WireRequest::Resize(size) => {
                    &&& bytes.len() == 5
                    &&& bytes[0] == 0x52u8
                    &&& spells(bytes, 1, 2, size.rows as nat)
                    &&& spells(bytes, 3, 2, size.columns as nat)
                },
                WireRequest::Wait(payload) => {
                    &&& bytes.len() == 9 + payload.len()
                    &&& bytes[0] == 0x57u8
                    &&& spells(bytes, 1, 8, payload.len())
                    &&& bytes.skip(9) == payload
                },
                WireRequest::WaitExit => bytes == seq![0x58u8],
                WireRequest::WorkerObservation => bytes == seq![0x48u8],
                WireRequest::Archive(payload) => {
                    &&& bytes.len() == 4 + payload.len()
                    &&& spells(bytes, 0, 4, payload.len())
                    &&& bytes.skip(4) == payload
                },
                WireRequest::Query(_) => bytes.len() == 0,
            }
        }),
{
    let bytes = request_bytes(request);
    let none = Seq::<u8>::empty();
    match request {
        WireRequest::Input { bytes: payload, source } => {
            let letter = seq![bytes[0]];
            be_bytes_spell_the_number(payload.len(), 8);
            spelling_moves_back(letter, be_bytes(payload.len(), 8), payload, payload.len());
            assert(bytes =~= letter + be_bytes(payload.len(), 8) + payload);
            assert(bytes.skip(9) =~= payload);
        },
        WireRequest::OpenHumanInput(lease) => {
            let value = lease.sequence.value as nat;
            be_bytes_spell_the_number(value, 8);
            spelling_moves_back(seq![0x4fu8], be_bytes(value, 8), none, value);
            assert(bytes =~= seq![0x4fu8] + be_bytes(value, 8) + none);
        },
        WireRequest::Resize(size) => {
            let rows = be_bytes(size.rows as nat, 2);
            let columns = be_bytes(size.columns as nat, 2);
            be_bytes_spell_the_number(size.rows as nat, 2);
            be_bytes_spell_the_number(size.columns as nat, 2);
            spelling_moves_back(seq![0x52u8], rows, columns, size.rows as nat);
            spelling_moves_back(seq![0x52u8] + rows, columns, none, size.columns as nat);
            assert(bytes =~= seq![0x52u8] + rows + columns);
            assert(bytes =~= seq![0x52u8] + rows + columns + none);
        },
        WireRequest::Wait(payload) => {
            be_bytes_spell_the_number(payload.len(), 8);
            spelling_moves_back(seq![0x57u8], be_bytes(payload.len(), 8), payload, payload.len());
            assert(bytes =~= seq![0x57u8] + be_bytes(payload.len(), 8) + payload);
            assert(bytes.skip(9) =~= payload);
        },
        WireRequest::Archive(payload) => {
            be_bytes_spell_the_number(payload.len(), 4);
            spelling_moves_back(none, be_bytes(payload.len(), 4), payload, payload.len());
            assert(bytes =~= none + be_bytes(payload.len(), 4) + payload);
            assert(bytes.skip(4) =~= payload);
        },
        _ => {},
    }
}

/// A request is seen as what it holds.
pub proof fn requests_are_seen_as_they_are(
    input: TerminalInput,
    lease: TerminalInputGateLease,
    size: TerminalSize,
    wait: WaitForTranscriptText,
    archive: SignalArchive,
)
    ensures
        SocketRequest::Capture@ is Capture,
        SocketRequest::SubscribeFromBeginning@ is SubscribeFromBeginning,
        SocketRequest::Attach@ is Attach,
        SocketRequest::Input(input)@ == (WireRequest::Input {
            bytes: input.bytes@,
            source: input.source,
        }),
        SocketRequest::CloseHumanInput@ is CloseHumanInput,
        SocketRequest::OpenHumanInput(lease)@ == WireRequest::OpenHumanInput(lease),
        SocketRequest::Resize(size)@ == WireRequest::Resize(size),
        SocketRequest::Wait(wait)@ == WireRequest::Wait(wait.bytes@),
        SocketRequest::WaitExit@ is WaitExit,
        SocketRequest::WorkerObservation@ is WorkerObservation,
        ReceivedRequest::Request(SocketRequest::Input(input))@ == SocketRequest::Input(input)@,
        ReceivedRequest::Archive(archive)@ == WireRequest::Archive(archive@),
{
}

/// A request that was written is read, and what follows it is left. Where part of it is
/// there, bytes of the request are asked for, and no others.
pub proof fn written_request_is_read(
    reader: &mut SocketRequestReader,
    result: Result<ReceivedRequest, ReadInterruption>,
    request: WireRequest,
    rest: Seq<u8>,
    cut: nat,
)
    requires
        call_ensures(SocketRequestReader::read_request, (reader,), result),
        readable(request),
    ensures
        old(reader)@ == request_bytes(request) + rest ==> {
            &&& result matches Ok(read)
            &&& read@ == request
            &&& final(reader)@ == rest
        },
        cut < request_bytes(request).len() && old(reader)@ == request_bytes(request).take(
            cut as int,
        ) ==> {
            &&& result matches Err(ReadInterruption::NeedBytes(count))
            &&& 1 <= count <= request_bytes(request).len() - cut
            &&& final(reader)@ == old(reader)@
        },
{
    request_survives_the_wire(request, rest);
    assert((request_bytes(request) + rest).skip(request_bytes(request).len() as int) =~= rest);
    if cut < request_bytes(request).len() {
        partial_request_is_short(request, cut);
    }
}

/// A request that is read stood in front, byte for byte. While bytes are due nothing is
/// taken. Nothing but a length over the maximum fails; the length is then taken with its
/// letter, and a message about a request names it.
pub proof fn read_request_stood_in_front(
    reader: &mut SocketRequestReader,
    result: Result<ReceivedRequest, ReadInterruption>,
)
    requires
        call_ensures(SocketRequestReader::read_request, (reader,), result),
    ensures
        match result {
            Ok(read) => {
                &&& readable(read@)
                &&& old(reader)@ == request_bytes(read@) + final(reader)@
            },
            Err(ReadInterruption::NeedBytes(count)) => count > 0 && final(reader)@ == old(reader)@,
            Err(ReadInterruption::Failed(error)) => {
                &&& error.kind is InvalidData
                &&& {
                    ||| {
                        &&& seq![0x50u8, 0x56u8, 0x57u8].contains(old(reader)@[0])
                        &&& exists|length: nat|
                            length > 16 * 1024 * 1024 && #[trigger] spells(
                                old(reader)@,
                                1,
                                8,
                                length,
                            ) && error.message@ == "socket frame length "@ + decimal(length)
                                + " exceeds maximum"@
                        &&& final(reader)@ == old(reader)@.skip(9)
                    }
                    ||| {
                        &&& !is_tag(old(reader)@[0])
                        &&& exists|length: nat|
                            length > 16 * 1024 * 1024 && #[trigger] spells(
                                old(reader)@,
                                0,
                                4,
                                length,
                            )
                        &&& error.message@ == "signal length exceeds maximum"@
                        &&& final(reader)@ == old(reader)@.skip(4)
                    }
                }
            },
        },
{
    let bytes = old(reader)@;
    match result {
        Ok(read) => {
            request_is_written_as_it_was_read(bytes);
            let consumed: nat = request_outcome(bytes)->Complete_consumed;
            assert(request_bytes(read@) == bytes.take(consumed as int));
            assert(bytes =~= bytes.take(consumed as int) + bytes.skip(consumed as int));
        },
        Err(ReadInterruption::NeedBytes(count)) => {},
        Err(ReadInterruption::Failed(error)) => {
            let tag = bytes[0];
            assert(seq![0x50u8, 0x56u8, 0x57u8][0] == 0x50u8);
            assert(seq![0x50u8, 0x56u8, 0x57u8][1] == 0x56u8);
            assert(seq![0x50u8, 0x56u8, 0x57u8][2] == 0x57u8);
            if is_tag(tag) {
                let prefix = bytes.skip(1).take(8);
                let length = be_value(prefix);
                be_value_is_spelled(prefix);
                spelling_moves_back(seq![tag], prefix, bytes.skip(9), length);
                assert(bytes =~= seq![tag] + prefix + bytes.skip(9));
                assert(spells(bytes, 1, 8, length));
            } else {
                let prefix = bytes.take(4);
                let length = be_value(prefix);
                be_value_is_spelled(prefix);
                spelling_moves_back(Seq::empty(), prefix, bytes.skip(4), length);
                assert(bytes =~= Seq::empty() + prefix + bytes.skip(4));
                assert(spells(bytes, 0, 4, length));
            }
        },
    }
}

/// A length over the maximum is refused as soon as it is there, whatever follows.
pub proof fn length_over_the_maximum_is_refused(
    reader: &mut SocketRequestReader,
    result: Result<ReceivedRequest, ReadInterruption>,
    length: nat,
)
    requires
        call_ensures(SocketRequestReader::read_request, (reader,), result),
        16 * 1024 * 1024 < length,
        ({
            ||| {
                &&& old(reader)@.len() >= 9
                &&& seq![0x50u8, 0x56u8, 0x57u8].contains(old(reader)@[0])
                &&& spells(old(reader)@, 1, 8, length)
                &&& length <= u64::MAX
            }
            ||| {
                &&& old(reader)@.len() >= 4
                &&& !is_tag(old(reader)@[0])
                &&& spells(old(reader)@, 0, 4, length)
                &&& length <= u32::MAX
            }
        }),
    ensures
        result matches Err(ReadInterruption::Failed(_)),
{
    be_ranges();
    let bytes = old(reader)@;
    if is_tag(bytes[0]) {
        spelled_number_is_read(bytes, 1, 8, length);
        assert(bytes.skip(1).take(8) =~= bytes.subrange(1, 9));
    } else {
        spelled_number_is_read(bytes, 0, 4, length);
        assert(bytes.take(4) =~= bytes.subrange(0, 4));
    }
}

/// An archive that was restored is the query that it was restored to; one that was not is
/// refused with what was said of it.
pub proof fn restored_archive_is_its_query(
    archive: SignalArchive,
    restored: Result<Query, String>,
    request: Result<SocketRequest, ConnectionError>,
)
    requires
        call_ensures(SignalArchive::restored, (archive, restored), request),
    ensures
        match restored {
            Ok(query) => {
                &&& request matches Ok(SocketRequest::Signal(signal))
                &&& signal.query() == query
            },
            Err(complaint) => {
                &&& request matches Err(error)
                &&& error.kind is InvalidData
                &&& error.message@ == "signal query restore failed: "@ + complaint@
            },
        },
{
}

/// Whatever is written stands behind what was there, and each writer writes the request that
/// it is named after.
pub proof fn requests_are_written_behind_each_other(
    writer: &mut SocketRequestWriter,
    bytes: &[u8],
    lease: TerminalInputGateLease,
    size: TerminalSize,
)
    ensures
        call_ensures(SocketRequestWriter::write_capture_request, (writer,), ())
            ==> final(writer)@ == old(writer)@ + request_bytes(WireRequest::Capture),
        call_ensures(SocketRequestWriter::write_subscription_request, (writer,), ())
            ==> final(writer)@ == old(writer)@ + request_bytes(WireRequest::SubscribeFromBeginning),
        call_ensures(SocketRequestWriter::write_attach_request, (writer,), ())
            ==> final(writer)@ == old(writer)@ + request_bytes(WireRequest::Attach),
        call_ensures(SocketRequestWriter::write_programmatic_input, (writer, bytes), ())
            ==> final(writer)@ == old(writer)@ + request_bytes(WireRequest::Input {
                bytes: bytes@,
                source: InputSource::Programmatic,
            }),
        call_ensures(SocketRequestWriter::write_viewer_input, (writer, bytes), ())
            ==> final(writer)@ == old(writer)@ + request_bytes(WireRequest::Input {
                bytes: bytes@,
                source: InputSource::Viewer,
            }),
        call_ensures(SocketRequestWriter::write_close_human_input_request, (writer,), ())
            ==> final(writer)@ == old(writer)@ + request_bytes(WireRequest::CloseHumanInput),
        call_ensures(SocketRequestWriter::write_open_human_input_request, (writer, lease), ())
            ==> final(writer)@ == old(writer)@ + request_bytes(WireRequest::OpenHumanInput(lease)),
        call_ensures(SocketRequestWriter::write_resize_request, (writer, size), ())
            ==> final(writer)@ == old(writer)@ + request_bytes(WireRequest::Resize(size)),
        call_ensures(SocketRequestWriter::write_wait_request, (writer, bytes), ())
            ==> final(writer)@ == old(writer)@ + request_bytes(WireRequest::Wait(bytes@)),
        call_ensures(SocketRequestWriter::write_wait_exit_request, (writer,), ())
            ==> final(writer)@ == old(writer)@ + request_bytes(WireRequest::WaitExit),
        call_ensures(SocketRequestWriter::write_worker_observation_request, (writer,), ())
            ==> final(writer)@ == old(writer)@ + request_bytes(WireRequest::WorkerObservation),
{
}

/// An archive is written behind what was there. Where there is none, nothing is written, and
/// the failure says why.
pub proof fn archive_is_written_or_missed(
    writer: &mut SocketRequestWriter,
    archive: Result<Vec<u8>, String>,
    written: Result<(), ConnectionError>,
)
    requires
        call_ensures(SocketRequestWriter::write_signal_request, (writer, archive), written),
    ensures
        match archive {
            Ok(bytes) => {
                &&& written is Ok
                &&& final(writer)@ == old(writer)@ + request_bytes(WireRequest::Archive(bytes@))
            },
            Err(complaint) => {
                &&& written matches Err(error)
                &&& error.kind is InvalidData
                &&& error.message@ == "signal query archive failed: "@ + complaint@
                &&& final(writer)@ == old(writer)@
            },
        },
{
}

/// A writer begins behind the bytes that it is given, and gives back all that it has. A
/// reader has the bytes that it is given, and those that come in behind them.
pub proof fn writers_and_readers_hold_their_bytes(
    bytes: Vec<u8>,
    fresh_writer: SocketRequestWriter,
    writer: SocketRequestWriter,
    given_back: Vec<u8>,
    fresh_reader: SocketRequestReader,
    reader: &mut SocketRequestReader,
    more: &[u8],
)
    requires
        call_ensures(SocketRequestWriter::new, (bytes,), fresh_writer),
        call_ensures(SocketRequestWriter::into_bytes, (writer,), given_back),
        call_ensures(SocketRequestReader::new, (bytes,), fresh_reader),
        call_ensures(SocketRequestReader::receive, (reader, more), ()),
    ensures
        fresh_writer@ == bytes@,
        given_back@ == writer@,
        fresh_reader@ == bytes@,
        final(reader)@ == old(reader)@ + more@,
{
}

/// A cursor has the bytes that it is given and those that come in behind them, gives up what
/// is consumed from the front, and shows the byte at a place, or asks for it.
pub proof fn cursor_holds_its_bytes(
    bytes: Vec<u8>,
    fresh: ByteCursor,
    receiving: &mut ByteCursor,
    more: &[u8],
    skipping: &mut ByteCursor,
    count: usize,
    cursor: ByteCursor,
    at: usize,
    byte: Result<u8, ReadInterruption>,
)
    requires
        call_ensures(ByteCursor::new, (bytes,), fresh),
        call_ensures(ByteCursor::receive, (receiving, more), ()),
        count <= old(skipping)@.len(),
        call_ensures(ByteCursor::skip, (skipping, count), ()),
        at <= cursor@.len(),
        call_ensures(ByteCursor::byte_at, (&cursor, at), byte),
    ensures
        fresh@ == bytes@,
        final(receiving)@ == old(receiving)@ + more@,
        final(skipping)@ == old(skipping)@.skip(count as int),
        at < cursor@.len() ==> byte == Ok::<u8, ReadInterruption>(cursor@[at as int]),
        at == cursor@.len() ==> byte == Err::<u8, _>(ReadInterruption::NeedBytes(1)),
{
}

/// A number is read where it is spelled out; where bytes of it are missing, those are asked
/// for.
pub proof fn cursor_reads_what_is_spelled(
    cursor: ByteCursor,
    at: usize,
    width: usize,
    number: Result<u64, ReadInterruption>,
)
    requires
        at <= cursor@.len(),
        width <= 8,
        call_ensures(ByteCursor::number_at, (&cursor, at, width), number),
    ensures
        match number {
            Ok(value) => spells(cursor@, at as nat, width as nat, value as nat) && value < be_range(
                width as nat,
            ),
            Err(ReadInterruption::NeedBytes(count)) => at + width == cursor@.len() + count && count
                > 0,
            Err(ReadInterruption::Failed(_)) => false,
        },
{
    if let Ok(value) = number {
        let part = cursor@.skip(at as int).take(width as int);
        be_value_is_spelled(part);
        be_value_is_in_range(part);
        spelling_moves_back(cursor@.take(at as int), part, cursor@.skip(at + width), value as nat);
        assert(cursor@ =~= cursor@.take(at as int) + part + cursor@.skip(at + width));
    }
}

/// How many bytes the length of a payload takes: eight, and four for a Signal archive.
pub open spec fn length_width(kind: FrameKind) -> nat {
    match kind {
        FrameKind::Request => 8,
        FrameKind::Reply => 8,
        FrameKind::Signal => 4,
    }
}

/// A payload is read where it stands behind its length, and everything up to its end is
/// consumed. Nothing is consumed while bytes are missing. A length over the maximum fails,
/// with the length in the message where it is no archive's, and is consumed.
pub proof fn cursor_reads_a_payload_behind_its_length(
    cursor: &mut ByteCursor,
    at: usize,
    kind: FrameKind,
    result: Result<Vec<u8>, ReadInterruption>,
    payload: Seq<u8>,
    rest: Seq<u8>,
)
    requires
        at <= old(cursor)@.len(),
        call_ensures(ByteCursor::read_payload, (cursor, at, kind), result),
    ensures
        payload.len() <= 16 * 1024 * 1024 && spells(
            old(cursor)@,
            at as nat,
            length_width(kind),
            payload.len(),
        ) && old(cursor)@.skip(at + length_width(kind)) == payload + rest ==> {
            &&& result matches Ok(read)
            &&& read@ == payload
            &&& final(cursor)@ == rest
        },
        match result {
            Ok(read) => {
                &&& read@.len() <= 16 * 1024 * 1024
                &&& spells(old(cursor)@, at as nat, length_width(kind), read@.len())
                &&& old(cursor)@.skip(at + length_width(kind)) == read@ + final(cursor)@
            },
            Err(ReadInterruption::NeedBytes(count)) => {
                &&& count > 0
                &&& final(cursor)@ == old(cursor)@
                &&& if old(cursor)@.len() < at + length_width(kind) {
                    old(cursor)@.len() + count == at + length_width(kind)
                } else {
                    exists|length: nat|
                        #[trigger] spells(old(cursor)@, at as nat, length_width(kind), length)
                            && old(cursor)@.len() + count == at + length_width(kind) + length
                }
            },
            Err(ReadInterruption::Failed(error)) => {
                &&& error.kind is InvalidData
                &&& exists|length: nat|
                    length > 16 * 1024 * 1024 && #[trigger] spells(
                        old(cursor)@,
                        at as nat,
                        length_width(kind),
                        length,
                    ) && error.message@ == match kind {
                        FrameKind::Request => "socket frame length "@ + decimal(length)
                            + " exceeds maximum"@,
                        FrameKind::Reply => "socket reply length "@ + decimal(length)
                            + " exceeds maximum"@,
                        FrameKind::Signal => "signal length exceeds maximum"@,
                    }
                &&& final(cursor)@ == old(cursor)@.skip(at + length_width(kind))
            },
        },
{
    be_ranges();
    let all = old(cursor)@;
    let width = length_width(kind);
    let bytes = all.skip(at as int);
    if payload.len() <= 16 * 1024 * 1024 && spells(all, at as nat, width, payload.len())
        && all.skip(at + width) == payload + rest {
        spelled_number_is_read(all, at as nat, width, payload.len());
        assert(bytes.take(width as int) =~= all.subrange(at as int, at + width));
        assert(bytes.subrange(width as int, (width + payload.len()) as int) =~= (payload
            + rest).take(payload.len() as int));
        assert((payload + rest).take(payload.len() as int) =~= payload);
        assert(all.skip((at + width + payload.len()) as int) =~= (payload + rest).skip(
            payload.len() as int,
        ));
        assert((payload + rest).skip(payload.len() as int) =~= rest);
    }
    if bytes.len() >= width {
        let prefix = bytes.take(width as int);
        be_value_is_spelled(prefix);
        spelling_moves_back(all.take(at as int), prefix, all.skip(at + width), be_value(prefix));
        assert(all =~= all.take(at as int) + prefix + all.skip(at + width));
        assert(spells(all, at as nat, width, be_value(prefix)));
        if let Ok(read) = result {
            assert(all.skip(at + width) =~= read@ + final(cursor)@);
        }
    }
}

} // verus!
