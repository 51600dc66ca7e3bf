//! What holds of all replies on the wire.
use vstd::prelude::*;
use vstd::utf8::*;
use crate::cursor::{
    payload_outcome, FrameKind, Outcome, ReadInterruption, MAXIMUM_FRAME_LENGTH,
};
use crate::failure::{failure, ConnectionError, ErrorKind};
use crate::reply::{
    attach_outcome, gate_lease_outcome, gate_release_outcome, reply_bytes, tag_outcome,
    text_outcome, SocketReplyReader, SocketReplyWriter, WireReply, ACCEPTANCE_REPLY,
    WAIT_SATISFIED_REPLY,
};
use crate::request_laws::{
    length_is_read_back, partial_payload_is_short, payload_is_read_back,
    payload_is_written_as_it_was_read, prefixed, spelling_moves_back,
};
use crate::signal::Response;
use crate::terminal::{TerminalInputGateLease, TerminalInputGateRelease};
use crate::text::{decimal, usize_complaint, utf8_complaint};
use crate::wire::{
    be_bytes, be_bytes_have_the_width, be_bytes_of_be_value, be_bytes_spell_the_number, be_ranges,
    be_value, be_value_is_in_range, be_value_is_spelled, be_value_of_be_bytes, spells,
};

verus! {

/// Whether a reply is short enough to be read.
pub open spec fn readable(reply: WireReply) -> bool {
    match reply {
        WireReply::Snapshot(bytes) => bytes.len() <= MAXIMUM_FRAME_LENGTH,
        WireReply::AttachRejected(reason) => encode_utf8(reason).len() <= MAXIMUM_FRAME_LENGTH,
        WireReply::ExitStatus(status) => encode_utf8(status).len() <= MAXIMUM_FRAME_LENGTH,
        WireReply::Archive(bytes) => bytes.len() <= MAXIMUM_FRAME_LENGTH,
        _ => true,
    }
}

/// Whether reading the bytes, in expectation of the reply, takes so many of them
/// and gives the reply.
pub open spec fn reads_as(bytes: Seq<u8>, reply: WireReply, consumed: nat) -> bool {
    match reply {
        WireReply::Snapshot(value) => payload_outcome(bytes, FrameKind::Reply) == (
        Outcome::Complete { value, consumed }),
        WireReply::Acceptance => tag_outcome(bytes, ACCEPTANCE_REPLY) == (Outcome::Complete {
            value: (),
            consumed,
        }),
        WireReply::AttachAccepted => attach_outcome(bytes) == (Outcome::Complete {
            value: (),
            consumed,
        }),
        WireReply::AttachRejected(reason) => attach_outcome(bytes) == (Outcome::<()>::Refused {
            failure: failure(ErrorKind::ConnectionRefused, reason),
            consumed,
        }),
        WireReply::GateLease(value) => gate_lease_outcome(bytes) == (Outcome::Complete {
            value,
            consumed,
        }),
        WireReply::GateRelease(value) => gate_release_outcome(bytes) == (Outcome::Complete {
            value,
            consumed,
        }),
        WireReply::WaitSatisfied => tag_outcome(bytes, WAIT_SATISFIED_REPLY) == (
        Outcome::Complete { value: (), consumed }),
        WireReply::ExitStatus(value) => text_outcome(bytes) == (Outcome::Complete {
            value,
            consumed,
        }),
        WireReply::Archive(value) => payload_outcome(bytes, FrameKind::Signal) == (
        Outcome::Complete { value, consumed }),
    }
}

/// Whether reading the bytes, in expectation of the reply, calls for so many
/// more.
pub open spec fn is_short_of(bytes: Seq<u8>, reply: WireReply, missing: nat) -> bool {
    match reply {
        WireReply::Snapshot(_) => payload_outcome(bytes, FrameKind::Reply) == (Outcome::<
            Seq<u8>,
        >::Short { missing }),
        WireReply::Acceptance => tag_outcome(bytes, ACCEPTANCE_REPLY) == (Outcome::<()>::Short {
            missing,
        }),
        WireReply::AttachAccepted | WireReply::AttachRejected(_) => attach_outcome(bytes) == (
        Outcome::<()>::Short { missing }),
        WireReply::GateLease(_) => gate_lease_outcome(bytes) == (Outcome::<
            crate::terminal::TerminalInputGateLease,
        >::Short { missing }),
        WireReply::GateRelease(_) => gate_release_outcome(bytes) == (Outcome::<
            crate::terminal::TerminalInputGateRelease,
        >::Short { missing }),
        WireReply::WaitSatisfied => tag_outcome(bytes, WAIT_SATISFIED_REPLY) == (Outcome::<
            (),
        >::Short { missing }),
        WireReply::ExitStatus(_) => text_outcome(bytes) == (Outcome::<Seq<char>>::Short {
            missing,
        }),
        WireReply::Archive(_) => payload_outcome(bytes, FrameKind::Signal) == (Outcome::<
            Seq<u8>,
        >::Short { missing }),
    }
}

/// Text behind its length is read back.
proof fn text_is_read_back(text: Seq<char>, rest: Seq<u8>)
    requires
        encode_utf8(text).len() <= MAXIMUM_FRAME_LENGTH,
    ensures
        text_outcome(prefixed(encode_utf8(text), FrameKind::Reply) + rest) == (Outcome::Complete {
            value: text,
            consumed: 8 + encode_utf8(text).len(),
        }),
{
    payload_is_read_back(encode_utf8(text), FrameKind::Reply, rest);
    encode_utf8_valid_utf8(text);
    encode_utf8_decode_utf8(text);
}

/// Reading a reply gives back what was written, and takes none of the bytes
/// behind it. A rejected attach comes back as a refused connection, with the
/// reason that was written.
pub proof fn reply_survives_the_wire(reply: WireReply, rest: Seq<u8>)
    requires
        readable(reply),
    ensures
        reads_as(reply_bytes(reply) + rest, reply, reply_bytes(reply).len()),
{
    be_ranges();
    let all = reply_bytes(reply) + rest;
    match reply {
        WireReply::Snapshot(bytes) => {
            payload_is_read_back(bytes, FrameKind::Reply, rest);
            assert(all =~= prefixed(bytes, FrameKind::Reply) + rest);
        },
        WireReply::AttachRejected(reason) => {
            text_is_read_back(reason, rest);
            be_bytes_have_the_width(encode_utf8(reason).len(), 8);
            assert(all.skip(1) =~= prefixed(encode_utf8(reason), FrameKind::Reply) + rest);
        },
        WireReply::GateLease(lease) => {
            let value = lease.sequence.value as nat;
            be_bytes_have_the_width(value, 8);
            be_value_of_be_bytes(value, 8);
            assert(all.subrange(1, 9) =~= be_bytes(value, 8));
        },
        WireReply::GateRelease(release) => {
            let value = release.lease.sequence.value as nat;
            let held = release.held_byte_count as nat;
            be_bytes_have_the_width(value, 8);
            be_value_of_be_bytes(value, 8);
            be_bytes_have_the_width(held, 8);
            be_value_of_be_bytes(held, 8);
            assert(all.subrange(1, 9) =~= be_bytes(value, 8));
            assert(all.subrange(9, 17) =~= be_bytes(held, 8));
        },
        WireReply::ExitStatus(status) => {
            text_is_read_back(status, rest);
            be_bytes_have_the_width(encode_utf8(status).len(), 8);
            assert(all =~= prefixed(encode_utf8(status), FrameKind::Reply) + rest);
        },
        WireReply::Archive(bytes) => {
            payload_is_read_back(bytes, FrameKind::Signal, rest);
            assert(all =~= prefixed(bytes, FrameKind::Signal) + rest);
        },
        _ => {},
    }
}

/// Part of a reply calls for bytes of the reply, and for no others: the raw
/// bytes behind an accepted attach are left on the connection.
pub proof fn partial_reply_is_short(reply: WireReply, cut: nat)
    requires
        readable(reply),
        cut < reply_bytes(reply).len(),
    ensures
        exists|missing: nat|
            1 <= missing <= reply_bytes(reply).len() - cut && #[trigger] is_short_of(
                reply_bytes(reply).take(cut as int),
                reply,
                missing,
            ),
{
    be_ranges();
    let part = reply_bytes(reply).take(cut as int);
    match reply {
        WireReply::Snapshot(bytes) => {
            partial_payload_is_short(bytes, FrameKind::Reply, cut);
            assert(part =~= prefixed(bytes, FrameKind::Reply).take(cut as int));
            assert(is_short_of(part, reply, payload_outcome(part, FrameKind::Reply)->missing));
        },
        WireReply::AttachRejected(reason) => {
            let text = encode_utf8(reason);
            be_bytes_have_the_width(text.len(), 8);
            if cut == 0 {
                assert(is_short_of(part, reply, 1));
            } else {
                partial_payload_is_short(text, FrameKind::Reply, (cut - 1) as nat);
                assert(part.skip(1) =~= prefixed(text, FrameKind::Reply).take(cut - 1));
                assert(is_short_of(
                    part,
                    reply,
                    payload_outcome(part.skip(1), FrameKind::Reply)->missing,
                ));
            }
        },
        WireReply::GateLease(lease) => {
            be_bytes_have_the_width(lease.sequence.value as nat, 8);
            assert(is_short_of(part, reply, gate_lease_outcome(part)->missing));
        },
        WireReply::GateRelease(release) => {
            be_bytes_have_the_width(release.lease.sequence.value as nat, 8);
            be_bytes_have_the_width(release.held_byte_count as nat, 8);
            assert(is_short_of(part, reply, gate_release_outcome(part)->missing));
        },
        WireReply::ExitStatus(status) => {
            let text = encode_utf8(status);
            partial_payload_is_short(text, FrameKind::Reply, cut);
            assert(part =~= prefixed(text, FrameKind::Reply).take(cut as int));
            assert(is_short_of(part, reply, payload_outcome(part, FrameKind::Reply)->missing));
        },
        WireReply::Archive(bytes) => {
            partial_payload_is_short(bytes, FrameKind::Signal, cut);
            assert(part =~= prefixed(bytes, FrameKind::Signal).take(cut as int));
            assert(is_short_of(part, reply, payload_outcome(part, FrameKind::Signal)->missing));
        },
        _ => {
            assert(is_short_of(part, reply, 1));
        },
    }
}

/// A reply over the maximum is refused for its length, with the length in the
/// message.
pub proof fn oversized_snapshot_is_refused(bytes: Seq<u8>, rest: Seq<u8>)
    requires
        MAXIMUM_FRAME_LENGTH < bytes.len() <= u64::MAX,
    ensures
        payload_outcome(reply_bytes(WireReply::Snapshot(bytes)) + rest, FrameKind::Reply) == (
        Outcome::<Seq<u8>>::Refused {
            failure: failure(ErrorKind::InvalidData, FrameKind::Reply.too_long(bytes.len())),
            consumed: 8,
        }),
{
    be_ranges();
    let all = reply_bytes(WireReply::Snapshot(bytes)) + rest;
    length_is_read_back(bytes.len(), FrameKind::Reply, bytes + rest);
    assert(all =~= be_bytes(bytes.len(), 8) + (bytes + rest));
}

/// A text over the maximum is refused for its length, and so is the reason of a
/// rejected attach.
pub proof fn oversized_text_is_refused(text: Seq<char>, rest: Seq<u8>)
    requires
        MAXIMUM_FRAME_LENGTH < encode_utf8(text).len() <= u64::MAX,
    ensures
        text_outcome(reply_bytes(WireReply::ExitStatus(text)) + rest) == (Outcome::<
            Seq<char>,
        >::Refused {
            failure: failure(
                ErrorKind::InvalidData,
                FrameKind::Reply.too_long(encode_utf8(text).len()),
            ),
            consumed: 8,
        }),
        attach_outcome(reply_bytes(WireReply::AttachRejected(text)) + rest) == (Outcome::<
            (),
        >::Refused {
            failure: failure(
                ErrorKind::InvalidData,
                FrameKind::Reply.too_long(encode_utf8(text).len()),
            ),
            consumed: 9,
        }),
{
    let bytes = encode_utf8(text);
    oversized_snapshot_is_refused(bytes, rest);
    assert((reply_bytes(WireReply::AttachRejected(text)) + rest).skip(1) =~= reply_bytes(
        WireReply::Snapshot(bytes),
    ) + rest);
}

/// The archive of a response over the maximum is refused for its length, as long
/// as the length fits its four bytes.
pub proof fn oversized_response_is_refused(archive: Seq<u8>, rest: Seq<u8>)
    requires
        MAXIMUM_FRAME_LENGTH < archive.len() <= u32::MAX,
    ensures
        payload_outcome(reply_bytes(WireReply::Archive(archive)) + rest, FrameKind::Signal) == (
        Outcome::<Seq<u8>>::Refused {
            failure: failure(ErrorKind::InvalidData, FrameKind::Signal.too_long(archive.len())),
            consumed: 4,
        }),
{
    be_ranges();
    let all = reply_bytes(WireReply::Archive(archive)) + rest;
    length_is_read_back(archive.len(), FrameKind::Signal, archive + rest);
    assert(all =~= be_bytes(archive.len(), 4) + (archive + rest));
}

/// The bytes of each reply: its letter, where it has one, numbers spelled out, and payloads
/// unchanged behind their lengths.
pub proof fn replies_have_their_layout(reply: WireReply)
    ensures
        ({
            let bytes = reply_bytes(reply);
            match reply {
                WireReply::Snapshot(payload) => {
                    &&& bytes.len() == 8 + payload.len()
                    &&& spells(bytes, 0, 8, payload.len())
                    &&& bytes.skip(8) == payload
                },
                WireReply::Acceptance => bytes == seq![0x41u8],
                WireReply::AttachAccepted => bytes == seq![0x49u8],
                WireReply::AttachRejected(reason) => {
                    &&& bytes.len() == 9 + encode_utf8(reason).len()
                    &&& bytes[0] == 0x4au8
                    &&& spells(bytes, 1, 8, encode_utf8(reason).len())
                    &&& bytes.skip(9) == encode_utf8(reason)
                },
                WireReply::GateLease(lease) => {
                    &&& bytes.len() == 9
                    &&& bytes[0] == 0x4cu8
                    &&& spells(bytes, 1, 8, lease.sequence.value as nat)
                },
                WireReply::GateRelease(release) => {
                    &&& bytes.len() == 17
                    &&& bytes[0] == 0x55u8
                    &&& spells(bytes, 1, 8, release.lease.sequence.value as nat)
                    &&& spells(bytes, 9, 8, release.held_byte_count as nat)
                },
                WireReply::WaitSatisfied => bytes == seq![0x59u8],
                WireReply::ExitStatus(status) => {
                    &&& bytes.len() == 8 + encode_utf8(status).len()
                    &&& spells(bytes, 0, 8, encode_utf8(status).len())
                    &&& bytes.skip(8) == encode_utf8(status)
                },
                WireReply::Archive(payload) => {
                    &&& bytes.len() == 4 + payload.len()
                    &&& spells(bytes, 0, 4, payload.len())
                    &&& bytes.skip(4) == payload
                },
            }
        }),
{
    let bytes = reply_bytes(reply);
    let none = Seq::<u8>::empty();
    match reply {
        WireReply::Snapshot(payload) => {
            be_bytes_spell_the_number(payload.len(), 8);
            spelling_moves_back(none, be_bytes(payload.len(), 8), payload, payload.len());
            assert(bytes =~= none + be_bytes(payload.len(), 8) + payload);
            assert(bytes.skip(8) =~= payload);
        },
        WireReply::AttachRejected(reason) => {
            let payload = encode_utf8(reason);
            be_bytes_spell_the_number(payload.len(), 8);
            spelling_moves_back(seq![0x4au8], be_bytes(payload.len(), 8), payload, payload.len());
            assert(bytes =~= seq![0x4au8] + be_bytes(payload.len(), 8) + payload);
            assert(bytes.skip(9) =~= payload);
        },
        WireReply::GateLease(lease) => {
            let value = lease.sequence.value as nat;
            be_bytes_spell_the_number(value, 8);
            spelling_moves_back(seq![0x4cu8], be_bytes(value, 8), none, value);
            assert(bytes =~= seq![0x4cu8] + be_bytes(value, 8) + none);
        },
        WireReply::GateRelease(release) => {
            let value = release.lease.sequence.value as nat;
            let held = release.held_byte_count as nat;
            be_bytes_spell_the_number(value, 8);
            be_bytes_spell_the_number(held, 8);
            spelling_moves_back(seq![0x55u8], be_bytes(value, 8), be_bytes(held, 8), value);
            spelling_moves_back(seq![0x55u8] + be_bytes(value, 8), be_bytes(held, 8), none, held);
            assert(bytes =~= seq![0x55u8] + be_bytes(value, 8) + be_bytes(held, 8));
            assert(bytes =~= seq![0x55u8] + be_bytes(value, 8) + be_bytes(held, 8) + none);
        },
        WireReply::ExitStatus(status) => {
            let payload = encode_utf8(status);
            be_bytes_spell_the_number(payload.len(), 8);
            spelling_moves_back(none, be_bytes(payload.len(), 8), payload, payload.len());
            assert(bytes =~= none + be_bytes(payload.len(), 8) + payload);
            assert(bytes.skip(8) =~= payload);
        },
        WireReply::Archive(payload) => {
            be_bytes_spell_the_number(payload.len(), 4);
            spelling_moves_back(none, be_bytes(payload.len(), 4), payload, payload.len());
            assert(bytes =~= none + be_bytes(payload.len(), 4) + payload);
            assert(bytes.skip(4) =~= payload);
        },
        _ => {},
    }
}

/// A reply that was read is the only one with those bytes.
pub proof fn reply_is_written_as_it_was_read(bytes: Seq<u8>, reply: WireReply, consumed: nat)
    requires
        reads_as(bytes, reply, consumed),
        consumed <= bytes.len(),
    ensures
        reply_bytes(reply) == bytes.take(consumed as int),
        bytes == reply_bytes(reply) + bytes.skip(consumed as int),
{
    be_ranges();
    let written = reply_bytes(reply);
    match reply {
        WireReply::Snapshot(value) => {
            payload_is_written_as_it_was_read(bytes, FrameKind::Reply);
        },
        WireReply::AttachRejected(reason) => {
            let rest = bytes.skip(1);
            if payload_outcome(rest, FrameKind::Reply) is Complete {
                payload_is_written_as_it_was_read(rest, FrameKind::Reply);
                let payload = payload_outcome(rest, FrameKind::Reply)->value;
                if valid_utf8(payload) {
                    decode_utf8_encode_utf8(payload);
                }
            }
        },
        WireReply::GateLease(lease) => {
            be_value_is_in_range(bytes.subrange(1, 9));
            be_bytes_of_be_value(bytes.subrange(1, 9));
        },
        WireReply::GateRelease(release) => {
            be_value_is_in_range(bytes.subrange(1, 9));
            be_bytes_of_be_value(bytes.subrange(1, 9));
            be_bytes_of_be_value(bytes.subrange(9, 17));
        },
        WireReply::ExitStatus(status) => {
            payload_is_written_as_it_was_read(bytes, FrameKind::Reply);
            decode_utf8_encode_utf8(payload_outcome(bytes, FrameKind::Reply)->value);
        },
        WireReply::Archive(value) => {
            payload_is_written_as_it_was_read(bytes, FrameKind::Signal);
        },
        _ => {},
    }
    assert(written =~= bytes.take(consumed as int));
    assert(bytes =~= written + bytes.skip(consumed as int));
}

/// Whether a read failed for a letter that was not the expected one: the letter is taken,
/// and the message gives its number behind a preamble.
pub open spec fn fails_on_the_letter(
    error: ConnectionError,
    preamble: Seq<char>,
    before: Seq<u8>,
    after: Seq<u8>,
) -> bool {
    &&& before.len() > 0
    &&& error.kind is InvalidData
    &&& error.message@ == preamble + decimal(before[0] as nat)
    &&& after == before.skip(1)
}

/// Whether a read failed for a length over the maximum, which stood `at` bytes from the
/// front.
pub open spec fn fails_on_the_length(
    error: ConnectionError,
    at: nat,
    before: Seq<u8>,
    after: Seq<u8>,
) -> bool {
    &&& error.kind is InvalidData
    &&& exists|length: nat|
        length > 16 * 1024 * 1024 && #[trigger] spells(before, at, 8, length) && error.message@
            == "socket reply length "@ + decimal(length) + " exceeds maximum"@
    &&& after == before.skip(at as int + 8)
}

/// Whether a read failed for a payload that is no text, and that stands behind its length
/// `at` bytes from the front.
pub open spec fn fails_on_the_text(
    error: ConnectionError,
    at: nat,
    before: Seq<u8>,
    after: Seq<u8>,
) -> bool {
    &&& error.kind is InvalidData
    &&& exists|payload: Seq<u8>|
        {
            &&& !#[trigger] valid_utf8(payload)
            &&& spells(before, at, 8, payload.len())
            &&& before.skip(at as int + 8) == payload + after
            &&& error.message@ == "socket reply string was not utf-8: "@ + utf8_complaint(payload)
        }
}

proof fn refused_length_is_spelled(bytes: Seq<u8>, at: nat)
    requires
        at + 8 <= bytes.len(),
    ensures
        spells(bytes, at, 8, be_value(bytes.skip(at as int).take(8))),
{
    let prefix = bytes.skip(at as int).take(8);
    be_value_is_spelled(prefix);
    spelling_moves_back(
        bytes.take(at as int),
        prefix,
        bytes.skip(at as int + 8),
        be_value(prefix),
    );
    assert(bytes =~= bytes.take(at as int) + prefix + bytes.skip(at as int + 8));
}

/// Whether a read of a reply comes out as it should: with the whole reply in front it
/// succeeds and leaves what follows; with part of it there it asks for bytes of the reply,
/// and for no others.
pub open spec fn reads_in_full<T>(
    result: Result<T, ReadInterruption>,
    reply: WireReply,
    rest: Seq<u8>,
    cut: nat,
    before: Seq<u8>,
    after: Seq<u8>,
) -> bool {
    readable(reply) ==> {
        &&& before == reply_bytes(reply) + rest ==> result is Ok && after == rest
        &&& cut < reply_bytes(reply).len() && before == reply_bytes(reply).take(cut as int) ==> {
            &&& result matches Err(ReadInterruption::NeedBytes(count))
            &&& 1 <= count <= reply_bytes(reply).len() - cut
        }
    }
}

proof fn reply_in_front_is_read(reply: WireReply, rest: Seq<u8>, cut: nat, before: Seq<u8>)
    ensures
        readable(reply) && before == reply_bytes(reply) + rest ==> reads_as(
            before,
            reply,
            reply_bytes(reply).len(),
        ) && before.skip(reply_bytes(reply).len() as int) == rest,
        readable(reply) && cut < reply_bytes(reply).len() && before == reply_bytes(reply).take(
            cut as int,
        ) ==> exists|missing: nat|
            1 <= missing <= reply_bytes(reply).len() - cut && #[trigger] is_short_of(
                before,
                reply,
                missing,
            ),
{
    if readable(reply) && before == reply_bytes(reply) + rest {
        reply_survives_the_wire(reply, rest);
        assert(before.skip(reply_bytes(reply).len() as int) =~= rest);
    }
    if readable(reply) && cut < reply_bytes(reply).len() && before == reply_bytes(reply).take(
        cut as int,
    ) {
        partial_reply_is_short(reply, cut);
    }
}

/// A transcript that was written is read, and what is read was written; nothing but a
/// length over the maximum fails.
pub proof fn snapshot_is_read_as_written(
    reader: &mut SocketReplyReader,
    result: Result<Vec<u8>, ReadInterruption>,
    value: Seq<u8>,
    rest: Seq<u8>,
    cut: nat,
)
    requires
        call_ensures(SocketReplyReader::read_snapshot, (reader,), result),
    ensures
        reads_in_full(
            result,
            WireReply::Snapshot(value),
            rest,
            cut,
            old(reader)@,
            final(reader)@,
        ),
        readable(WireReply::Snapshot(value)) && old(reader)@ == reply_bytes(
            WireReply::Snapshot(value),
        ) + rest ==> (result matches Ok(read) && read@ == value),
        match result {
            Ok(read) => old(reader)@ == reply_bytes(WireReply::Snapshot(read@)) + final(reader)@,
            Err(ReadInterruption::NeedBytes(count)) => count > 0 && final(reader)@ == old(reader)@,
            Err(ReadInterruption::Failed(error)) => fails_on_the_length(
                error,
                0,
                old(reader)@,
                final(reader)@,
            ),
        },
{
    let bytes = old(reader)@;
    reply_in_front_is_read(WireReply::Snapshot(value), rest, cut, bytes);
    if let Ok(read) = result {
        let consumed: nat = (bytes.len() - final(reader)@.len()) as nat;
        reply_is_written_as_it_was_read(bytes, WireReply::Snapshot(read@), consumed);
    }
    if result matches Err(ReadInterruption::Failed(_)) {
        refused_length_is_spelled(bytes, 0);
        assert(bytes.skip(0) =~= bytes);
    }
}

/// An acceptance is read where one was written; any other letter fails.
pub proof fn acceptance_is_read_as_written(
    reader: &mut SocketReplyReader,
    result: Result<(), ReadInterruption>,
    rest: Seq<u8>,
    cut: nat,
)
    requires
        call_ensures(SocketReplyReader::read_acceptance, (reader,), result),
    ensures
        reads_in_full(
            result,
            WireReply::Acceptance,
            rest,
            cut,
            old(reader)@,
            final(reader)@,
        ),
        match result {
            Ok(read) => old(reader)@ == reply_bytes(WireReply::Acceptance) + final(reader)@,
            Err(ReadInterruption::NeedBytes(count)) => count > 0 && final(reader)@ == old(reader)@,
            Err(ReadInterruption::Failed(error)) => fails_on_the_letter(
                error,
                "unexpected socket reply tag: "@,
                old(reader)@,
                final(reader)@,
            ),
        },
{
    let bytes = old(reader)@;
    reply_in_front_is_read(WireReply::Acceptance, rest, cut, bytes);
    if let Ok(read) = result {
        let consumed: nat = (bytes.len() - final(reader)@.len()) as nat;
        reply_is_written_as_it_was_read(bytes, WireReply::Acceptance, consumed);
    }
}

/// A lease that was written is read, and what is read was written; any other letter fails.
pub proof fn lease_is_read_as_written(
    reader: &mut SocketReplyReader,
    result: Result<TerminalInputGateLease, ReadInterruption>,
    value: TerminalInputGateLease,
    rest: Seq<u8>,
    cut: nat,
)
    requires
        call_ensures(SocketReplyReader::read_gate_lease, (reader,), result),
    ensures
        reads_in_full(
            result,
            WireReply::GateLease(value),
            rest,
            cut,
            old(reader)@,
            final(reader)@,
        ),
        readable(WireReply::GateLease(value)) && old(reader)@ == reply_bytes(
            WireReply::GateLease(value),
        ) + rest ==> (result matches Ok(read) && read == value),
        match result {
            Ok(read) => old(reader)@ == reply_bytes(WireReply::GateLease(read)) + final(reader)@,
            Err(ReadInterruption::NeedBytes(count)) => count > 0 && final(reader)@ == old(reader)@,
            Err(ReadInterruption::Failed(error)) => fails_on_the_letter(
                error,
                "unexpected socket reply tag: "@,
                old(reader)@,
                final(reader)@,
            ),
        },
{
    let bytes = old(reader)@;
    reply_in_front_is_read(WireReply::GateLease(value), rest, cut, bytes);
    if let Ok(read) = result {
        let consumed: nat = (bytes.len() - final(reader)@.len()) as nat;
        reply_is_written_as_it_was_read(bytes, WireReply::GateLease(read), consumed);
    }
}

/// A release that was written is read, and what is read was written; any other letter
/// fails, and so does a count that `usize` has no room for.
pub proof fn release_is_read_as_written(
    reader: &mut SocketReplyReader,
    result: Result<TerminalInputGateRelease, ReadInterruption>,
    value: TerminalInputGateRelease,
    rest: Seq<u8>,
    cut: nat,
)
    requires
        call_ensures(SocketReplyReader::read_gate_release, (reader,), result),
    ensures
        reads_in_full(
            result,
            WireReply::GateRelease(value),
            rest,
            cut,
            old(reader)@,
            final(reader)@,
        ),
        readable(WireReply::GateRelease(value)) && old(reader)@ == reply_bytes(
            WireReply::GateRelease(value),
        ) + rest ==> (result matches Ok(read) && read == value),
        match result {
            Ok(read) => old(reader)@ == reply_bytes(WireReply::GateRelease(read)) + final(reader)@,
            Err(ReadInterruption::NeedBytes(count)) => count > 0 && final(reader)@ == old(reader)@,
            Err(ReadInterruption::Failed(error)) => {
                ||| fails_on_the_letter(
                    error,
                    "unexpected socket reply tag: "@,
                    old(reader)@,
                    final(reader)@,
                )
                ||| {
                    &&& error.kind is InvalidData
                    &&& exists|held: u64|
                        held > usize::MAX && spells(old(reader)@, 9, 8, held as nat)
                            && error.message@ == "gate release held byte count overflowed usize: "@
                            + #[trigger] usize_complaint(held)
                    &&& final(reader)@ == old(reader)@.skip(17)
                }
            },
        },
{
    let bytes = old(reader)@;
    reply_in_front_is_read(WireReply::GateRelease(value), rest, cut, bytes);
    if let Ok(read) = result {
        let consumed: nat = (bytes.len() - final(reader)@.len()) as nat;
        reply_is_written_as_it_was_read(bytes, WireReply::GateRelease(read), consumed);
    }
    if result matches Err(ReadInterruption::Failed(_)) {
        be_ranges();
        if bytes.len() >= 17 {
            let held = be_value(bytes.subrange(9, 17));
            be_value_is_in_range(bytes.subrange(9, 17));
            refused_length_is_spelled(bytes, 9);
            assert(bytes.skip(9).take(8) =~= bytes.subrange(9, 17));
            assert(usize_complaint(held as u64) == usize_complaint(held as u64));
        }
    }
}

/// The end of a wait is read where one was written; any other letter fails.
pub proof fn wait_is_read_as_written(
    reader: &mut SocketReplyReader,
    result: Result<(), ReadInterruption>,
    rest: Seq<u8>,
    cut: nat,
)
    requires
        call_ensures(SocketReplyReader::read_wait_satisfied, (reader,), result),
    ensures
        reads_in_full(
            result,
            WireReply::WaitSatisfied,
            rest,
            cut,
            old(reader)@,
            final(reader)@,
        ),
        match result {
            Ok(read) => old(reader)@ == reply_bytes(WireReply::WaitSatisfied) + final(reader)@,
            Err(ReadInterruption::NeedBytes(count)) => count > 0 && final(reader)@ == old(reader)@,
            Err(ReadInterruption::Failed(error)) => fails_on_the_letter(
                error,
                "unexpected socket reply tag: "@,
                old(reader)@,
                final(reader)@,
            ),
        },
{
    let bytes = old(reader)@;
    reply_in_front_is_read(WireReply::WaitSatisfied, rest, cut, bytes);
    if let Ok(read) = result {
        let consumed: nat = (bytes.len() - final(reader)@.len()) as nat;
        reply_is_written_as_it_was_read(bytes, WireReply::WaitSatisfied, consumed);
    }
}

/// An exit status that was written is read, and what is read was written; nothing but a
/// length over the maximum and a payload that is no text fails.
pub proof fn status_is_read_as_written(
    reader: &mut SocketReplyReader,
    result: Result<String, ReadInterruption>,
    value: Seq<char>,
    rest: Seq<u8>,
    cut: nat,
)
    requires
        call_ensures(SocketReplyReader::read_exit_status, (reader,), result),
    ensures
        reads_in_full(
            result,
            WireReply::ExitStatus(value),
            rest,
            cut,
            old(reader)@,
            final(reader)@,
        ),
        readable(WireReply::ExitStatus(value)) && old(reader)@ == reply_bytes(
            WireReply::ExitStatus(value),
        ) + rest ==> (result matches Ok(read) && read@ == value),
        match result {
            Ok(read) => old(reader)@ == reply_bytes(WireReply::ExitStatus(read@)) + final(reader)@,
            Err(ReadInterruption::NeedBytes(count)) => count > 0 && final(reader)@ == old(reader)@,
            Err(ReadInterruption::Failed(error)) => {
                ||| fails_on_the_length(error, 0, old(reader)@, final(reader)@)
                ||| fails_on_the_text(error, 0, old(reader)@, final(reader)@)
            },
        },
{
    let bytes = old(reader)@;
    reply_in_front_is_read(WireReply::ExitStatus(value), rest, cut, bytes);
    if let Ok(read) = result {
        let consumed: nat = (bytes.len() - final(reader)@.len()) as nat;
        reply_is_written_as_it_was_read(bytes, WireReply::ExitStatus(read@), consumed);
    }
    if result matches Err(ReadInterruption::Failed(_)) {
        if bytes.len() >= 8 {
            refused_length_is_spelled(bytes, 0);
            assert(bytes.skip(0) =~= bytes);
            if payload_outcome(bytes, FrameKind::Reply) is Complete {
                let payload = payload_outcome(bytes, FrameKind::Reply)->value;
                assert(bytes.skip(8) =~= payload + final(reader)@);
                assert(!valid_utf8(payload));
            }
        }
    }
}

/// An archive that was written is read, and what is read was written; nothing but a length
/// over the maximum fails.
pub proof fn archive_is_read_as_written(
    reader: &mut SocketReplyReader,
    result: Result<Vec<u8>, ReadInterruption>,
    value: Seq<u8>,
    rest: Seq<u8>,
    cut: nat,
)
    requires
        call_ensures(SocketReplyReader::read_signal_event, (reader,), result),
    ensures
        reads_in_full(
            result,
            WireReply::Archive(value),
            rest,
            cut,
            old(reader)@,
            final(reader)@,
        ),
        readable(WireReply::Archive(value)) && old(reader)@ == reply_bytes(
            WireReply::Archive(value),
        ) + rest ==> (result matches Ok(read) && read@ == value),
        match result {
            Ok(read) => old(reader)@ == reply_bytes(WireReply::Archive(read@)) + final(reader)@,
            Err(ReadInterruption::NeedBytes(count)) => count > 0 && final(reader)@ == old(reader)@,
            Err(ReadInterruption::Failed(error)) => {
                &&& error.kind is InvalidData
                &&& error.message@ == "signal length exceeds maximum"@
                &&& exists|length: nat|
                    length > 16 * 1024 * 1024 && #[trigger] spells(old(reader)@, 0, 4, length)
                &&& final(reader)@ == old(reader)@.skip(4)
            },
        },
{
    let bytes = old(reader)@;
    reply_in_front_is_read(WireReply::Archive(value), rest, cut, bytes);
    if let Ok(read) = result {
        let consumed: nat = (bytes.len() - final(reader)@.len()) as nat;
        reply_is_written_as_it_was_read(bytes, WireReply::Archive(read@), consumed);
    }
    if result matches Err(ReadInterruption::Failed(_)) {
        let prefix = bytes.take(4);
        be_value_is_spelled(prefix);
        spelling_moves_back(Seq::empty(), prefix, bytes.skip(4), be_value(prefix));
        assert(bytes =~= Seq::empty() + prefix + bytes.skip(4));
        assert(spells(bytes, 0, 4, be_value(prefix)));
    }
}

/// The answer to an attach is read as it was written: an acceptance succeeds, and a
/// rejection fails as a refused connection with its reason. Any other letter fails, and so
/// does a reason that is over the maximum or no text.
pub proof fn attach_answer_is_read_as_written(
    reader: &mut SocketReplyReader,
    result: Result<(), ReadInterruption>,
    reason: Seq<char>,
    rest: Seq<u8>,
    cut: nat,
)
    requires
        call_ensures(SocketReplyReader::read_attach_acceptance, (reader,), result),
    ensures
        old(reader)@.len() == 0 ==> result matches Err(ReadInterruption::NeedBytes(1)),
        readable(WireReply::AttachRejected(reason)) && cut < reply_bytes(
            WireReply::AttachRejected(reason),
        ).len() && old(reader)@ == reply_bytes(WireReply::AttachRejected(reason)).take(
            cut as int,
        ) ==> {
            &&& result matches Err(ReadInterruption::NeedBytes(count))
            &&& 1 <= count <= reply_bytes(WireReply::AttachRejected(reason)).len() - cut
        },
        old(reader)@ == reply_bytes(WireReply::AttachAccepted) + rest ==> result is Ok
            && final(reader)@ == rest,
        readable(WireReply::AttachRejected(reason)) && old(reader)@ == reply_bytes(
            WireReply::AttachRejected(reason),
        ) + rest ==> {
            &&& result matches Err(ReadInterruption::Failed(error))
            &&& error.kind is ConnectionRefused
            &&& error.message@ == reason
            &&& final(reader)@ == rest
        },
        match result {
            Ok(()) => old(reader)@ == reply_bytes(WireReply::AttachAccepted) + final(reader)@,
            Err(ReadInterruption::NeedBytes(count)) => count > 0 && final(reader)@ == old(reader)@,
            Err(ReadInterruption::Failed(error)) => {
                ||| error.kind is ConnectionRefused && old(reader)@ == reply_bytes(
                    WireReply::AttachRejected(error.message@),
                ) + final(reader)@
                ||| fails_on_the_letter(
                    error,
                    "unexpected attach reply tag: "@,
                    old(reader)@,
                    final(reader)@,
                )
                ||| fails_on_the_length(error, 1, old(reader)@, final(reader)@)
                ||| fails_on_the_text(error, 1, old(reader)@, final(reader)@)
            },
        },
{
    let bytes = old(reader)@;
    let rejected = WireReply::AttachRejected(reason);
    reply_in_front_is_read(WireReply::AttachAccepted, rest, 0, bytes);
    reply_in_front_is_read(rejected, rest, cut, bytes);
    match result {
        Ok(()) => {
            reply_is_written_as_it_was_read(bytes, WireReply::AttachAccepted, 1);
        },
        Err(ReadInterruption::Failed(error)) => {
            let consumed: nat = (bytes.len() - final(reader)@.len()) as nat;
            if error.kind is ConnectionRefused {
                reply_is_written_as_it_was_read(
                    bytes,
                    WireReply::AttachRejected(error.message@),
                    consumed,
                );
            } else if bytes.len() >= 9 {
                refused_length_is_spelled(bytes, 1);
                let behind = bytes.skip(1);
                if payload_outcome(behind, FrameKind::Reply) is Complete {
                    let payload = payload_outcome(behind, FrameKind::Reply)->value;
                    if bytes[0] == 0x4au8 {
                        assert(bytes.skip(9) =~= payload + final(reader)@);
                        assert(!valid_utf8(payload));
                    }
                }
            }
        },
        _ => {},
    }
}

/// A response that was restored is handed on; what could not be restored fails with what was
/// said of it.
pub proof fn restored_response_is_handed_on(
    response: Result<Response, String>,
    restored: Result<Response, ConnectionError>,
)
    requires
        call_ensures(SocketReplyReader::restored_signal_event, (response,), restored),
    ensures
        match response {
            Ok(response) => restored matches Ok(same) && same == response,
            Err(complaint) => {
                &&& restored matches Err(error)
                &&& error.kind is InvalidData
                &&& error.message@ == "signal response restore failed: "@ + complaint@
            },
        },
{
}

/// Whatever is written stands behind what was there, and each writer writes the reply that
/// it is named after.
pub proof fn replies_are_written_behind_each_other(
    writer: &mut SocketReplyWriter,
    bytes: &[u8],
    text: &str,
    lease: TerminalInputGateLease,
    release: TerminalInputGateRelease,
)
    ensures
        call_ensures(SocketReplyWriter::write_snapshot, (writer, bytes), ())
            ==> final(writer)@ == old(writer)@ + reply_bytes(WireReply::Snapshot(bytes@)),
        call_ensures(SocketReplyWriter::write_acceptance, (writer,), ())
            ==> final(writer)@ == old(writer)@ + reply_bytes(WireReply::Acceptance),
        call_ensures(SocketReplyWriter::write_attach_accepted, (writer,), ())
            ==> final(writer)@ == old(writer)@ + reply_bytes(WireReply::AttachAccepted),
        call_ensures(SocketReplyWriter::write_attach_rejected, (writer, text), ())
            ==> final(writer)@ == old(writer)@ + reply_bytes(WireReply::AttachRejected(text@)),
        call_ensures(SocketReplyWriter::write_gate_lease, (writer, lease), ())
            ==> final(writer)@ == old(writer)@ + reply_bytes(WireReply::GateLease(lease)),
        call_ensures(SocketReplyWriter::write_gate_release, (writer, release), ())
            ==> final(writer)@ == old(writer)@ + reply_bytes(WireReply::GateRelease(release)),
        call_ensures(SocketReplyWriter::write_wait_satisfied, (writer,), ())
            ==> final(writer)@ == old(writer)@ + reply_bytes(WireReply::WaitSatisfied),
        call_ensures(SocketReplyWriter::write_exit_status, (writer, text), ())
            ==> final(writer)@ == old(writer)@ + reply_bytes(WireReply::ExitStatus(text@)),
{
}

/// An archive is written behind what was there. Where there is none, nothing is written, and
/// the failure says why.
pub proof fn archive_is_written_or_missed(
    writer: &mut SocketReplyWriter,
    archive: Result<Vec<u8>, String>,
    written: Result<(), ConnectionError>,
)
    requires
        call_ensures(SocketReplyWriter::write_signal_event, (writer, archive), written),
    ensures
        match archive {
            Ok(bytes) => {
                &&& written is Ok
                &&& final(writer)@ == old(writer)@ + reply_bytes(WireReply::Archive(bytes@))
            },
            Err(complaint) => {
                &&& written matches Err(error)
                &&& error.kind is InvalidData
                &&& error.message@ == "signal response archive failed: "@ + complaint@
                &&& final(writer)@ == old(writer)@
            },
        },
{
}

/// A writer begins behind the bytes that it is given, and gives back all that it has. A
/// reader has the bytes that it is given, and those that come in behind them.
pub proof fn writers_and_readers_hold_their_bytes(
    bytes: Vec<u8>,
    fresh_writer: SocketReplyWriter,
    writer: SocketReplyWriter,
    given_back: Vec<u8>,
    fresh_reader: SocketReplyReader,
    reader: &mut SocketReplyReader,
    more: &[u8],
)
    requires
        call_ensures(SocketReplyWriter::new, (bytes,), fresh_writer),
        call_ensures(SocketReplyWriter::into_bytes, (writer,), given_back),
        call_ensures(SocketReplyReader::new, (bytes,), fresh_reader),
        call_ensures(SocketReplyReader::receive, (reader, more), ()),
    ensures
        fresh_writer@ == bytes@,
        given_back@ == writer@,
        fresh_reader@ == bytes@,
        final(reader)@ == old(reader)@ + more@,
{
}

} // verus!
