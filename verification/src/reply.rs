//! Replies on the wire. Which reply comes depends on the request, so a reader
//! asks for the one that it expects.
use vstd::prelude::*;
use vstd::string::*;
use vstd::utf8::*;
use crate::cursor::{
    answers, payload_outcome, ByteCursor, FrameKind, Outcome, ReadInterruption,
};
use crate::failure::{failure, ConnectionError, ErrorKind};
use crate::request::{frame, signal_frame};
use crate::signal::Response;
use crate::terminal::{
    gate_lease, TerminalInputGateLease, TerminalInputGateRelease, TerminalInputGateSequence,
};
use crate::text::{
    decimal, joined, numbered, usize_complaint, usize_from, utf8_complaint, utf8_text,
};
use crate::wire::{be_bytes, be_value, push_big_endian};

verus! {

/// `A`.
pub const ACCEPTANCE_REPLY: u8 = 0x41;

/// `I`.
pub const ATTACH_ACCEPTED_REPLY: u8 = 0x49;

/// `J`.
pub const ATTACH_REJECTED_REPLY: u8 = 0x4a;

/// `L`.
pub const GATE_LEASE_REPLY: u8 = 0x4c;

/// `U`.
pub const GATE_RELEASE_REPLY: u8 = 0x55;

/// `Y`.
pub const WAIT_SATISFIED_REPLY: u8 = 0x59;

/// A reply, as contracts speak of it.
pub ghost enum WireReply {
    Snapshot(Seq<u8>),
    Acceptance,
    AttachAccepted,
    AttachRejected(Seq<char>),
    GateLease(TerminalInputGateLease),
    GateRelease(TerminalInputGateRelease),
    WaitSatisfied,
    ExitStatus(Seq<char>),
    /// The archive of a response.
    Archive(Seq<u8>),
}

/// The bytes of a reply.
pub open spec fn reply_bytes(reply: WireReply) -> Seq<u8> {
    match reply {
        WireReply::Snapshot(bytes) => frame(bytes),
        WireReply::Acceptance => seq![ACCEPTANCE_REPLY],
        WireReply::AttachAccepted => seq![ATTACH_ACCEPTED_REPLY],
        WireReply::AttachRejected(reason) => seq![ATTACH_REJECTED_REPLY] + frame(
            encode_utf8(reason),
        ),
        WireReply::GateLease(lease) => seq![GATE_LEASE_REPLY] + be_bytes(
            lease.sequence.value as nat,
            8,
        ),
        WireReply::GateRelease(release) => seq![GATE_RELEASE_REPLY] + be_bytes(
            release.lease.sequence.value as nat,
            8,
        ) + be_bytes(release.held_byte_count as nat, 8),
        WireReply::WaitSatisfied => seq![WAIT_SATISFIED_REPLY],
        WireReply::ExitStatus(status) => frame(encode_utf8(status)),
        WireReply::Archive(bytes) => signal_frame(bytes),
    }
}

/// An expected tag.
pub open spec fn tag_outcome(bytes: Seq<u8>, expected: u8) -> Outcome<()> {
    if bytes.len() == 0 {
        Outcome::Short { missing: 1 }
    } else if bytes[0] == expected {
        Outcome::Complete { value: (), consumed: 1 }
    } else {
        Outcome::Refused {
            failure: failure(
                ErrorKind::InvalidData,
                "unexpected socket reply tag: "@ + decimal(bytes[0] as nat),
            ),
            consumed: 1,
        }
    }
}

/// A text behind its length.
pub open spec fn text_outcome(bytes: Seq<u8>) -> Outcome<Seq<char>> {
    match payload_outcome(bytes, FrameKind::Reply) {
        Outcome::Complete { value, consumed } => if valid_utf8(value) {
            Outcome::Complete { value: decode_utf8(value), consumed }
        } else {
            Outcome::Refused {
                failure: failure(
                    ErrorKind::InvalidData,
                    "socket reply string was not utf-8: "@ + utf8_complaint(value),
                ),
                consumed,
            }
        },
        Outcome::Refused { failure, consumed } => Outcome::Refused { failure, consumed },
        Outcome::Short { missing } => Outcome::Short { missing },
    }
}

/// The answer to an attach request. A rejection fails with the reason that it
/// gives.
pub open spec fn attach_outcome(bytes: Seq<u8>) -> Outcome<()> {
    if bytes.len() == 0 {
        Outcome::Short { missing: 1 }
    } else if bytes[0] == ATTACH_ACCEPTED_REPLY {
        Outcome::Complete { value: (), consumed: 1 }
    } else if bytes[0] == ATTACH_REJECTED_REPLY {
        match text_outcome(bytes.skip(1)).behind(1) {
            Outcome::Complete { value, consumed } => Outcome::Refused {
                failure: failure(ErrorKind::ConnectionRefused, value),
                consumed,
            },
            Outcome::Refused { failure, consumed } => Outcome::Refused { failure, consumed },
            Outcome::Short { missing } => Outcome::Short { missing },
        }
    } else {
        Outcome::Refused {
            failure: failure(
                ErrorKind::InvalidData,
                "unexpected attach reply tag: "@ + decimal(bytes[0] as nat),
            ),
            consumed: 1,
        }
    }
}

/// The lease of a closed input gate.
pub open spec fn gate_lease_outcome(bytes: Seq<u8>) -> Outcome<TerminalInputGateLease> {
    match tag_outcome(bytes, GATE_LEASE_REPLY) {
        Outcome::Complete { .. } => if bytes.len() < 9 {
            Outcome::Short { missing: (9 - bytes.len()) as nat }
        } else {
            Outcome::Complete {
                value: gate_lease(be_value(bytes.subrange(1, 9)) as u64),
                consumed: 9,
            }
        },
        Outcome::Refused { failure, consumed } => Outcome::Refused { failure, consumed },
        Outcome::Short { missing } => Outcome::Short { missing },
    }
}

/// The release of an input gate.
pub open spec fn gate_release_outcome(bytes: Seq<u8>) -> Outcome<TerminalInputGateRelease> {
    match tag_outcome(bytes, GATE_RELEASE_REPLY) {
        Outcome::Complete { .. } => if bytes.len() < 9 {
            Outcome::Short { missing: (9 - bytes.len()) as nat }
        } else if bytes.len() < 17 {
            Outcome::Short { missing: (17 - bytes.len()) as nat }
        } else {
            let held = be_value(bytes.subrange(9, 17));
            if held <= usize::MAX {
                Outcome::Complete {
                    value: TerminalInputGateRelease {
                        lease: gate_lease(be_value(bytes.subrange(1, 9)) as u64),
                        held_byte_count: held as usize,
                    },
                    consumed: 17,
                }
            } else {
                Outcome::Refused {
                    failure: failure(
                        ErrorKind::InvalidData,
                        "gate release held byte count overflowed usize: "@ + usize_complaint(
                            held as u64,
                        ),
                    ),
                    consumed: 17,
                }
            }
        },
        Outcome::Refused { failure, consumed } => Outcome::Refused { failure, consumed },
        Outcome::Short { missing } => Outcome::Short { missing },
    }
}

/// Reads replies from the bytes that a connection has received.
#[derive(Debug, Clone, PartialEq, Eq)]
pub struct SocketReplyReader {
    reader: ByteCursor,
}

impl View for SocketReplyReader {
    type V = Seq<u8>;

    /// The bytes that have not been consumed.
    closed spec fn view(&self) -> Seq<u8> {
        self.reader@
    }
}

impl View for TerminalInputGateLease {
    type V = TerminalInputGateLease;

    open spec fn view(&self) -> TerminalInputGateLease {
        *self
    }
}

impl View for TerminalInputGateRelease {
    type V = TerminalInputGateRelease;

    open spec fn view(&self) -> TerminalInputGateRelease {
        *self
    }
}

impl SocketReplyReader {
    pub fn new(received: Vec<u8>) -> (reader: Self)
        ensures
            reader@ == received@,
    {
        SocketReplyReader { reader: ByteCursor::new(received) }
    }

    /// Adds bytes behind those that have been received.
    pub fn receive(&mut self, bytes: &[u8])
        ensures
            final(self)@ == old(self)@ + bytes@,
    {
        self.reader.receive(bytes);
    }

    pub fn read_snapshot(&mut self) -> (snapshot: Result<Vec<u8>, ReadInterruption>)
        ensures
            answers(
                snapshot,
                payload_outcome(old(self)@, FrameKind::Reply),
                old(self)@,
                final(self)@,
            ),
    {
        self.read_frame(0)
    }

    pub fn read_acceptance(&mut self) -> (accepted: Result<(), ReadInterruption>)
        ensures
            answers(
                accepted,
                tag_outcome(old(self)@, ACCEPTANCE_REPLY),
                old(self)@,
                final(self)@,
            ),
    {
        self.read_expected_tag(ACCEPTANCE_REPLY)
    }

    pub fn read_attach_acceptance(&mut self) -> (accepted: Result<(), ReadInterruption>)
        ensures
            answers(accepted, attach_outcome(old(self)@), old(self)@, final(self)@),
    {
        let tag: u8 = match self.reader.byte_at(0) {
            Ok(tag) => tag,
            Err(interruption) => return Err(interruption),
        };
        match tag {
            ATTACH_ACCEPTED_REPLY => {
                self.reader.skip(1);
                Ok(())
            },
            ATTACH_REJECTED_REPLY => match self.read_string(1) {
                Ok(reason) => Err(
                    ReadInterruption::Failed(
                        ConnectionError::new(ErrorKind::ConnectionRefused, reason),
                    ),
                ),
                Err(interruption) => Err(interruption),
            },
            other => {
                self.reader.skip(1);
                let message = numbered("unexpected attach reply tag: ", other as u64, "");
                proof {
                    reveal_strlit("");
                    assert(message@ =~= "unexpected attach reply tag: "@ + decimal(other as nat));
                }
                Err(
                    ReadInterruption::Failed(ConnectionError::new(ErrorKind::InvalidData, message)),
                )
            },
        }
    }

    pub fn read_gate_lease(&mut self) -> (lease: Result<TerminalInputGateLease, ReadInterruption>)
        ensures
            answers(lease, gate_lease_outcome(old(self)@), old(self)@, final(self)@),
    {
        match self.expected_tag_at_front(GATE_LEASE_REPLY) {
            Ok(()) => {},
            Err(interruption) => return Err(interruption),
        }
        let sequence: u64 = match self.read_u64(1) {
            Ok(sequence) => sequence,
            Err(interruption) => return Err(interruption),
        };
        self.reader.skip(9);
        Ok(TerminalInputGateLease::new(TerminalInputGateSequence::new(sequence)))
    }

    pub fn read_gate_release(&mut self) -> (release: Result<
        TerminalInputGateRelease,
        ReadInterruption,
    >)
        ensures
            answers(release, gate_release_outcome(old(self)@), old(self)@, final(self)@),
    {
        match self.expected_tag_at_front(GATE_RELEASE_REPLY) {
            Ok(()) => {},
            Err(interruption) => return Err(interruption),
        }
        let sequence: u64 = match self.read_u64(1) {
            Ok(sequence) => sequence,
            Err(interruption) => return Err(interruption),
        };
        let held: u64 = match self.read_u64(9) {
            Ok(held) => held,
            Err(interruption) => return Err(interruption),
        };
        self.reader.skip(17);
        let lease = TerminalInputGateLease::new(TerminalInputGateSequence::new(sequence));
        match usize_from(held) {
            Ok(held_byte_count) => Ok(TerminalInputGateRelease::new(lease, held_byte_count)),
            Err(complaint) => Err(
                ReadInterruption::Failed(
                    ConnectionError::new(
                        ErrorKind::InvalidData,
                        joined(
                            "gate release held byte count overflowed usize: ",
                            complaint.as_str(),
                        ),
                    ),
                ),
            ),
        }
    }

    pub fn read_wait_satisfied(&mut self) -> (satisfied: Result<(), ReadInterruption>)
        ensures
            answers(
                satisfied,
                tag_outcome(old(self)@, WAIT_SATISFIED_REPLY),
                old(self)@,
                final(self)@,
            ),
    {
        self.read_expected_tag(WAIT_SATISFIED_REPLY)
    }

    pub fn read_exit_status(&mut self) -> (status: Result<String, ReadInterruption>)
        ensures
            answers(status, text_outcome(old(self)@), old(self)@, final(self)@),
    {
        proof {
            assert(self@.skip(0) =~= self@);
        }
        self.read_string(0)
    }

    /// Reads the archive of a response.
    pub fn read_signal_event(&mut self) -> (archive: Result<Vec<u8>, ReadInterruption>)
        ensures
            answers(
                archive,
                payload_outcome(old(self)@, FrameKind::Signal),
                old(self)@,
                final(self)@,
            ),
    {
        proof {
            assert(self@.skip(0) =~= self@);
        }
        self.reader.read_payload(0, FrameKind::Signal)
    }

    /// The response that an archive was restored to, or why there is none.
    pub fn restored_signal_event(response: Result<Response, String>) -> (restored: Result<
        Response,
        ConnectionError,
    >)
        ensures
            match response {
                Ok(response) => restored == Ok::<Response, ConnectionError>(response),
                Err(complaint) => restored matches Err(error) && error@ == failure(
                    ErrorKind::InvalidData,
                    "signal response restore failed: "@ + complaint@,
                ),
            },
    {
        match response {
            Ok(response) => Ok(response),
            Err(complaint) => Err(
                ConnectionError::new(
                    ErrorKind::InvalidData,
                    joined("signal response restore failed: ", complaint.as_str()),
                ),
            ),
        }
    }

    /// Consumes an expected tag.
    fn read_expected_tag(&mut self, expected: u8) -> (tag: Result<(), ReadInterruption>)
        ensures
            answers(tag, tag_outcome(old(self)@, expected), old(self)@, final(self)@),
    {
        match self.expected_tag_at_front(expected) {
            Ok(()) => {
                self.reader.skip(1);
                Ok(())
            },
            Err(interruption) => Err(interruption),
        }
    }

    /// Looks for an expected tag. Another tag is consumed.
    fn expected_tag_at_front(&mut self, expected: u8) -> (tag: Result<(), ReadInterruption>)
        ensures
            match tag_outcome(old(self)@, expected) {
                Outcome::Complete { .. } => tag is Ok && final(self)@ == old(self)@,
                other => answers(tag, other, old(self)@, final(self)@),
            },
    {
        let tag: u8 = match self.reader.byte_at(0) {
            Ok(tag) => tag,
            Err(interruption) => return Err(interruption),
        };
        if tag == expected {
            Ok(())
        } else {
            self.reader.skip(1);
            let message = numbered("unexpected socket reply tag: ", tag as u64, "");
            proof {
                reveal_strlit("");
                assert(message@ =~= "unexpected socket reply tag: "@ + decimal(tag as nat));
            }
            Err(ReadInterruption::Failed(ConnectionError::new(ErrorKind::InvalidData, message)))
        }
    }

    /// Reads the payload at `at`.
    fn read_frame(&mut self, at: usize) -> (bytes: Result<Vec<u8>, ReadInterruption>)
        requires
            at <= old(self)@.len(),
        ensures
            answers(
                bytes,
                payload_outcome(old(self)@.skip(at as int), FrameKind::Reply).behind(at as nat),
                old(self)@,
                final(self)@,
            ),
            at == 0 ==> answers(
                bytes,
                payload_outcome(old(self)@, FrameKind::Reply),
                old(self)@,
                final(self)@,
            ),
    {
        proof {
            assert(self@.skip(0) =~= self@);
        }
        self.reader.read_payload(at, FrameKind::Reply)
    }

    /// Looks at the number at `at`.
    fn read_u64(&self, at: usize) -> (value: Result<u64, ReadInterruption>)
        requires
            at <= self@.len(),
        ensures
            match value {
                Ok(value) => at + 8 <= self@.len() && value == be_value(
                    self@.subrange(at as int, at + 8),
                ),
                Err(interruption) => at + 8 > self@.len() && interruption
                    == ReadInterruption::NeedBytes((at + 8 - self@.len()) as usize),
            },
    {
        let value = self.reader.number_at(at, 8);
        proof {
            if value is Ok {
                assert(self@.skip(at as int).take(8) =~= self@.subrange(at as int, at + 8));
            }
        }
        value
    }

    /// Reads the text at `at`.
    fn read_string(&mut self, at: usize) -> (text: Result<String, ReadInterruption>)
        requires
            at <= old(self)@.len(),
        ensures
            answers(
                text,
                text_outcome(old(self)@.skip(at as int)).behind(at as nat),
                old(self)@,
                final(self)@,
            ),
    {
        match self.read_frame(at) {
            Ok(bytes) => match utf8_text(bytes) {
                Ok(text) => Ok(text),
                Err(complaint) => Err(
                    ReadInterruption::Failed(
                        ConnectionError::new(
                            ErrorKind::InvalidData,
                            joined("socket reply string was not utf-8: ", complaint.as_str()),
                        ),
                    ),
                ),
            },
            Err(interruption) => Err(interruption),
        }
    }
}

/// Writes replies for a connection to send.
#[derive(Debug, Clone, PartialEq, Eq)]
pub struct SocketReplyWriter {
    writer: Vec<u8>,
}

impl View for SocketReplyWriter {
    type V = Seq<u8>;

    /// The bytes that have been written.
    closed spec fn view(&self) -> Seq<u8> {
        self.writer@
    }
}

impl SocketReplyWriter {
    /// Writes behind the bytes that are there.
    pub fn new(writer: Vec<u8>) -> (replies: Self)
        ensures
            replies@ == writer@,
    {
        SocketReplyWriter { writer }
    }

    pub fn into_bytes(self) -> (bytes: Vec<u8>)
        ensures
            bytes@ == self@,
    {
        self.writer
    }

    pub fn write_snapshot(&mut self, bytes: &[u8])
        ensures
            final(self)@ == old(self)@ + reply_bytes(WireReply::Snapshot(bytes@)),
    {
        self.write_frame(bytes);
    }

    pub fn write_acceptance(&mut self)
        ensures
            final(self)@ == old(self)@ + reply_bytes(WireReply::Acceptance),
    {
        self.write_tag(ACCEPTANCE_REPLY);
    }

    pub fn write_attach_accepted(&mut self)
        ensures
            final(self)@ == old(self)@ + reply_bytes(WireReply::AttachAccepted),
    {
        self.write_tag(ATTACH_ACCEPTED_REPLY);
    }

    pub fn write_attach_rejected(&mut self, reason: &str)
        ensures
            final(self)@ == old(self)@ + reply_bytes(WireReply::AttachRejected(reason@)),
    {
        self.write_tag(ATTACH_REJECTED_REPLY);
        self.write_frame(reason.as_bytes());
        assert(self@ =~= old(self)@ + reply_bytes(WireReply::AttachRejected(reason@)));
    }

    pub fn write_gate_lease(&mut self, lease: TerminalInputGateLease)
        ensures
            final(self)@ == old(self)@ + reply_bytes(WireReply::GateLease(lease)),
    {
        self.write_tag(GATE_LEASE_REPLY);
        self.write_u64(lease.sequence().into_u64());
        assert(self@ =~= old(self)@ + reply_bytes(WireReply::GateLease(lease)));
    }

    pub fn write_gate_release(&mut self, release: TerminalInputGateRelease)
        ensures
            final(self)@ == old(self)@ + reply_bytes(WireReply::GateRelease(release)),
    {
        self.write_tag(GATE_RELEASE_REPLY);
        self.write_u64(release.lease().sequence().into_u64());
        self.write_u64(release.held_byte_count() as u64);
        assert(self@ =~= old(self)@ + reply_bytes(WireReply::GateRelease(release)));
    }

    pub fn write_wait_satisfied(&mut self)
        ensures
            final(self)@ == old(self)@ + reply_bytes(WireReply::WaitSatisfied),
    {
        self.write_tag(WAIT_SATISFIED_REPLY);
    }

    pub fn write_exit_status(&mut self, status: &str)
        ensures
            final(self)@ == old(self)@ + reply_bytes(WireReply::ExitStatus(status@)),
    {
        self.write_frame(status.as_bytes());
    }

    /// Writes the archive of a response, or reports why there is none.
    pub fn write_signal_event(&mut self, archive: Result<Vec<u8>, String>) -> (written: Result<
        (),
        ConnectionError,
    >)
        ensures
            match archive {
                Ok(bytes) => {
                    &&& written is Ok
                    &&& final(self)@ == old(self)@ + reply_bytes(WireReply::Archive(bytes@))
                },
                Err(complaint) => {
                    &&& written matches Err(error) && error@ == failure(
                        ErrorKind::InvalidData,
                        "signal response archive failed: "@ + complaint@,
                    )
                    &&& final(self)@ == old(self)@
                },
            },
    {
        match archive {
            Ok(bytes) => {
                push_big_endian(&mut self.writer, bytes.len() as u64, 4);
                self.writer.extend_from_slice(bytes.as_slice());
                assert(self@ =~= old(self)@ + signal_frame(bytes@));
                Ok(())
            },
            Err(complaint) => Err(
                ConnectionError::new(
                    ErrorKind::InvalidData,
                    joined("signal response archive failed: ", complaint.as_str()),
                ),
            ),
        }
    }

    fn write_tag(&mut self, tag: u8)
        ensures
            final(self)@ == old(self)@ + seq![tag],
    {
        self.writer.push(tag);
        assert(self@ =~= old(self)@ + seq![tag]);
    }

    fn write_frame(&mut self, bytes: &[u8])
        ensures
            final(self)@ == old(self)@ + frame(bytes@),
    {
        self.write_u64(bytes.len() as u64);
        self.writer.extend_from_slice(bytes);
        assert(self@ =~= old(self)@ + frame(bytes@));
    }

    fn write_u64(&mut self, value: u64)
        ensures
            final(self)@ == old(self)@ + be_bytes(value as nat, 8),
    {
        push_big_endian(&mut self.writer, value, 8);
    }
}

} // verus!
