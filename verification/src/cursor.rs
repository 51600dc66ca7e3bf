//! Received bytes, and what can be read from their front.
use vstd::prelude::*;
use crate::failure::{ConnectionError, ErrorKind, Failure, failure};
use crate::text::{decimal, numbered};
use crate::wire::{be_value, big_endian};

verus! {

/// The longest payload that a length prefix may announce.
pub const MAXIMUM_FRAME_LENGTH: u64 = 16_777_216;

/// Why a read did not finish.
#[derive(Debug, Clone, PartialEq, Eq)]
pub enum ReadInterruption {
    /// So many more bytes are due. Nothing has been consumed: hand the bytes
    /// over and read again.
    NeedBytes(usize),
    /// The bytes are not what they should be.
    Failed(ConnectionError),
}

/// What the front of received bytes amounts to.
pub ghost enum Outcome<T> {
    /// The first `consumed` bytes stand for a value.
    Complete { value: T, consumed: nat },
    /// The first `consumed` bytes are enough to fail.
    Refused { failure: Failure, consumed: nat },
    /// The next bytes to read are not all there.
    Short { missing: nat },
}

impl<T> Outcome<T> {
    /// The outcome for bytes that have `count` more bytes in front.
    pub open spec fn behind(self, count: nat) -> Outcome<T> {
        match self {
            Outcome::Complete { value, consumed } => Outcome::Complete {
                value,
                consumed: consumed + count,
            },
            Outcome::Refused { failure, consumed } => Outcome::Refused {
                failure,
                consumed: consumed + count,
            },
            Outcome::Short { missing } => Outcome::Short { missing },
        }
    }

    /// The outcome with another value in place of the one that was read.
    pub open spec fn map<U>(self, change: spec_fn(T) -> U) -> Outcome<U> {
        match self {
            Outcome::Complete { value, consumed } => Outcome::Complete {
                value: change(value),
                consumed,
            },
            Outcome::Refused { failure, consumed } => Outcome::Refused { failure, consumed },
            Outcome::Short { missing } => Outcome::Short { missing },
        }
    }
}

/// Whether a read of the bytes `before`, which left the bytes `after`, came out
/// as an outcome says.
pub open spec fn answers<T: View>(
    result: Result<T, ReadInterruption>,
    outcome: Outcome<T::V>,
    before: Seq<u8>,
    after: Seq<u8>,
) -> bool {
    match outcome {
        Outcome::Complete { value, consumed } => {
            &&& result matches Ok(read) && read@ == value
            &&& after == before.skip(consumed as int)
            &&& consumed <= before.len()
        },
        Outcome::Refused { failure, consumed } => {
            &&& result matches Err(ReadInterruption::Failed(error)) && error@ == failure
            &&& after == before.skip(consumed as int)
            &&& consumed <= before.len()
        },
        Outcome::Short { missing } => {
            &&& result matches Err(ReadInterruption::NeedBytes(count)) && count == missing
            &&& after == before
        },
    }
}

/// A big-endian number of a width.
pub open spec fn number_outcome(bytes: Seq<u8>, width: nat) -> Outcome<nat> {
    if bytes.len() < width {
        Outcome::Short { missing: (width - bytes.len()) as nat }
    } else {
        Outcome::Complete { value: be_value(bytes.take(width as int)), consumed: width }
    }
}

/// What a payload belongs to.
#[derive(Debug, Clone, Copy, PartialEq, Eq, Structural)]
pub enum FrameKind {
    Request,
    Reply,
    Signal,
}

impl FrameKind {
    /// How many bytes the length of such a payload takes.
    pub open spec fn prefix_width(self) -> nat {
        match self {
            FrameKind::Request | FrameKind::Reply => 8,
            FrameKind::Signal => 4,
        }
    }

    /// What is said of a length over the maximum.
    pub open spec fn too_long(self, length: nat) -> Seq<char> {
        match self {
            FrameKind::Request => "socket frame length "@ + decimal(length) + " exceeds maximum"@,
            FrameKind::Reply => "socket reply length "@ + decimal(length) + " exceeds maximum"@,
            FrameKind::Signal => "signal length exceeds maximum"@,
        }
    }

    fn too_long_error(self, length: u64) -> (error: ConnectionError)
        ensures
            error@ == failure(ErrorKind::InvalidData, self.too_long(length as nat)),
    {
        let message = match self {
            FrameKind::Request => numbered("socket frame length ", length, " exceeds maximum"),
            FrameKind::Reply => numbered("socket reply length ", length, " exceeds maximum"),
            FrameKind::Signal => "signal length exceeds maximum".to_owned(),
        };
        ConnectionError::new(ErrorKind::InvalidData, message)
    }
}

/// A payload behind its big-endian length. A length over the maximum fails
/// before the payload is read.
pub open spec fn payload_outcome(bytes: Seq<u8>, kind: FrameKind) -> Outcome<Seq<u8>> {
    let width = kind.prefix_width();
    if bytes.len() < width {
        Outcome::Short { missing: (width - bytes.len()) as nat }
    } else {
        let length = be_value(bytes.take(width as int));
        if length > MAXIMUM_FRAME_LENGTH {
            Outcome::Refused {
                failure: failure(ErrorKind::InvalidData, kind.too_long(length)),
                consumed: width,
            }
        } else if bytes.len() < width + length {
            Outcome::Short { missing: (width + length - bytes.len()) as nat }
        } else {
            Outcome::Complete {
                value: bytes.subrange(width as int, (width + length) as int),
                consumed: width + length,
            }
        }
    }
}

/// Received bytes that have not been consumed.
#[derive(Debug, Clone, PartialEq, Eq)]
pub struct ByteCursor {
    unread: Vec<u8>,
}

impl View for ByteCursor {
    type V = Seq<u8>;

    closed spec fn view(&self) -> Seq<u8> {
        self.unread@
    }
}

impl ByteCursor {
    pub fn new(received: Vec<u8>) -> (cursor: Self)
        ensures
            cursor@ == received@,
    {
        ByteCursor { unread: received }
    }

    /// Adds bytes behind those that have been received.
    pub fn receive(&mut self, bytes: &[u8])
        ensures
            final(self)@ == old(self)@ + bytes@,
    {
        self.unread.extend_from_slice(bytes);
        assert(self@ =~= old(self)@ + bytes@);
    }

    /// Consumes bytes, and gives up those from `from` on.
    fn consume(&mut self, from: usize, count: usize) -> (taken: Vec<u8>)
        requires
            from <= count <= old(self)@.len(),
        ensures
            taken@ == old(self)@.subrange(from as int, count as int),
            final(self)@ == old(self)@.skip(count as int),
    {
        let mut rest = self.unread.split_off(count);
        std::mem::swap(&mut rest, &mut self.unread);
        let taken = rest.split_off(from);
        assert(taken@ =~= old(self)@.subrange(from as int, count as int));
        assert(self@ =~= old(self)@.skip(count as int));
        taken
    }

    /// Consumes bytes.
    pub fn skip(&mut self, count: usize)
        requires
            count <= old(self)@.len(),
        ensures
            final(self)@ == old(self)@.skip(count as int),
    {
        let _ = self.consume(count, count);
    }

    /// Looks at the byte at `at`.
    pub fn byte_at(&self, at: usize) -> (byte: Result<u8, ReadInterruption>)
        requires
            at <= self@.len(),
        ensures
            byte == if self@.len() == at {
                Err(ReadInterruption::NeedBytes(1))
            } else {
                Ok(self@[at as int])
            },
    {
        if self.unread.len() == at {
            Err(ReadInterruption::NeedBytes(1))
        } else {
            Ok(self.unread[at])
        }
    }

    /// Looks at the big-endian number at `at`.
    pub fn number_at(&self, at: usize, width: usize) -> (number: Result<u64, ReadInterruption>)
        requires
            at <= self@.len(),
            width <= 8,
        ensures
            match number_outcome(self@.skip(at as int), width as nat) {
                Outcome::Complete { value, consumed } => {
                    &&& number matches Ok(read) && read == value
                    &&& at + consumed <= self@.len()
                },
                Outcome::Refused { .. } => false,
                Outcome::Short { missing } => {
                    number matches Err(ReadInterruption::NeedBytes(count)) && count == missing
                },
            },
    {
        let available: usize = self.unread.len() - at;
        if available < width {
            Err(ReadInterruption::NeedBytes(width - available))
        } else {
            assert(self@.skip(at as int).take(width as int) =~= self@.subrange(
                at as int,
                at + width,
            ));
            Ok(big_endian(self.unread.as_slice(), at, width))
        }
    }

    /// Reads the payload at `at`, and consumes everything up to its end. A
    /// length over the maximum is consumed with what stands before it.
    pub fn read_payload(&mut self, at: usize, kind: FrameKind) -> (payload: Result<
        Vec<u8>,
        ReadInterruption,
    >)
        requires
            at <= old(self)@.len(),
        ensures
            answers(
                payload,
                payload_outcome(old(self)@.skip(at as int), kind).behind(at as nat),
                old(self)@,
                final(self)@,
            ),
    {
        let width: usize = match kind {
            FrameKind::Request | FrameKind::Reply => 8,
            FrameKind::Signal => 4,
        };
        let received: usize = self.unread.len();
        let length: u64 = match self.number_at(at, width) {
            Ok(length) => length,
            Err(interruption) => return Err(interruption),
        };
        if length > MAXIMUM_FRAME_LENGTH {
            self.skip(at + width);
            return Err(ReadInterruption::Failed(kind.too_long_error(length)));
        }
        let start: usize = at + width;
        let available: usize = received - start;
        let count: usize = length as usize;
        if available < count {
            return Err(ReadInterruption::NeedBytes(count - available));
        }
        let payload = self.consume(start, start + count);
        assert(payload@ =~= old(self)@.skip(at as int).subrange(width as int, width + count));
        Ok(payload)
    }
}

} // verus!
