//! Whether a transcript ends at a prompt, and by how much it has gone past it.
use vstd::prelude::*;
use vstd::utf8::*;
use crate::failure::{failure, ConnectionError, ErrorKind, Failure};
use crate::signal::{Pattern, PromptPattern, PromptState};
use crate::text::{joined, utf8_complaint, utf8_text};

verus! {

/// The low byte of an integer.
pub open spec fn low_byte(value: i64) -> u8 {
    (value as int % 256) as u8
}

/// The low bytes of integers.
pub open spec fn low_bytes(values: Seq<i64>) -> Seq<u8> {
    values.map_values(|value: i64| low_byte(value))
}

/// Bytes, one integer for each.
pub open spec fn widened(bytes: Seq<u8>) -> Seq<i64> {
    bytes.map_values(|byte: u8| byte as i64)
}

/// Narrows integers to bytes: each keeps its low byte.
pub fn signal_bytes_to_bytes(values: &[i64]) -> (bytes: Vec<u8>)
    ensures
        bytes@ == low_bytes(values@),
{
    let mut bytes: Vec<u8> = Vec::new();
    let mut at: usize = 0;
    while at < values.len()
        invariant
            at <= values@.len(),
            bytes@ == low_bytes(values@.take(at as int)),
        decreases values@.len() - at,
    {
        let value: i64 = values[at];
        assert(value as u8 == low_byte(value)) by {
            assert(value as u8 == value % 256) by (bit_vector);
        }
        bytes.push(value as u8);
        at = at + 1;
        assert(bytes@ =~= low_bytes(values@.take(at as int)));
    }
    assert(values@.take(at as int) =~= values@);
    bytes
}

/// Widens bytes to integers.
pub fn bytes_to_signal_bytes(bytes: &[u8]) -> (values: Vec<i64>)
    ensures
        values@ == widened(bytes@),
{
    let mut values: Vec<i64> = Vec::new();
    let mut at: usize = 0;
    while at < bytes.len()
        invariant
            at <= bytes@.len(),
            values@ == widened(bytes@.take(at as int)),
        decreases bytes@.len() - at,
    {
        values.push(bytes[at] as i64);
        at = at + 1;
        assert(values@ =~= widened(bytes@.take(at as int)));
    }
    assert(bytes@.take(at as int) =~= bytes@);
    values
}

/// Bytes survive being widened and narrowed.
pub proof fn widened_bytes_are_narrowed_back(bytes: Seq<u8>)
    ensures
        low_bytes(widened(bytes)) == bytes,
{
    assert(low_bytes(widened(bytes)) =~= bytes);
}

/// Whether a suffix stands in a transcript so that it ends at `end`.
pub open spec fn ends_at(transcript: Seq<u8>, suffix: Seq<u8>, end: nat) -> bool {
    &&& suffix.len() <= end <= transcript.len()
    &&& transcript.subrange(end - suffix.len(), end as int) == suffix
}

/// The last place, `limit` at most, at which a suffix ends in a transcript.
pub open spec fn last_end(transcript: Seq<u8>, suffix: Seq<u8>, limit: nat) -> Option<nat>
    decreases limit,
{
    if ends_at(transcript, suffix, limit) {
        Some(limit)
    } else if limit == 0 {
        None
    } else {
        last_end(transcript, suffix, (limit - 1) as nat)
    }
}

/// How many bytes stand behind an end, or all of them where there is none. None
/// stand behind an end past the transcript.
pub open spec fn bytes_behind(transcript: Seq<u8>, end: Option<nat>) -> nat {
    match end {
        Some(end) if end <= transcript.len() => (transcript.len() - end) as nat,
        Some(_) => 0,
        None => transcript.len(),
    }
}

/// How many bytes stand behind the last occurrence of a suffix in a transcript.
pub open spec fn literal_gap(transcript: Seq<u8>, suffix: Seq<u8>) -> nat {
    bytes_behind(transcript, last_end(transcript, suffix, transcript.len()))
}

/// The last end is an end, and none comes later.
pub proof fn last_end_is_the_last(transcript: Seq<u8>, suffix: Seq<u8>, limit: nat)
    ensures
        match last_end(transcript, suffix, limit) {
            Some(end) => {
                &&& end <= limit
                &&& ends_at(transcript, suffix, end)
                &&& forall|later: nat|
                    end < later <= limit ==> !#[trigger] ends_at(transcript, suffix, later)
            },
            None => forall|end: nat| end <= limit ==> !#[trigger] ends_at(transcript, suffix, end),
        },
    decreases limit,
{
    if !ends_at(transcript, suffix, limit) && limit > 0 {
        last_end_is_the_last(transcript, suffix, (limit - 1) as nat);
    }
}

/// Nothing stands behind the prompt where the transcript ends with it, and
/// where there is no transcript yet; otherwise something does.
pub proof fn gap_is_zero_at_the_prompt(transcript: Seq<u8>, suffix: Seq<u8>)
    ensures
        literal_gap(transcript, suffix) == 0 <==> transcript.len() == 0 || ends_at(
            transcript,
            suffix,
            transcript.len(),
        ),
        literal_gap(transcript, suffix) <= transcript.len(),
{
    last_end_is_the_last(transcript, suffix, transcript.len());
}

/// Counts the bytes behind the last occurrence of a suffix in a transcript: all
/// of them where it does not occur.
pub fn literal_suffix_gap(transcript: &[u8], suffix: &[u8]) -> (gap: usize)
    ensures
        gap == literal_gap(transcript@, suffix@),
{
    let length: usize = transcript.len();
    let mut end: usize = length;
    loop
        invariant
            length == transcript@.len(),
            end <= length,
            last_end(transcript@, suffix@, length as nat) == last_end(
                transcript@,
                suffix@,
                end as nat,
            ),
        decreases end,
    {
        if suffix_ends_at(transcript, suffix, end) {
            return length - end;
        }
        if end == 0 {
            return length;
        }
        end = end - 1;
    }
}

fn suffix_ends_at(transcript: &[u8], suffix: &[u8], end: usize) -> (ends: bool)
    requires
        end <= transcript@.len(),
    ensures
        ends == ends_at(transcript@, suffix@, end as nat),
{
    let length: usize = suffix.len();
    if end < length {
        return false;
    }
    let start: usize = end - length;
    let mut at: usize = 0;
    while at < length
        invariant
            length == suffix@.len(),
            start + length == end,
            end <= transcript@.len(),
            at <= length,
            forall|i: int| 0 <= i < at ==> transcript@[start + i] == suffix@[i],
        decreases length - at,
    {
        if transcript[start + at] != suffix[at] {
            assert(transcript@.subrange(start as int, end as int)[at as int] != suffix@[at as int]);
            return false;
        }
        at = at + 1;
    }
    assert(transcript@.subrange(start as int, end as int) =~= suffix@);
    true
}

/// What the `regex` crate says of a pattern that is no regular expression.
pub uninterp spec fn regex_complaint(pattern: Seq<char>) -> Option<Seq<char>>;

/// Where the matches of a regular expression in a transcript end, in the order
/// in which they are found.
pub uninterp spec fn regex_match_ends(pattern: Seq<char>, transcript: Seq<u8>) -> Seq<usize>;

/// Calls `regex::bytes::Regex::new`, and `Regex::find_iter` on what it returns.
/// The contract claims that the pattern alone decides whether there is a regular
/// expression, and what the error displays as if there is none; that pattern and
/// transcript decide where the matches end; and that a match ends within the
/// transcript.
#[verifier::external_body]
fn match_ends(pattern: &str, transcript: &[u8]) -> (ends: Result<Vec<usize>, String>)
    ensures
        match regex_complaint(pattern@) {
            Some(complaint) => ends matches Err(error) && error@ == complaint,
            None => {
                &&& ends matches Ok(found) && found@ == regex_match_ends(pattern@, transcript@)
                    && forall|at: int|
                    0 <= at < found@.len() ==> #[trigger] found@[at] <= transcript@.len()
            },
        },
{
    match regex::bytes::Regex::new(pattern) {
        Ok(regex) => Ok(regex.find_iter(transcript).map(|found| found.end()).collect()),
        Err(error) => Err(error.to_string()),
    }
}

/// The last of the places at which matches end.
pub open spec fn last_of(ends: Seq<usize>) -> Option<nat> {
    if ends.len() == 0 {
        None
    } else {
        Some(ends.last() as nat)
    }
}

/// Counts the bytes behind the last of the matches that end at `ends`: all of
/// them where nothing matched.
pub fn last_match_gap(transcript: &[u8], ends: &[usize]) -> (gap: usize)
    requires
        forall|at: int| 0 <= at < ends@.len() ==> #[trigger] ends@[at] <= transcript@.len(),
    ensures
        gap == bytes_behind(transcript@, last_of(ends@)),
{
    if ends.len() == 0 {
        transcript.len()
    } else {
        assert(ends@.last() == ends@[ends@.len() - 1]);
        transcript.len() - ends[ends.len() - 1]
    }
}

/// How far a transcript has gone past a pattern, or why the pattern is none.
pub open spec fn trailing_count(pattern: Pattern, transcript: Seq<u8>) -> Result<nat, Failure> {
    match pattern {
        Pattern::LiteralSuffix(suffix) => Ok(literal_gap(transcript, low_bytes(suffix))),
        Pattern::RegexSuffix(values) => {
            let bytes = low_bytes(values);
            if !valid_utf8(bytes) {
                Err(
                    failure(
                        ErrorKind::InvalidData,
                        "prompt regex pattern is not utf-8: "@ + utf8_complaint(bytes),
                    ),
                )
            } else {
                let text = decode_utf8(bytes);
                match regex_complaint(text) {
                    Some(complaint) => Err(
                        failure(
                            ErrorKind::InvalidData,
                            "prompt regex pattern is invalid: "@ + complaint,
                        ),
                    ),
                    None => Ok(
                        bytes_behind(transcript, last_of(regex_match_ends(text, transcript))),
                    ),
                }
            }
        },
    }
}

/// Whether a count of bytes fills a transcript up behind the last match of a
/// regular expression in it, or behind nothing where it does not match.
pub open spec fn fills_behind_last_match(
    count: nat,
    pattern: Seq<char>,
    transcript: Seq<u8>,
) -> bool {
    match last_of(regex_match_ends(pattern, transcript)) {
        Some(end) => end + count == transcript.len(),
        None => count == transcript.len(),
    }
}

/// Whether so many bytes stand behind the last occurrence of a suffix in a
/// transcript: the transcript without them ends with the suffix, and the suffix does
/// not occur further back; or it does not occur at all, and all bytes count.
pub open spec fn stand_behind(count: nat, suffix: Seq<u8>, transcript: Seq<u8>) -> bool {
    &&& count <= transcript.len()
    &&& forall|head: Seq<u8>, tail: Seq<u8>|
        transcript == #[trigger] (head + suffix + tail) ==> count <= tail.len()
    &&& {
        ||| suffix.is_suffix_of(transcript.take(transcript.len() - count))
        ||| count == transcript.len() && forall|head: Seq<u8>, tail: Seq<u8>|
            transcript != #[trigger] (head + suffix + tail)
    }
}

/// Whether a transcript has gone past a pattern by so many bytes.
pub open spec fn trails_by(count: nat, pattern: Pattern, transcript: Seq<u8>) -> bool {
    match pattern {
        Pattern::LiteralSuffix(suffix) => stand_behind(count, low_bytes(suffix), transcript),
        Pattern::RegexSuffix(values) => fills_behind_last_match(
            count,
            decode_utf8(low_bytes(values)),
            transcript,
        ),
    }
}

/// The gap behind the last occurrence is what stands behind it.
pub proof fn gap_stands_behind(transcript: Seq<u8>, suffix: Seq<u8>)
    ensures
        stand_behind(literal_gap(transcript, suffix), suffix, transcript),
{
    last_end_is_the_last(transcript, suffix, transcript.len());
    let gap: nat = literal_gap(transcript, suffix);
    assert forall|head: Seq<u8>, tail: Seq<u8>|
        transcript == #[trigger] (head + suffix + tail) implies gap <= tail.len() by {
        let end: nat = head.len() + suffix.len();
        assert(transcript.subrange(head.len() as int, end as int) =~= suffix);
        assert(ends_at(transcript, suffix, end));
    }
    match last_end(transcript, suffix, transcript.len()) {
        Some(end) => {
            let kept = transcript.take(end as int);
            assert(kept.subrange(end - suffix.len(), end as int) =~= transcript.subrange(
                end - suffix.len(),
                end as int,
            ));
            assert(suffix.is_suffix_of(kept));
        },
        None => {
            assert forall|head: Seq<u8>, tail: Seq<u8>| transcript != #[trigger] (head + suffix
                + tail) by {
                if transcript == head + suffix + tail {
                    let end: nat = head.len() + suffix.len();
                    assert(transcript.subrange(head.len() as int, end as int) =~= suffix);
                    assert(ends_at(transcript, suffix, end));
                }
            }
        },
    }
}

/// Counts the bytes behind the prompt.
pub fn prompt_suffix_trailing_count(pattern: &PromptPattern, transcript: &[u8]) -> (count: Result<
    usize,
    ConnectionError,
>)
    ensures
        match trailing_count(pattern@, transcript@) {
            Ok(expected) => count matches Ok(trailing) && trailing == expected,
            Err(expected) => count matches Err(error) && error@ == expected,
        },
        count matches Ok(trailing) ==> trailing <= transcript@.len(),
        count matches Ok(trailing) ==> (pattern@ matches Pattern::RegexSuffix(values)
            ==> fills_behind_last_match(
            trailing as nat,
            decode_utf8(low_bytes(values)),
            transcript@,
        )),
        count matches Ok(trailing) ==> trails_by(trailing as nat, pattern@, transcript@),
{
    match pattern {
        PromptPattern::LiteralSuffix(suffix) => {
            let suffix = signal_bytes_to_bytes(suffix.as_slice());
            proof {
                gap_is_zero_at_the_prompt(transcript@, suffix@);
                gap_stands_behind(transcript@, suffix@);
            }
            Ok(literal_suffix_gap(transcript, suffix.as_slice()))
        },
        PromptPattern::RegexSuffix(values) => {
            let bytes = signal_bytes_to_bytes(values.as_slice());
            let text = match utf8_text(bytes) {
                Ok(text) => text,
                Err(complaint) => return Err(
                    ConnectionError::new(
                        ErrorKind::InvalidData,
                        joined("prompt regex pattern is not utf-8: ", complaint.as_str()),
                    ),
                ),
            };
            match match_ends(text.as_str(), transcript) {
                Ok(ends) => Ok(last_match_gap(transcript, ends.as_slice())),
                Err(complaint) => Err(
                    ConnectionError::new(
                        ErrorKind::InvalidData,
                        joined("prompt regex pattern is invalid: ", complaint.as_str()),
                    ),
                ),
            }
        },
    }
}

/// The state of a prompt. A pattern that is not registered counts the whole
/// transcript as trailing, however short it is.
pub open spec fn prompt_state(pattern: Option<Pattern>, transcript: Seq<u8>) -> Result<
    PromptState,
    Failure,
> {
    match pattern {
        None => Ok(PromptState::Dirty(transcript.len() as i64)),
        Some(pattern) => match trailing_count(pattern, transcript) {
            Ok(count) => Ok(
                if count == 0 {
                    PromptState::Clean
                } else {
                    PromptState::Dirty(count as i64)
                },
            ),
            Err(failure) => Err(failure),
        },
    }
}

/// Judges a prompt by the pattern that was selected for it.
pub fn signal_prompt_state(pattern: &Option<PromptPattern>, transcript: &[u8]) -> (state: Result<
    PromptState,
    ConnectionError,
>)
    ensures
        match prompt_state(
            match *pattern {
                Some(pattern) => Some(pattern@),
                None => None,
            },
            transcript@,
        ) {
            Ok(expected) => state == Ok::<PromptState, ConnectionError>(expected),
            Err(expected) => state matches Err(error) && error@ == expected,
        },
        transcript@.len() <= i64::MAX ==> (state matches Ok(PromptState::Dirty(count)) ==> 0
            <= count <= transcript@.len()),
        transcript@.len() <= i64::MAX ==> (state matches Ok(judged) ==> match *pattern {
            Some(registered) => match judged {
                PromptState::NotChecked => false,
                PromptState::Clean => trails_by(0, registered@, transcript@),
                PromptState::Dirty(count) => count > 0 && trails_by(
                    count as nat,
                    registered@,
                    transcript@,
                ),
            },
            None => judged matches PromptState::Dirty(count) && count == transcript@.len(),
        }),
{
    match pattern {
        None => Ok(PromptState::Dirty(transcript.len() as i64)),
        Some(pattern) => match prompt_suffix_trailing_count(pattern, transcript) {
            Ok(0) => Ok(PromptState::Clean),
            Ok(count) => Ok(PromptState::Dirty(count as i64)),
            Err(error) => Err(error),
        },
    }
}

/// Narrowing keeps the length, and changes an integer by whole multiples of 256 only: what
/// is a byte already stays as it is.
pub proof fn narrowing_keeps_remainders(values: &[i64], bytes: Vec<u8>)
    requires
        call_ensures(signal_bytes_to_bytes, (values,), bytes),
    ensures
        bytes@.len() == values@.len(),
        forall|at: int|
            0 <= at < bytes@.len() ==> (values@[at] - #[trigger] bytes@[at]) % 256 == 0,
        forall|at: int|
            0 <= at < bytes@.len() && 0 <= values@[at] < 256 ==> #[trigger] bytes@[at]
                == values@[at],
{
}

/// Widening keeps the length and every value.
pub proof fn widening_keeps_values(bytes: &[u8], values: Vec<i64>)
    requires
        call_ensures(bytes_to_signal_bytes, (bytes,), values),
    ensures
        values@.len() == bytes@.len(),
        forall|at: int| 0 <= at < values@.len() ==> #[trigger] values@[at] == bytes@[at],
{
}

/// The gap is what stands behind the last occurrence of the suffix: no occurrence has
/// fewer bytes behind it, and the transcript without the gap ends with the suffix, or
/// does not hold it anywhere.
pub proof fn literal_gap_is_behind_the_last_occurrence(
    transcript: &[u8],
    suffix: &[u8],
    gap: usize,
)
    requires
        call_ensures(literal_suffix_gap, (transcript, suffix), gap),
    ensures
        stand_behind(gap as nat, suffix@, transcript@),
{
    gap_stands_behind(transcript@, suffix@);
}

/// The gap behind the last of some matches and the place where that match ends add up to
/// the transcript; where nothing matched, the gap is the transcript.
pub proof fn match_gap_fills_the_transcript(transcript: &[u8], ends: &[usize], gap: usize)
    requires
        call_ensures(last_match_gap, (transcript, ends), gap),
        forall|at: int| 0 <= at < ends@.len() ==> #[trigger] ends@[at] <= transcript@.len(),
    ensures
        ends@.len() == 0 ==> gap == transcript@.len(),
        ends@.len() > 0 ==> ends@[ends@.len() - 1] + gap == transcript@.len(),
{
    if ends@.len() > 0 {
        assert(ends@.last() == ends@[ends@.len() - 1]);
    }
}

/// By a literal pattern, a transcript is at its prompt if and only if it is empty or ends
/// with the pattern, and past it by what stands behind the last occurrence otherwise.
pub proof fn literal_pattern_is_held_against_the_end(
    values: Seq<i64>,
    suffix: Seq<u8>,
    transcript: Seq<u8>,
)
    requires
        suffix.len() == values.len(),
        forall|at: int|
            0 <= at < suffix.len() ==> (values[at] - #[trigger] suffix[at]) % 256 == 0,
        transcript.len() <= i64::MAX,
    ensures
        ({
            &&& prompt_state(Some(Pattern::LiteralSuffix(values)), transcript) matches Ok(judged)
            &&& judged !is NotChecked
            &&& judged is Clean <==> transcript.len() == 0 || suffix.is_suffix_of(transcript)
            &&& judged matches PromptState::Dirty(count) ==> count > 0 && stand_behind(
                count as nat,
                suffix,
                transcript,
            )
        }),
{
    assert(low_bytes(values) =~= suffix);
    gap_stands_behind(transcript, suffix);
    gap_is_zero_at_the_prompt(transcript, suffix);
    assert(transcript.take(transcript.len() as int) =~= transcript);
    if suffix.is_suffix_of(transcript) {
        let head = transcript.take(transcript.len() - suffix.len());
        assert(transcript =~= head + suffix + Seq::<u8>::empty());
    }
}

/// By a literal pattern, the prompt is clean if and only if the transcript is empty or ends
/// with the pattern. Otherwise it is dirty by what stands behind the last occurrence of the
/// pattern.
pub proof fn literal_prompt_is_clean_at_the_end(
    pattern: Option<PromptPattern>,
    values: Vec<i64>,
    suffix: Seq<u8>,
    transcript: &[u8],
    state: Result<PromptState, ConnectionError>,
)
    requires
        call_ensures(signal_prompt_state, (&pattern, transcript), state),
        pattern == Some(PromptPattern::LiteralSuffix(values)),
        suffix.len() == values@.len(),
        forall|at: int|
            0 <= at < suffix.len() ==> (values@[at] - #[trigger] suffix[at]) % 256 == 0,
        transcript@.len() <= i64::MAX,
    ensures
        ({
            &&& state matches Ok(judged)
            &&& judged !is NotChecked
            &&& judged is Clean <==> transcript@.len() == 0 || suffix.is_suffix_of(transcript@)
            &&& judged matches PromptState::Dirty(count) ==> count > 0 && stand_behind(
                count as nat,
                suffix,
                transcript@,
            )
        }),
{
    literal_pattern_is_held_against_the_end(values@, suffix, transcript@);
}

/// By a regular expression, the prompt is clean if and only if the last match ends where
/// the transcript does, or nothing matches and the transcript is empty. Otherwise it is
/// dirty by what stands behind the last match.
pub proof fn matched_prompt_is_clean_at_the_end(
    pattern: Option<PromptPattern>,
    values: Vec<i64>,
    bytes: Seq<u8>,
    transcript: &[u8],
    state: Result<PromptState, ConnectionError>,
)
    requires
        call_ensures(signal_prompt_state, (&pattern, transcript), state),
        pattern == Some(PromptPattern::RegexSuffix(values)),
        bytes.len() == values@.len(),
        forall|at: int| 0 <= at < bytes.len() ==> (values@[at] - #[trigger] bytes[at]) % 256 == 0,
        transcript@.len() <= i64::MAX,
    ensures
        !valid_utf8(bytes) ==> {
            &&& state matches Err(error)
            &&& error.kind is InvalidData
            &&& error.message@ == "prompt regex pattern is not utf-8: "@ + utf8_complaint(bytes)
        },
        valid_utf8(bytes) ==> match regex_complaint(decode_utf8(bytes)) {
            Some(complaint) => {
                &&& state matches Err(error)
                &&& error.kind is InvalidData
                &&& error.message@ == "prompt regex pattern is invalid: "@ + complaint
            },
            None => {
                let ends = regex_match_ends(decode_utf8(bytes), transcript@);
                let behind = transcript@.len() - if ends.len() == 0 {
                    0
                } else {
                    ends[ends.len() - 1] as int
                };
                &&& state matches Ok(judged)
                &&& judged !is NotChecked
                &&& judged is Clean <==> behind == 0
                &&& judged matches PromptState::Dirty(count) ==> count == behind && count > 0
            },
        },
{
    assert(low_bytes(values@) =~= bytes);
    let ends = regex_match_ends(decode_utf8(bytes), transcript@);
    if ends.len() > 0 {
        assert(ends.last() == ends[ends.len() - 1]);
    }
}

/// Without a registered pattern the whole transcript counts, and the prompt is dirty
/// however short it is.
pub proof fn unregistered_prompt_is_dirty(
    transcript: &[u8],
    state: Result<PromptState, ConnectionError>,
)
    requires
        call_ensures(signal_prompt_state, (&None::<PromptPattern>, transcript), state),
        transcript@.len() <= i64::MAX,
    ensures
        state matches Ok(PromptState::Dirty(count)) && count == transcript@.len(),
{
}

/// The count behind a prompt decides its state: it is clean where nothing was counted, and
/// dirty by the count otherwise. Where counting fails, so does judging, for the same reason.
pub proof fn count_decides_the_prompt(
    pattern: PromptPattern,
    transcript: &[u8],
    count: Result<usize, ConnectionError>,
    state: Result<PromptState, ConnectionError>,
)
    requires
        call_ensures(prompt_suffix_trailing_count, (&pattern, transcript), count),
        call_ensures(signal_prompt_state, (&Some(pattern), transcript), state),
        transcript@.len() <= i64::MAX,
    ensures
        count is Ok <==> state is Ok,
        count matches Ok(trailing) ==> trails_by(trailing as nat, pattern@, transcript@),
        count matches Ok(trailing) ==> (trailing == 0 <==> state == Ok::<
            PromptState,
            ConnectionError,
        >(PromptState::Clean)),
        count matches Ok(trailing) ==> (trailing > 0 ==> state == Ok::<
            PromptState,
            ConnectionError,
        >(PromptState::Dirty(trailing as i64))),
        count matches Err(error) ==> state matches Err(same) && same@ == error@,
{
}

} // verus!
