//! Text that messages and identifiers are made of.
use vstd::prelude::*;
use vstd::string::*;
use vstd::utf8::*;

verus! {

/// The character of a decimal digit.
pub open spec fn digit(value: nat) -> char {
    (48 + value) as char
}

/// A number in decimal, without leading zeros.
pub open spec fn decimal(value: nat) -> Seq<char>
    decreases value,
{
    if value < 10 {
        seq![digit(value)]
    } else {
        decimal(value / 10).push(digit(value % 10))
    }
}

fn digit_text(value: u64) -> (text: &'static str)
    requires
        value < 10,
    ensures
        text@ == seq![digit(value as nat)],
{
    proof {
        reveal_strlit("0");
        reveal_strlit("1");
        reveal_strlit("2");
        reveal_strlit("3");
        reveal_strlit("4");
        reveal_strlit("5");
        reveal_strlit("6");
        reveal_strlit("7");
        reveal_strlit("8");
        reveal_strlit("9");
    }
    let text = match value {
        0 => "0",
        1 => "1",
        2 => "2",
        3 => "3",
        4 => "4",
        5 => "5",
        6 => "6",
        7 => "7",
        8 => "8",
        _ => "9",
    };
    assert(text@ =~= seq![digit(value as nat)]);
    text
}

/// Writes a number in decimal.
pub fn decimal_text(value: u64) -> (text: String)
    ensures
        text@ == decimal(value as nat),
    decreases value,
{
    if value < 10 {
        digit_text(value).to_owned()
    } else {
        let head = decimal_text(value / 10);
        let text = head.concat(digit_text(value % 10));
        assert(text@ =~= decimal(value as nat));
        text
    }
}

/// Two numbers with the same decimal text are equal.
pub proof fn decimal_is_injective(a: nat, b: nat)
    requires
        decimal(a) == decimal(b),
    ensures
        a == b,
    decreases a,
{
    assert(decimal(a).last() == digit(a % 10));
    assert(decimal(b).last() == digit(b % 10));
    if a >= 10 && b >= 10 {
        assert(decimal(a).drop_last() =~= decimal(a / 10));
        assert(decimal(b).drop_last() =~= decimal(b / 10));
        decimal_is_injective(a / 10, b / 10);
    } else {
        decimal_is_nonempty(a / 10);
        decimal_is_nonempty(b / 10);
    }
}

proof fn decimal_is_nonempty(value: nat)
    ensures
        decimal(value).len() >= 1,
{
}

/// Puts a number between two pieces of text.
pub fn numbered(before: &str, value: u64, after: &str) -> (text: String)
    ensures
        text@ == before@ + decimal(value as nat) + after@,
{
    before.to_owned().concat(decimal_text(value).as_str()).concat(after)
}

/// Puts two pieces of text together.
pub fn joined(before: &str, after: &str) -> (text: String)
    ensures
        text@ == before@ + after@,
{
    before.to_owned().concat(after)
}

/// What the standard library says of bytes that are not UTF-8.
pub uninterp spec fn utf8_complaint(bytes: Seq<u8>) -> Seq<char>;

/// Calls `String::from_utf8`. The contract claims that it succeeds on valid
/// UTF-8 and on nothing else, that the text is then what the bytes decode to,
/// and that the displayed form of its error depends on the bytes alone.
#[verifier::external_body]
pub(crate) fn utf8_text(bytes: Vec<u8>) -> (text: Result<String, String>)
    ensures
        text is Ok <==> valid_utf8(bytes@),
        text matches Ok(decoded) ==> decoded@ == decode_utf8(bytes@),
        text matches Err(complaint) ==> complaint@ == utf8_complaint(bytes@),
{
    String::from_utf8(bytes).map_err(|error| error.to_string())
}

/// What the standard library says of a number that does not fit `usize`.
pub uninterp spec fn usize_complaint(value: u64) -> Seq<char>;

/// Calls `usize::try_from` on a `u64` that it fails on. The contract claims that
/// the displayed form of its error depends on the number alone.
#[verifier::external_body]
fn usize_complaint_text(value: u64) -> (text: String)
    requires
        value > usize::MAX,
    ensures
        text@ == usize_complaint(value),
{
    usize::try_from(value).map_or_else(|error| error.to_string(), |number| number.to_string())
}

/// Converts a number to `usize`, or says why it does not fit.
pub fn usize_from(value: u64) -> (converted: Result<usize, String>)
    ensures
        match converted {
            Ok(number) => value <= usize::MAX && number == value,
            Err(complaint) => value > usize::MAX && complaint@ == usize_complaint(value),
        },
{
    match usize::try_from(value) {
        Ok(number) => Ok(number),
        Err(_) => Err(usize_complaint_text(value)),
    }
}

/// A character takes four bytes at most.
pub proof fn encoded_length_is_bounded(text: Seq<char>)
    ensures
        encode_utf8(text).len() <= 4 * text.len(),
    decreases text.len(),
{
    if text.len() > 0 {
        encoded_length_is_bounded(text.drop_first());
    }
}

/// Whether a character is a decimal digit.
pub open spec fn is_digit(character: char) -> bool {
    '0' <= character <= '9'
}

/// The number that decimal digits stand for, most significant first.
pub open spec fn numeral_value(text: Seq<char>) -> int
    decreases text.len(),
{
    if text.len() == 0 {
        0
    } else {
        numeral_value(text.drop_last()) * 10 + (text.last() as int - '0' as int)
    }
}

/// The digits of a number stand for it.
pub proof fn decimal_is_a_numeral(value: nat)
    ensures
        numeral_value(decimal(value)) == value,
        decimal(value).len() >= 1,
        forall|at: int| 0 <= at < decimal(value).len() ==> is_digit(#[trigger] decimal(value)[at]),
        value > 0 ==> decimal(value)[0] != '0',
    decreases value,
{
    let text = decimal(value);
    if value < 10 {
        assert(text.drop_last() =~= Seq::<char>::empty());
        assert(numeral_value(text.drop_last()) == 0);
    } else {
        decimal_is_a_numeral(value / 10);
        assert(text.drop_last() =~= decimal(value / 10));
        assert(text[0] == decimal(value / 10)[0]);
    }
}

/// A number is written in digits that stand for it, and begins with no zero unless it is
/// zero.
pub proof fn number_is_written_in_digits(value: u64, text: String)
    requires
        call_ensures(decimal_text, (value,), text),
    ensures
        numeral_value(text@) == value,
        text@.len() >= 1,
        forall|at: int| 0 <= at < text@.len() ==> is_digit(#[trigger] text@[at]),
        text@[0] == '0' ==> value == 0 && text@.len() == 1,
{
    decimal_is_a_numeral(value as nat);
}

/// A number between two pieces of text stands there as it is written alone.
pub proof fn number_stands_between(
    before: &str,
    value: u64,
    after: &str,
    text: String,
    alone: String,
)
    requires
        call_ensures(numbered, (before, value, after), text),
        call_ensures(decimal_text, (value,), alone),
    ensures
        text@ == before@ + alone@ + after@,
{
}

} // verus!
