//! Big-endian numbers.
use vstd::arithmetic::div_mod::lemma_div_denominator;
use vstd::arithmetic::power::{lemma_pow0, lemma_pow_positive, pow};
use vstd::prelude::*;

verus! {

/// The last `width` base-256 digits of a number, most significant first.
pub open spec fn be_bytes(value: nat, width: nat) -> Seq<u8>
    decreases width,
{
    if width == 0 {
        Seq::empty()
    } else {
        be_bytes(value / 256, (width - 1) as nat).push((value % 256) as u8)
    }
}

/// The number that base-256 digits stand for, most significant first.
pub open spec fn be_value(bytes: Seq<u8>) -> nat
    decreases bytes.len(),
{
    if bytes.len() == 0 {
        0
    } else {
        be_value(bytes.drop_last()) * 256 + bytes.last() as nat
    }
}

/// How many numbers `width` base-256 digits can stand for.
pub open spec fn be_range(width: nat) -> nat
    decreases width,
{
    if width == 0 {
        1
    } else {
        be_range((width - 1) as nat) * 256
    }
}

/// How many numbers the widths in use can stand for.
pub proof fn be_ranges()
    ensures
        be_range(2) == 0x1_0000,
        be_range(4) == 0x1_0000_0000,
        be_range(8) == 0x1_0000_0000_0000_0000,
{
    reveal_with_fuel(be_range, 9);
}

/// A number takes as many bytes as its width says.
pub proof fn be_bytes_have_the_width(value: nat, width: nat)
    ensures
        be_bytes(value, width).len() == width,
    decreases width,
{
    if width > 0 {
        be_bytes_have_the_width(value / 256, (width - 1) as nat);
    }
}

/// Bytes stand for no number that their width has no room for.
pub proof fn be_value_is_in_range(bytes: Seq<u8>)
    ensures
        be_value(bytes) < be_range(bytes.len()),
    decreases bytes.len(),
{
    if bytes.len() > 0 {
        be_value_is_in_range(bytes.drop_last());
    }
}

/// Reading a number back gives the number that was written.
pub proof fn be_value_of_be_bytes(value: nat, width: nat)
    requires
        value < be_range(width),
    ensures
        be_value(be_bytes(value, width)) == value,
    decreases width,
{
    if width > 0 {
        be_value_of_be_bytes(value / 256, (width - 1) as nat);
        let bytes = be_bytes(value, width);
        assert(bytes.drop_last() =~= be_bytes(value / 256, (width - 1) as nat));
    }
}

/// Writing a number that was read gives the bytes that it was read from.
pub proof fn be_bytes_of_be_value(bytes: Seq<u8>)
    ensures
        be_bytes(be_value(bytes), bytes.len()) == bytes,
    decreases bytes.len(),
{
    if bytes.len() > 0 {
        be_bytes_of_be_value(bytes.drop_last());
        assert(be_bytes(be_value(bytes), bytes.len()) =~= bytes);
    } else {
        assert(be_bytes(be_value(bytes), bytes.len()) =~= bytes);
    }
}

/// Appends the big-endian form of a number.
pub fn push_big_endian(out: &mut Vec<u8>, value: u64, width: usize)
    ensures
        final(out)@ == old(out)@ + be_bytes(value as nat, width as nat),
    decreases width,
{
    if width > 0 {
        push_big_endian(out, value / 256, width - 1);
        out.push((value % 256) as u8);
    }
    assert(out@ =~= old(out)@ + be_bytes(value as nat, width as nat));
}

/// Reads the big-endian number of at most eight bytes that starts at `from`.
pub fn big_endian(bytes: &[u8], from: usize, width: usize) -> (value: u64)
    requires
        from + width <= bytes@.len(),
        width <= 8,
    ensures
        value == be_value(bytes@.subrange(from as int, from + width)),
{
    let length: usize = bytes.len();
    let mut value: u64 = 0;
    let mut at: usize = 0;
    assert(bytes@.subrange(from as int, from as int) =~= Seq::<u8>::empty());
    while at < width
        invariant
            at <= width <= 8,
            from + width <= length,
            length == bytes@.len(),
            value == be_value(bytes@.subrange(from as int, from + at)),
        decreases width - at,
    {
        proof {
            let longer = bytes@.subrange(from as int, from + at + 1);
            assert(longer.drop_last() =~= bytes@.subrange(from as int, from + at));
            be_value_is_in_range(longer);
            reveal_with_fuel(be_range, 9);
        }
        value = value * 256 + bytes[from + at] as u64;
        at = at + 1;
    }
    value
}

/// The base-256 digit of a number at a place, counted from the least significant one.
pub open spec fn place_digit(value: nat, place: nat) -> int {
    value as int / pow(256, place) % 256
}

/// Whether a number is spelled out in bytes from `from` on, a digit in each and the most
/// significant first.
pub open spec fn spells(bytes: Seq<u8>, from: nat, width: nat, value: nat) -> bool {
    &&& from + width <= bytes.len()
    &&& forall|place: nat|
        place < width ==> #[trigger] place_digit(value, place) == bytes[from + width - 1 - place]
}

/// A number without its last digit has each of the other digits one place further down.
proof fn digits_move_down(value: nat, place: nat)
    ensures
        place_digit(value, 0) == value % 256,
        place_digit(value, place + 1) == place_digit(value / 256, place),
{
    lemma_pow0(256);
    lemma_pow_positive(256, place);
    lemma_div_denominator(value as int, 256, pow(256, place));
    assert(pow(256, (place + 1) as nat) == 256 * pow(256, place)) by {
        reveal(pow);
    }
}

/// A number is spelled out in its bytes.
pub proof fn be_bytes_spell_the_number(value: nat, width: nat)
    ensures
        be_bytes(value, width).len() == width,
        spells(be_bytes(value, width), 0, width, value),
    decreases width,
{
    be_bytes_have_the_width(value, width);
    if width > 0 {
        let shorter = be_bytes(value / 256, (width - 1) as nat);
        be_bytes_spell_the_number(value / 256, (width - 1) as nat);
        assert forall|place: nat| place < width implies #[trigger] place_digit(value, place)
            == be_bytes(value, width)[width - 1 - place] by {
            if place == 0 {
                digits_move_down(value, 0);
            } else {
                let below: nat = (place - 1) as nat;
                digits_move_down(value, below);
                assert(place_digit(value / 256, below) == shorter[width - 2 - below]);
            }
        }
    }
}

/// Bytes spell out the number that they stand for.
pub proof fn be_value_is_spelled(bytes: Seq<u8>)
    ensures
        spells(bytes, 0, bytes.len(), be_value(bytes)),
{
    be_bytes_of_be_value(bytes);
    be_bytes_spell_the_number(be_value(bytes), bytes.len());
}

/// A number that is appended is spelled out behind what was there, and nothing else changes.
pub proof fn appended_number_is_spelled(out: &mut Vec<u8>, value: u64, width: usize)
    requires
        call_ensures(push_big_endian, (out, value, width), ()),
    ensures
        final(out)@.len() == old(out)@.len() + width,
        final(out)@.take(old(out)@.len() as int) == old(out)@,
        spells(final(out)@, old(out)@.len(), width as nat, value as nat),
{
    let number = be_bytes(value as nat, width as nat);
    be_bytes_spell_the_number(value as nat, width as nat);
    assert(final(out)@.take(old(out)@.len() as int) =~= old(out)@);
    assert forall|place: nat| place < width implies #[trigger] place_digit(value as nat, place)
        == final(out)@[old(out)@.len() + width - 1 - place] by {
        assert(final(out)@[old(out)@.len() + width - 1 - place] == number[width - 1 - place]);
    }
}

/// A number that is read is the one that the bytes spell out.
pub proof fn read_number_is_spelled(bytes: &[u8], from: usize, width: usize, value: u64)
    requires
        from + width <= bytes@.len(),
        width <= 8,
        call_ensures(big_endian, (bytes, from, width), value),
    ensures
        spells(bytes@, from as nat, width as nat, value as nat),
        value < be_range(width as nat),
{
    let part = bytes@.subrange(from as int, from + width);
    be_value_is_spelled(part);
    be_value_is_in_range(part);
    assert forall|place: nat| place < width implies #[trigger] place_digit(value as nat, place)
        == bytes@[from + width - 1 - place] by {
        assert(part[width - 1 - place] == bytes@[from + width - 1 - place]);
    }
}

/// No two numbers within the range of a width are spelled alike.
pub proof fn spelling_tells_numbers_apart(bytes: Seq<u8>, width: nat, a: nat, b: nat)
    requires
        a < be_range(width),
        b < be_range(width),
        bytes.len() == width,
        spells(bytes, 0, width, a),
        spells(bytes, 0, width, b),
    ensures
        a == b,
        bytes == be_bytes(a, width),
{
    be_bytes_spell_the_number(a, width);
    be_bytes_spell_the_number(b, width);
    assert forall|at: int| 0 <= at < width implies bytes[at] == be_bytes(a, width)[at] && bytes[at]
        == be_bytes(b, width)[at] by {
        let place: nat = (width - 1 - at) as nat;
        assert(place_digit(a, place) == bytes[at]);
        assert(place_digit(b, place) == bytes[at]);
    }
    assert(bytes =~= be_bytes(a, width));
    assert(bytes =~= be_bytes(b, width));
    be_value_of_be_bytes(a, width);
    be_value_of_be_bytes(b, width);
}

} // verus!
