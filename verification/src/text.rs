//! Display rows: short texts in a fixed-capacity buffer.

use vstd::prelude::*;

verus! {

/// The fixed-capacity string of the `heapless` crate.
#[verifier::external_type_specification]
#[verifier::external_body]
pub struct ExHeaplessString<const N: usize>(heapless::String<N>);

/// How many bytes a display row can hold.
pub const ROW_BYTES: usize = 32;

/// A display row.
pub type Row = heapless::String<32>;

/// The characters that a row holds.
pub uninterp spec fn row_text(row: heapless::String<32>) -> Seq<char>;

/// How many bytes a character takes in UTF-8.
pub open spec fn char_bytes(c: char) -> nat {
    if (c as u32) < 0x80 {
        1
    } else if (c as u32) < 0x800 {
        2
    } else if (c as u32) < 0x10000 {
        3
    } else {
        4
    }
}

/// How many bytes a text takes in UTF-8.
pub open spec fn text_bytes(text: Seq<char>) -> nat
    decreases text.len(),
{
    if text.len() == 0 {
        0
    } else {
        text_bytes(text.drop_last()) + char_bytes(text.last())
    }
}

/// `heapless::String::new`: the new string is empty.
#[verifier::external_body]
pub(crate) fn row_new() -> (row: Row)
    ensures
        row_text(row) == Seq::<char>::empty(),
{
    heapless::String::new()
}

/// `heapless::String::push`: appends the character if its UTF-8 encoding still
/// fits the capacity, and otherwise fails and changes nothing.
#[verifier::external_body]
pub(crate) fn row_push(row: &mut Row, c: char) -> (r: Result<(), ()>)
    ensures
        text_bytes(row_text(*old(row))) + char_bytes(c) <= ROW_BYTES ==> r is Ok && row_text(
            *final(row),
        ) == row_text(*old(row)).push(c),
        text_bytes(row_text(*old(row))) + char_bytes(c) > ROW_BYTES ==> r is Err && row_text(
            *final(row),
        ) == row_text(*old(row)),
{
    row.push(c)
}

/// `heapless::String::push_str`: appends the text if all of its UTF-8 encoding
/// still fits the capacity, and otherwise fails and changes nothing.
#[verifier::external_body]
pub(crate) fn row_push_str(row: &mut Row, text: &str) -> (r: Result<(), ()>)
    ensures
        text_bytes(row_text(*old(row))) + text_bytes(text@) <= ROW_BYTES ==> r is Ok && row_text(
            *final(row),
        ) == row_text(*old(row)) + text@,
        text_bytes(row_text(*old(row))) + text_bytes(text@) > ROW_BYTES ==> r is Err && row_text(
            *final(row),
        ) == row_text(*old(row)),
{
    row.push_str(text)
}

/// `heapless::String::as_str`: the characters of the string.
#[verifier::external_body]
pub(crate) fn row_str(row: &Row) -> (text: &str)
    ensures
        text@ == row_text(*row),
{
    row.as_str()
}

/// How many bytes the row of decoded text can hold: as many one-byte
/// characters as the display is wide.
pub const NARROW_BYTES: usize = 21;

/// The row of decoded text.
pub type NarrowRow = heapless::String<21>;

/// The characters that a narrow row holds.
pub uninterp spec fn narrow_text(row: heapless::String<21>) -> Seq<char>;

/// `heapless::String::new` for the narrow row: the new string is empty.
#[verifier::external_body]
pub(crate) fn narrow_new() -> (row: NarrowRow)
    ensures
        narrow_text(row) == Seq::<char>::empty(),
{
    heapless::String::new()
}

/// `heapless::String::push` for the narrow row: appends the character if its
/// UTF-8 encoding still fits the capacity, and otherwise fails and changes
/// nothing.
#[verifier::external_body]
pub(crate) fn narrow_push(row: &mut NarrowRow, c: char) -> (r: Result<(), ()>)
    ensures
        text_bytes(narrow_text(*old(row))) + char_bytes(c) <= NARROW_BYTES ==> r is Ok
            && narrow_text(*final(row)) == narrow_text(*old(row)).push(c),
        text_bytes(narrow_text(*old(row))) + char_bytes(c) > NARROW_BYTES ==> r is Err
            && narrow_text(*final(row)) == narrow_text(*old(row)),
{
    row.push(c)
}

/// `heapless::String::as_str` for the narrow row: the characters of the
/// string.
#[verifier::external_body]
pub(crate) fn narrow_str(row: &NarrowRow) -> (text: &str)
    ensures
        text@ == narrow_text(*row),
{
    row.as_str()
}

/// The decimal digit of a number below ten.
pub open spec fn digit(d: nat) -> char {
    if d == 0 {
        '0'
    } else if d == 1 {
        '1'
    } else if d == 2 {
        '2'
    } else if d == 3 {
        '3'
    } else if d == 4 {
        '4'
    } else if d == 5 {
        '5'
    } else if d == 6 {
        '6'
    } else if d == 7 {
        '7'
    } else if d == 8 {
        '8'
    } else {
        '9'
    }
}

/// A number in decimal, without leading zeros.
pub open spec fn decimal(n: nat) -> Seq<char>
    decreases n,
{
    if n < 10 {
        seq![digit(n)]
    } else {
        decimal(n / 10).push(digit(n % 10))
    }
}

/// A text, filled up with spaces on the right to at least `width` characters.
pub open spec fn padded(text: Seq<char>, width: nat) -> Seq<char> {
    if text.len() >= width {
        text
    } else {
        text + Seq::new((width - text.len()) as nat, |i: int| ' ')
    }
}

/// The text is made of one-byte characters.
pub open spec fn is_ascii(text: Seq<char>) -> bool {
    forall|i: int| 0 <= i < text.len() ==> (#[trigger] text[i] as u32) < 0x80
}

/// One-byte characters take one byte each.
pub proof fn lemma_ascii_bytes(text: Seq<char>)
    requires
        is_ascii(text),
    ensures
        text_bytes(text) == text.len(),
    decreases text.len(),
{
    if text.len() > 0 {
        assert((text[text.len() - 1] as u32) < 0x80);
        assert forall|i: int| 0 <= i < text.drop_last().len() implies (
        #[trigger] text.drop_last()[i] as u32) < 0x80 by {
            assert((text[i] as u32) < 0x80);
        }
        lemma_ascii_bytes(text.drop_last());
    }
}

/// A decimal number is made of one-byte characters, at most one per power of
/// ten.
pub proof fn lemma_decimal(n: nat, digits: nat)
    requires
        digits >= 1,
        n < vstd::arithmetic::power::pow(10, digits),
    ensures
        is_ascii(decimal(n)),
        1 <= decimal(n).len() <= digits,
    decreases n,
{
    if n >= 10 {
        vstd::arithmetic::power::lemma_pow0(10);
        vstd::arithmetic::power::lemma_pow1(10);
        if digits == 1 {
            assert(false);
        }
        let rest = (digits - 1) as nat;
        assert(vstd::arithmetic::power::pow(10, digits) == 10 * vstd::arithmetic::power::pow(
            10,
            rest,
        )) by {
            reveal(vstd::arithmetic::power::pow);
        }
        lemma_decimal(n / 10, rest);
    }
}

/// Append a number in decimal.
pub(crate) fn push_decimal(row: &mut Row, value: u32)
    requires
        is_ascii(row_text(*old(row))),
        row_text(*old(row)).len() + 10 <= ROW_BYTES,
    ensures
        row_text(*final(row)) == row_text(*old(row)) + decimal(value as nat),
        is_ascii(row_text(*final(row))),
        row_text(*final(row)).len() <= row_text(*old(row)).len() + 10,
{
    proof {
        assert(vstd::arithmetic::power::pow(10, 10) == 10_000_000_000) by {
            reveal_with_fuel(vstd::arithmetic::power::pow, 11);
        }
    }
    push_digits(row, value, Ghost(10));
}

/// Append a number of at most `digits` digits.
fn push_digits(row: &mut Row, value: u32, Ghost(digits): Ghost<nat>)
    requires
        is_ascii(row_text(*old(row))),
        row_text(*old(row)).len() + digits <= ROW_BYTES,
        digits >= 1,
        value < vstd::arithmetic::power::pow(10, digits),
    ensures
        row_text(*final(row)) == row_text(*old(row)) + decimal(value as nat),
        is_ascii(row_text(*final(row))),
        row_text(*final(row)).len() <= row_text(*old(row)).len() + digits,
    decreases value,
{
    let ghost before = row_text(*row);
    proof {
        lemma_decimal(value as nat, digits);
    }
    if value >= 10 {
        proof {
            vstd::arithmetic::power::lemma_pow1(10);
            assert(digits > 1);
            assert(vstd::arithmetic::power::pow(10, digits) == 10 * vstd::arithmetic::power::pow(
                10,
                (digits - 1) as nat,
            )) by {
                reveal(vstd::arithmetic::power::pow);
            }
        }
        push_digits(row, value / 10, Ghost((digits - 1) as nat));
    }
    proof {
        lemma_ascii_bytes(row_text(*row));
    }
    let d: u32 = value % 10;
    let c = digit_char(d);
    let _ = row_push(row, c);
    assert(row_text(*row) =~= before + decimal(value as nat));
}

/// The decimal digit of a number below ten.
fn digit_char(d: u32) -> (c: char)
    requires
        d < 10,
    ensures
        c == digit(d as nat),
{
    if d == 0 {
        '0'
    } else if d == 1 {
        '1'
    } else if d == 2 {
        '2'
    } else if d == 3 {
        '3'
    } else if d == 4 {
        '4'
    } else if d == 5 {
        '5'
    } else if d == 6 {
        '6'
    } else if d == 7 {
        '7'
    } else if d == 8 {
        '8'
    } else {
        '9'
    }
}

/// The number that some decimal digits stand for.
pub open spec fn number_read(text: Seq<char>) -> int
    decreases text.len(),
{
    if text.len() == 0 {
        0
    } else {
        10 * number_read(text.drop_last()) + (text.last() as int - 0x30)
    }
}

/// The text is the usual way to write the number: decimal digits that stand
/// for it, without a leading zero.
pub open spec fn is_numeral(text: Seq<char>, n: int) -> bool {
    &&& text.len() > 0
    &&& forall|i: int| 0 <= i < text.len() ==> 0x30 <= (#[trigger] text[i] as int) <= 0x39
    &&& number_read(text) == n
    &&& text.len() > 1 ==> text[0] as int != 0x30
}

/// A number in decimal reads back as that number, consists of digits, and has
/// no leading zero.
pub proof fn law_decimal_reads_back(n: nat)
    ensures
        is_numeral(decimal(n), n as int),
        number_read(decimal(n)) == n,
        decimal(n).len() > 0,
        forall|i: int|
            0 <= i < decimal(n).len() ==> 0x30 <= (#[trigger] decimal(n)[i] as int) <= 0x39,
        n > 0 ==> decimal(n)[0] as int != 0x30,
    decreases n,
{
    if n < 10 {
        assert(decimal(n).drop_last() =~= Seq::empty());
        reveal_with_fuel(number_read, 2);
    } else {
        law_decimal_reads_back(n / 10);
        assert(decimal(n).drop_last() =~= decimal(n / 10));
        assert(n / 10 > 0);
    }
}

/// A padded text begins with the text, goes on with spaces, and is as long as
/// the width asks for, or as the text if that is longer.
pub proof fn law_padding_is_on_the_right(text: Seq<char>, width: nat)
    ensures
        padded(text, width).len() == (if text.len() >= width { text.len() } else { width }),
        padded(text, width).take(text.len() as int) == text,
        forall|i: int|
            text.len() <= i < padded(text, width).len() ==> #[trigger] padded(text, width)[i]
                == ' ',
{
    assert(padded(text, width).take(text.len() as int) =~= text);
}

} // verus!
