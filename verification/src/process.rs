//! What the process table says of the process that owns a window.
//!
//! The memory statistics of a process are a line of numbers, parted by
//! blanks. The first number is taken for the memory that the process uses,
//! in pages; it is the only one that is read.

use vstd::prelude::*;

verus! {

/// Whether `byte` is a blank: a space, a tab, a line feed, a form feed or a
/// carriage return.
pub open spec fn is_blank(byte: u8) -> bool {
    byte == 0x20 || byte == 0x09 || byte == 0x0a || byte == 0x0c || byte == 0x0d
}

/// Whether `byte` is a decimal digit.
pub open spec fn is_digit(byte: u8) -> bool {
    0x30 <= byte <= 0x39
}

/// The length of the first field of `line`: the number of bytes before the
/// first blank.
pub open spec fn field_length(line: Seq<u8>) -> nat
    decreases line.len(),
{
    if line.len() == 0 || is_blank(line[0]) {
        0
    } else {
        1 + field_length(line.drop_first())
    }
}

/// The first field of `line`: what stands before the first blank.
pub open spec fn first_field(line: Seq<u8>) -> Seq<u8> {
    line.take(field_length(line) as int)
}

/// Whether `digits` holds decimal digits only.
pub open spec fn all_digits(digits: Seq<u8>) -> bool {
    forall|i: int| 0 <= i < digits.len() ==> is_digit(#[trigger] digits[i])
}

/// The number that the decimal digits `digits` spell.
pub open spec fn decimal_value(digits: Seq<u8>) -> nat
    decreases digits.len(),
{
    if digits.len() == 0 {
        0
    } else {
        decimal_value(digits.drop_last()) * 10 + (digits.last() - 0x30) as nat
    }
}

/// The digits of a field that spells a number: the field without a plus sign
/// at its front.
pub open spec fn unsigned(field: Seq<u8>) -> Seq<u8> {
    if field.len() > 0 && field[0] == 0x2b {
        field.drop_first()
    } else {
        field
    }
}

/// The number that `field` spells, if it spells one that fits in 32 bits: one
/// or more decimal digits, with or without a plus sign in front of them.
pub open spec fn number(field: Seq<u8>) -> Option<u32> {
    let digits = unsigned(field);
    if digits.len() > 0 && all_digits(digits) && decimal_value(digits) <= u32::MAX {
        Some(decimal_value(digits) as u32)
    } else {
        None
    }
}

/// The number of pages that the memory statistics `line` report: the number
/// that its first field spells.
pub open spec fn page_count(line: Seq<u8>) -> Option<u32> {
    number(first_field(line))
}

proof fn lemma_field_length_bounds(line: Seq<u8>)
    ensures
        field_length(line) <= line.len(),
        forall|i: int| 0 <= i < field_length(line) ==> !is_blank(#[trigger] line[i]),
        field_length(line) < line.len() ==> is_blank(line[field_length(line) as int]),
    decreases line.len(),
{
    if line.len() == 0 || is_blank(line[0]) {
    } else {
        let rest = line.drop_first();
        lemma_field_length_bounds(rest);
        assert forall|i: int| 0 <= i < field_length(line) implies !is_blank(
            #[trigger] line[i],
        ) by {
            if i > 0 {
                assert(line[i] == rest[i - 1]);
            }
        }
        assert(field_length(line) < line.len() ==> line[field_length(line) as int] == rest[
            field_length(rest) as int
        ]);
    }
}

proof fn lemma_field_length_is_first_blank(line: Seq<u8>, end: int)
    requires
        0 <= end <= line.len(),
        forall|i: int| 0 <= i < end ==> !is_blank(#[trigger] line[i]),
        end < line.len() ==> is_blank(line[end]),
    ensures
        field_length(line) == end,
{
    lemma_field_length_bounds(line);
    let length = field_length(line) as int;
    if length < end {
        assert(is_blank(line[length]));
    } else if end < length {
        assert(!is_blank(line[end]));
    }
}

proof fn lemma_decimal_value_grows(digits: Seq<u8>, shorter: int)
    requires
        all_digits(digits),
        0 <= shorter <= digits.len(),
    ensures
        decimal_value(digits.take(shorter)) <= decimal_value(digits),
    decreases digits.len() - shorter,
{
    if shorter == digits.len() {
        assert(digits.take(shorter) =~= digits);
    } else {
        let longer = digits.take(shorter + 1);
        assert(longer.drop_last() =~= digits.take(shorter));
        assert(is_digit(digits[shorter]));
        assert(longer.last() == digits[shorter]);
        lemma_decimal_value_grows(digits, shorter + 1);
    }
}

/// The number that `field` spells, if it spells one that fits in 32 bits.
pub fn parse_number(field: &[u8]) -> (value: Option<u32>)
    ensures
        value == number(field@),
{
    let length = field.len();
    let first: usize = if length > 0 && field[0] == 0x2b {
        1
    } else {
        0
    };
    if first == length {
        return None;
    }
    let ghost digits = unsigned(field@);
    assert(digits =~= field@.skip(first as int));
    let mut value: u64 = 0;
    let mut i: usize = first;
    while i < length
        invariant
            first <= i <= length,
            length == field@.len(),
            digits == field@.skip(first as int),
            digits == unsigned(field@),
            all_digits(digits.take(i - first)),
            value == decimal_value(digits.take(i - first)),
            value <= u32::MAX,
        decreases length - i,
    {
        let byte = field[i];
        proof {
            assert(digits[i - first] == byte);
            assert(digits.take(i - first + 1).drop_last() =~= digits.take(i - first));
        }
        if byte < 0x30 || byte > 0x39 {
            assert(!is_digit(digits[i - first]));
            return None;
        }
        assert(all_digits(digits.take(i - first + 1))) by {
            assert forall|k: int| 0 <= k < i - first + 1 implies is_digit(
                #[trigger] digits.take(i - first + 1)[k],
            ) by {
                if k < i - first {
                    assert(digits.take(i - first + 1)[k] == digits.take(i - first)[k]);
                }
            }
        }
        value = value * 10 + (byte - 0x30) as u64;
        if value > u32::MAX as u64 {
            proof {
                if all_digits(digits) {
                    lemma_decimal_value_grows(digits, i - first + 1);
                }
            }
            return None;
        }
        i = i + 1;
    }
    assert(digits.take(i - first) =~= digits);
    Some(value as u32)
}

/// The number of pages that the memory statistics `line` report.
pub fn parse_page_count(line: &[u8]) -> (pages: Option<u32>)
    ensures
        pages == page_count(line@),
{
    let length = line.len();
    let mut end: usize = 0;
    while end < length && !is_blank_byte(line[end])
        invariant
            end <= length,
            length == line@.len(),
            forall|i: int| 0 <= i < end ==> !is_blank(#[trigger] line@[i]),
        decreases length - end,
    {
        end = end + 1;
    }
    proof {
        lemma_field_length_is_first_blank(line@, end as int);
    }
    let field = vstd::slice::slice_subrange(line, 0, end);
    assert(field@ =~= first_field(line@));
    parse_number(field)
}

/// Whether `byte` is a blank.
pub fn is_blank_byte(byte: u8) -> (blank: bool)
    ensures
        blank == is_blank(byte),
{
    byte == 0x20 || byte == 0x09 || byte == 0x0a || byte == 0x0c || byte == 0x0d
}

} // verus!
