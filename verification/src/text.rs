//! Text out of the bytes that a window manager and the process table hand
//! out.

use vstd::prelude::*;
use vstd::utf8::{decode_utf8, valid_utf8};

verus! {

broadcast use vstd::string::group_string_axioms;

/// The text that `bytes` spell in Latin-1: each byte is the character with
/// that code point.
pub open spec fn latin1(bytes: Seq<u8>) -> Seq<char> {
    Seq::new(bytes.len(), |i: int| bytes[i] as char)
}

/// The text of a property whose encoding is not declared: the bytes read as
/// UTF-8 where they are well-formed UTF-8, and as Latin-1 where they are not.
pub open spec fn decoded(bytes: Seq<u8>) -> Seq<char> {
    if valid_utf8(bytes) {
        decode_utf8(bytes)
    } else {
        latin1(bytes)
    }
}

/// `text` without the separators at its end.
pub open spec fn trimmed(text: Seq<char>, separator: char) -> Seq<char>
    decreases text.len(),
{
    if text.len() == 0 || text.last() != separator {
        text
    } else {
        trimmed(text.drop_last(), separator)
    }
}

/// What follows the last separator in `text`; all of `text` if it holds none.
pub open spec fn tail(text: Seq<char>, separator: char) -> Seq<char>
    decreases text.len(),
{
    if text.len() == 0 || text.last() == separator {
        Seq::empty()
    } else {
        tail(text.drop_last(), separator).push(text.last())
    }
}

/// The last of the segments of `text` that is not empty, where the segments
/// are what stands between separators; empty if every segment is.
pub open spec fn last_segment(text: Seq<char>, separator: char) -> Seq<char> {
    tail(trimmed(text, separator), separator)
}

/// The class of a window, out of the value of its class property. The value
/// is a record of names in UTF-8, each ended by a NUL; the class is the last
/// name that is not empty. A value that is not well-formed UTF-8 holds no
/// name.
pub open spec fn class_of(value: Seq<u8>) -> Seq<char> {
    if valid_utf8(value) {
        last_segment(decode_utf8(value), '\0')
    } else {
        Seq::empty()
    }
}

/// The file name of an executable, out of its path: the last component of
/// the path.
pub open spec fn file_name_of(path: Seq<char>) -> Seq<char> {
    last_segment(path, '/')
}

/// Reads `bytes` as Latin-1.
///
/// Calls `xcb::Lat1Str::from_bytes` and `xcb::Lat1Str::to_utf8`. The first
/// borrows the bytes as they are; the second maps each byte to the character
/// with that code point, which is what the contract says.
#[verifier::external_body]
fn latin1_to_string(bytes: &[u8]) -> (text: String)
    ensures
        text@ == latin1(bytes@),
{
    xcb::Lat1Str::from_bytes(bytes).to_utf8().into_owned()
}

/// Reads `bytes` as UTF-8.
///
/// Calls `std::str::from_utf8`, which accepts exactly the well-formed byte
/// sequences and returns the text that they encode.
#[verifier::external_body]
fn utf8_to_string(bytes: &[u8]) -> (text: Option<String>)
    ensures
        text is Some <==> valid_utf8(bytes@),
        text matches Some(text) ==> text@ == decode_utf8(bytes@),
{
    match std::str::from_utf8(bytes) {
        Ok(text) => Some(text.to_owned()),
        Err(_) => None,
    }
}

/// The text of a property whose encoding is not declared.
pub fn decode_text(bytes: &[u8]) -> (text: String)
    ensures
        text@ == decoded(bytes@),
{
    match utf8_to_string(bytes) {
        Some(text) => text,
        None => latin1_to_string(bytes),
    }
}

proof fn lemma_trimmed_push(text: Seq<char>, separator: char, next: char)
    ensures
        trimmed(text.push(next), separator) == if next == separator {
            trimmed(text, separator)
        } else {
            text.push(next)
        },
        tail(text.push(next), separator) == if next == separator {
            Seq::<char>::empty()
        } else {
            tail(text, separator).push(next)
        },
{
    assert(text.push(next).drop_last() =~= text);
}

proof fn lemma_trimmed_is_a_prefix(text: Seq<char>, separator: char) -> (end: int)
    ensures
        0 <= end <= text.len(),
        trimmed(text, separator) == text.take(end),
        end == 0 || text[end - 1] != separator,
        forall|i: int| end <= i < text.len() ==> text[i] == separator,
    decreases text.len(),
{
    if text.len() == 0 || text.last() != separator {
        assert(text.take(text.len() as int) =~= text);
        text.len() as int
    } else {
        let shorter = text.drop_last();
        let end = lemma_trimmed_is_a_prefix(shorter, separator);
        assert(shorter.take(end) =~= text.take(end));
        assert forall|i: int| end <= i < text.len() implies text[i] == separator by {
            if i < shorter.len() {
                assert(shorter[i] == text[i]);
            }
        }
        if end > 0 {
            assert(shorter[end - 1] == text[end - 1]);
        }
        end
    }
}

proof fn lemma_tail_is_a_suffix(text: Seq<char>, separator: char) -> (start: int)
    ensures
        0 <= start <= text.len(),
        tail(text, separator) == text.subrange(start, text.len() as int),
        start == 0 || text[start - 1] == separator,
        forall|i: int| start <= i < text.len() ==> text[i] != separator,
    decreases text.len(),
{
    if text.len() == 0 || text.last() == separator {
        assert(text.subrange(text.len() as int, text.len() as int) =~= Seq::<char>::empty());
        text.len() as int
    } else {
        let shorter = text.drop_last();
        let start = lemma_tail_is_a_suffix(shorter, separator);
        assert(shorter.subrange(start, shorter.len() as int).push(text.last()) =~= text.subrange(
            start,
            text.len() as int,
        ));
        assert forall|i: int| start <= i < text.len() implies text[i] != separator by {
            if i < shorter.len() {
                assert(shorter[i] == text[i]);
            }
        }
        if start > 0 {
            assert(shorter[start - 1] == text[start - 1]);
        }
        start
    }
}

/// The last segment is a segment, and the last one that is not empty. The
/// law returns where it stands in `text`: it holds no separator; a separator
/// or the start of the text stands before it; nothing but separators follows
/// it; and it is empty only where `text` holds nothing but separators.
pub proof fn lemma_last_segment_is_a_segment(text: Seq<char>, separator: char) -> (bounds: (
    int,
    int,
))
    ensures
        0 <= bounds.0 <= bounds.1 <= text.len(),
        last_segment(text, separator) == text.subrange(bounds.0, bounds.1),
        forall|i: int| bounds.0 <= i < bounds.1 ==> text[i] != separator,
        bounds.0 == 0 || text[bounds.0 - 1] == separator,
        forall|i: int| bounds.1 <= i < text.len() ==> text[i] == separator,
        bounds.0 == bounds.1 ==> forall|i: int| 0 <= i < text.len() ==> text[i] == separator,
{
    let end = lemma_trimmed_is_a_prefix(text, separator);
    let kept = text.take(end);
    let start = lemma_tail_is_a_suffix(kept, separator);
    assert(kept.subrange(start, end) =~= text.subrange(start, end));
    assert forall|i: int| start <= i < end implies text[i] != separator by {
        assert(kept[i] == text[i]);
    }
    if start > 0 {
        assert(kept[start - 1] == text[start - 1]);
    }
    if start == end && end > 0 {
        assert(kept.last() == text[end - 1]);
    }
    (start, end)
}

/// The last segment of `text` that is not empty.
pub fn last_segment_of(text: &str, separator: char) -> (segment: String)
    ensures
        segment@ == last_segment(text@, separator),
{
    let length = text.unicode_len();
    // The segment that is open at `i` begins at `open`; the last segment that
    // is not empty is `start..end`.
    let mut open: usize = 0;
    let mut start: usize = 0;
    let mut end: usize = 0;
    let mut i: usize = 0;
    for c in it: text.chars()
        invariant
            it.seq() == text@,
            length == text@.len(),
            i == it.index(),
            open <= i,
            start <= end <= i,
            text@.subrange(open as int, i as int) == tail(text@.take(i as int), separator),
            text@.subrange(start as int, end as int) == last_segment(
                text@.take(i as int),
                separator,
            ),
    {
        proof {
            let before = text@.take(i as int);
            assert(text@.take(i + 1) =~= before.push(c));
            lemma_trimmed_push(before, separator, c);
            if c != separator {
                assert(text@.subrange(open as int, i + 1) =~= text@.subrange(
                    open as int,
                    i as int,
                ).push(c));
            } else {
                assert(text@.subrange(i + 1, i + 1) =~= Seq::<char>::empty());
            }
        }
        if c == separator {
            open = i + 1;
        } else {
            start = open;
            end = i + 1;
        }
        i = i + 1;
    }
    assert(text@.take(i as int) =~= text@);
    text.substring_char(start, end).to_owned()
}

/// The class of a window, out of the value of its class property.
pub fn class_name(value: &[u8]) -> (name: String)
    ensures
        name@ == class_of(value@),
{
    match utf8_to_string(value) {
        Some(names) => last_segment_of(names.as_str(), '\0'),
        None => String::new(),
    }
}

/// The file name of an executable, out of its path.
pub fn file_name(path: &str) -> (name: String)
    ensures
        name@ == file_name_of(path@),
{
    last_segment_of(path, '/')
}

} // verus!
