//! What the `csv` crate reads from a text: the header record, the data
//! records, and the number that a single field stands for.
//!
//! The three functions that call the crate, at the end of this file, are
//! taken on trust: each states what the crate's reader or deserializer does,
//! and the rest of the library is proved from that. How a text falls into
//! records and fields is left to the crate and only named here; how a field
//! reads as a number is written out.

use vstd::prelude::*;

verus! {

/// The header record that `csv` reads from `text`: its first record, field by
/// field, or `None` where the reader reports an error for it.
pub uninterp spec fn csv_headers(text: Seq<char>) -> Option<Seq<Seq<char>>>;

/// The data records that `csv` reads from `text` after the header record, in
/// the order of the text. A record is `None` where the reader reports an error
/// for it, as it does for one whose number of fields differs from that of the
/// first record.
pub uninterp spec fn csv_records(text: Seq<char>) -> Seq<Option<Seq<Seq<char>>>>;

/// What `c` counts for as a digit: `0` to `9`, then `a` to `f` in either case
/// for ten to fifteen.
pub open spec fn digit_value(c: char) -> Option<nat> {
    if '0' <= c <= '9' {
        Some((c as u32 - '0' as u32) as nat)
    } else if 'a' <= c <= 'f' {
        Some((c as u32 - 'a' as u32 + 10) as nat)
    } else if 'A' <= c <= 'F' {
        Some((c as u32 - 'A' as u32 + 10) as nat)
    } else {
        None
    }
}

/// Whether `c` is a digit below `radix`.
pub open spec fn is_digit(c: char, radix: nat) -> bool {
    digit_value(c) is Some && digit_value(c).unwrap() < radix
}

/// The number that a string of digits writes in `radix`, most significant
/// digit first.
pub open spec fn digits_value(digits: Seq<char>, radix: nat) -> nat
    decreases digits.len(),
{
    if digits.len() == 0 {
        0
    } else {
        digits_value(digits.drop_last(), radix) * radix + digit_value(digits.last()).unwrap()
    }
}

/// Whether every character of `digits` is a digit below `radix`.
pub open spec fn all_digits(digits: Seq<char>, radix: nat) -> bool {
    forall|i: int| 0 <= i < digits.len() ==> is_digit(#[trigger] digits[i], radix)
}

/// `text` without the `+` that it may start with.
pub open spec fn without_sign(text: Seq<char>) -> Seq<char> {
    if text.len() > 0 && text[0] == '+' {
        text.skip(1)
    } else {
        text
    }
}

/// The number that `text` writes in `radix`: an optional `+`, then one digit or
/// more and nothing else. `None` where `text` has another form or the number
/// does not fit 32 bits.
pub open spec fn numeral_value(text: Seq<char>, radix: nat) -> Option<u32> {
    let digits = without_sign(text);
    if digits.len() > 0 && all_digits(digits, radix) && digits_value(digits, radix) <= u32::MAX {
        Some(digits_value(digits, radix) as u32)
    } else {
        None
    }
}

/// The count that a field stands for: a hexadecimal numeral after the prefix
/// `0x`, a decimal numeral otherwise.
pub open spec fn count_of_field(field: Seq<char>) -> Option<u32> {
    if field.len() >= 2 && field[0] == '0' && field[1] == 'x' {
        numeral_value(field.skip(2), 16)
    } else {
        numeral_value(field, 10)
    }
}

/// A field that holds anything but decimal digits, after the `+` that it may
/// start with, is no number, unless it starts with `0x`.
pub proof fn lemma_decimal_has_digits_only(field: Seq<char>, i: int)
    requires
        !(field.len() >= 2 && field[0] == '0' && field[1] == 'x'),
        0 <= i < field.len(),
        !('0' <= field[i] <= '9'),
        !(i == 0 && field[0] == '+'),
    ensures
        count_of_field(field) is None,
{
    let digits = without_sign(field);
    if field[0] == '+' {
        assert(!is_digit(digits[i - 1], 10));
    }
}

/// An empty field is no number.
pub proof fn lemma_empty_field_is_no_number()
    ensures
        count_of_field(Seq::<char>::empty()) is None,
{
}

/// Reads the header record of `text` with `csv::Reader::headers`, on a reader
/// that takes the first record for the header. The contract only names the
/// result: the fields of that record, converted to owned strings.
#[verifier::external_body]
pub(crate) fn read_headers(text: &str) -> (headers: Option<Vec<String>>)
    ensures
        headers.deep_view() == csv_headers(text@),
{
    let mut reader = csv::ReaderBuilder::new().has_headers(true).from_reader(text.as_bytes());
    match reader.headers() {
        Ok(record) => Some(record.iter().map(String::from).collect()),
        Err(_) => None,
    }
}

/// Reads the data records of `text` with `csv::Reader::records`, on a reader
/// that takes the first record for the header. The contract only names the
/// result: one entry for each item of the iterator, in its order, with the
/// fields of the record or `None` for an error.
#[verifier::external_body]
pub(crate) fn read_records(text: &str) -> (records: Vec<Option<Vec<String>>>)
    ensures
        records.deep_view() == csv_records(text@),
{
    let mut reader = csv::ReaderBuilder::new().has_headers(true).from_reader(text.as_bytes());
    reader.records().map(|item| match item {
        Ok(record) => Some(record.iter().map(String::from).collect()),
        Err(_) => None,
    }).collect()
}

/// Reads one field as an unsigned 32-bit number with
/// `csv::StringRecord::deserialize`, which parses a field that starts with `0x`
/// as hexadecimal and any other as decimal, each with the standard library's
/// integer parser. The contract states that grammar.
#[verifier::external_body]
pub(crate) fn parse_count(field: &str) -> (count: Option<u32>)
    ensures
        count == count_of_field(field@),
{
    match csv::StringRecord::from(vec![field]).deserialize::<u32>(None) {
        Ok(count) => Some(count),
        Err(_) => None,
    }
}

} // verus!
