//! The calls that leave this library: hashing, base64, random characters and
//! the string functions of std that have no specification of their own.
//! What each contract says is taken on trust from the code it calls.

use vstd::prelude::*;
use vstd::utf8::{decode_utf8, valid_utf8};

verus! {

/// The Argon2i digest of a password under a salt, with the default cost.
pub uninterp spec fn argon2i_digest(password: Seq<char>, salt: Seq<char>) -> Seq<u8>;

/// The standard padded base64 text of a sequence of bytes.
pub uninterp spec fn base64_text(bytes: Seq<u8>) -> Seq<char>;

/// The bytes that a standard padded base64 text stands for, if it is one.
pub uninterp spec fn base64_bytes(text: Seq<char>) -> Option<Seq<u8>>;

/// The words of a text: its maximal runs of characters that are not
/// whitespace, in order.
pub uninterp spec fn whitespace_words(text: Seq<char>) -> Seq<Seq<char>>;

/// The fields of a text between the occurrences of a separator, in order.
pub uninterp spec fn fields_between(text: Seq<char>, separator: char) -> Seq<Seq<char>>;

/// The texts of `fields` in order, with `separator` between neighbours.
pub open spec fn joined(fields: Seq<Seq<char>>, separator: char) -> Seq<char>
    decreases fields.len(),
{
    if fields.len() == 0 {
        Seq::empty()
    } else if fields.len() == 1 {
        fields[0]
    } else {
        joined(fields.drop_last(), separator).push(separator) + fields.last()
    }
}

/// Whether a text is the decimal form of a 32-bit signed integer.
pub uninterp spec fn is_i32_text(text: Seq<char>) -> bool;

/// The decimal digits of a natural number, without leading zeros.
pub open spec fn decimal_digits(n: nat) -> Seq<char>
    decreases n,
{
    let last = seq!['0', '1', '2', '3', '4', '5', '6', '7', '8', '9'][(n % 10) as int];
    if n < 10 {
        seq![last]
    } else {
        decimal_digits(n / 10).push(last)
    }
}

/// The decimal text of an integer: its digits, after a minus sign where it
/// is negative.
pub open spec fn decimal_text(n: int) -> Seq<char> {
    if n < 0 {
        seq!['-'] + decimal_digits((-n) as nat)
    } else {
        decimal_digits(n as nat)
    }
}

/// Year, month and day of the date that lies a number of days after
/// 1970-01-01, where the calendar reaches it.
pub uninterp spec fn epoch_date(days: int) -> Option<(int, int, int)>;

/// The texts that a sequence of strings holds.
pub open spec fn text_views(texts: Seq<String>) -> Seq<Seq<char>> {
    Seq::new(texts.len(), |i: int| texts[i]@)
}

/// Whether a character is an ASCII letter or digit.
pub open spec fn is_alphanumeric(c: char) -> bool {
    ('0' <= c && c <= '9') || ('A' <= c && c <= 'Z') || ('a' <= c && c <= 'z')
}

/// `argon2rs::argon2i_simple`: the digest is a function of password and
/// salt, 32 bytes long. It takes a salt of 8 bytes or more and neither
/// argument longer than 2^32 - 1 bytes.
#[verifier::external_body]
pub(crate) fn argon2i(password: &str, salt: &str) -> (digest: Vec<u8>)
    requires
        4 * password@.len() <= 0xffff_ffff,
        8 <= salt@.len(),
        4 * salt@.len() <= 0xffff_ffff,
    ensures
        digest@ == argon2i_digest(password@, salt@),
        digest@.len() == 32,
{
    argon2rs::argon2i_simple(password, salt).to_vec()
}

/// `Engine::encode` of `base64`'s `STANDARD` engine: the text is a function
/// of the bytes. The length of the text must fit the machine.
#[verifier::external_body]
pub(crate) fn base64_encode(bytes: &Vec<u8>) -> (text: String)
    requires
        bytes@.len() <= 0x4000_0000,
    ensures
        text@ == base64_text(bytes@),
{
    base64::Engine::encode(&base64::engine::general_purpose::STANDARD, bytes)
}

/// `Engine::decode` of `base64`'s `STANDARD` engine: the bytes, or nothing
/// where the text is no padded base64, as a function of the text.
#[verifier::external_body]
pub(crate) fn base64_decode(text: &str) -> (bytes: Option<Vec<u8>>)
    ensures
        match bytes {
            Some(b) => base64_bytes(text@) == Some(b@),
            None => base64_bytes(text@).is_none(),
        },
{
    base64::Engine::decode(&base64::engine::general_purpose::STANDARD, text).ok()
}

/// `String::from_utf8` of std: the text that the bytes encode, or nothing
/// where they are not UTF-8.
#[verifier::external_body]
pub(crate) fn utf8_string(bytes: Vec<u8>) -> (text: Option<String>)
    ensures
        match text {
            Some(t) => valid_utf8(bytes@) && t@ == decode_utf8(bytes@),
            None => !valid_utf8(bytes@),
        },
{
    String::from_utf8(bytes).ok()
}

/// `str::split_whitespace` of std: the words of the text.
#[verifier::external_body]
pub(crate) fn split_whitespace(text: &str) -> (words: Vec<String>)
    ensures
        text_views(words@) == whitespace_words(text@),
{
    text.split_whitespace().map(String::from).collect()
}

/// `str::split` of std at a character: the fields of the text between the
/// occurrences of the separator. No field holds the separator, and the
/// fields with the separator between them are the text.
#[verifier::external_body]
pub(crate) fn split_at(text: &str, separator: char) -> (fields: Vec<String>)
    ensures
        text_views(fields@) == fields_between(text@, separator),
        forall|i: int| 0 <= i < fields@.len() ==> !(#[trigger] fields@[i])@.contains(separator),
        joined(text_views(fields@), separator) == text@,
{
    text.split(separator).map(String::from).collect()
}

/// `str::parse` of std to `i32`: whether the text reads as one.
#[verifier::external_body]
pub(crate) fn reads_as_i32(text: &str) -> (ok: bool)
    ensures
        ok == is_i32_text(text@),
{
    text.parse::<i32>().is_ok()
}

/// `RngExt::sample` of `rand`'s thread generator with `Alphanumeric`: some
/// ASCII letter or digit.
#[verifier::external_body]
pub(crate) fn random_alphanumeric() -> (c: char)
    ensures
        is_alphanumeric(c),
{
    char::from(rand::RngExt::sample::<u8, rand::distr::Alphanumeric>(
        &mut rand::rng(),
        rand::distr::Alphanumeric,
    ))
}

/// `i64::to_string` of std: the decimal text of the number.
#[verifier::external_body]
pub(crate) fn decimal(n: i64) -> (text: String)
    ensures
        text@ == decimal_text(n as int),
{
    n.to_string()
}

/// `NaiveDate::from_epoch_days` of `chrono`, with `year`, `month` and `day`
/// of what it returns: the date as a function of the count of days, or
/// nothing where the count is out of the calendar's range.
#[verifier::external_body]
pub(crate) fn date_of_epoch_days(days: i32) -> (date: Option<(i32, u32, u32)>)
    ensures
        match date {
            Some(d) => epoch_date(days as int) == Some((d.0 as int, d.1 as int, d.2 as int)),
            None => epoch_date(days as int).is_none(),
        },
{
    match chrono::NaiveDate::from_epoch_days(days) {
        Some(d) => Some(
            (chrono::Datelike::year(&d), chrono::Datelike::month(&d), chrono::Datelike::day(&d)),
        ),
        None => None,
    }
}

/// `String::push` of std: the character is added at the end.
#[verifier::external_body]
pub(crate) fn push_char(text: &mut String, c: char)
    ensures
        final(text)@ == old(text)@.push(c),
{
    text.push(c)
}

} // verus!
