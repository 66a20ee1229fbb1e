use vstd::prelude::*;
use vstd::slice::slice_to_vec;
use vstd::utf8::{valid_utf8, decode_utf8};
use crate::strings::push_char;

verus! {

/// The legacy Chinese charsets a message may be written in.
#[derive(Clone, Copy, Debug, PartialEq, Eq, Structural)]
pub enum Charset {
    Gbk,
    Gb18030,
}

/// The text that `Encoding::decode` of `encoding_rs` gives for `bytes` in
/// `charset` (byte order marks sniffed as it does), and whether it met
/// malformed sequences on the way.
pub uninterp spec fn charset_decoding(charset: Charset, bytes: Seq<u8>) -> (Seq<char>, bool);

/// Calls `Encoding::decode` of `encoding_rs` on `GBK` or `GB18030`, the
/// encodings that `Encoding::for_label` gives for the labels "gbk" and
/// "gb18030". Claimed: the text and the malformed-input flag are a function of the
/// charset and the bytes alone (`charset_decoding`). The call panics only
/// when the size of its output buffer overflows `usize`, which the bound
/// on the input length rules out.
#[verifier::external_body]
fn decode_in(charset: Charset, bytes: &[u8]) -> (r: (String, bool))
    requires
        bytes@.len() <= usize::MAX / 4,
    ensures
        (r.0@, r.1) == charset_decoding(charset, bytes@),
{
    let encoding = match charset {
        Charset::Gbk => encoding_rs::GBK,
        Charset::Gb18030 => encoding_rs::GB18030,
    };
    let (text, _, had_errors) = encoding.decode(bytes);
    (text.into_owned(), had_errors)
}

/// Calls `String::from_utf8`. Claimed, as std documents it: the bytes are
/// taken as they are when they are valid UTF-8, and refused otherwise.
#[verifier::external_body]
pub(crate) fn utf8_string(bytes: Vec<u8>) -> (r: Option<String>)
    ensures
        r is Some <==> valid_utf8(bytes@),
        r matches Some(s) ==> s@ == decode_utf8(bytes@),
{
    String::from_utf8(bytes).ok()
}

/// The upper-case hexadecimal digit for `n < 16`.
pub open spec fn hex_digit(n: u8) -> char {
    if n < 10 {
        ((48 + n) as u8) as char
    } else {
        ((55 + n) as u8) as char
    }
}

/// The two upper-case hexadecimal digits of a byte.
pub open spec fn hex_byte(b: u8) -> Seq<char> {
    seq![hex_digit(b / 16), hex_digit(b % 16)]
}

/// The bytes written as upper-case hexadecimal pairs separated by single
/// spaces, e.g. `[0x0a, 0xff]` as `"0A FF"`.
pub open spec fn hex_listing(bytes: Seq<u8>) -> Seq<char>
    decreases bytes.len(),
{
    if bytes.len() == 0 {
        seq![]
    } else if bytes.len() == 1 {
        hex_byte(bytes[0])
    } else {
        hex_listing(bytes.drop_last()) + seq![' '] + hex_byte(bytes.last())
    }
}

fn hex_digit_char(n: u8) -> (c: char)
    requires
        n < 16,
    ensures
        c == hex_digit(n),
{
    if n < 10 {
        (48 + n) as char
    } else {
        (55 + n) as char
    }
}

/// Writes bytes as upper-case hexadecimal pairs separated by spaces.
pub fn hex_bytes(bytes: &[u8]) -> (s: String)
    ensures
        s@ == hex_listing(bytes@),
{
    let mut s = String::new();
    let n = bytes.len();
    let mut i: usize = 0;
    assert(bytes@.subrange(0, 0) =~= Seq::<u8>::empty());
    while i < n
        invariant
            n == bytes@.len(),
            i <= n,
            s@ == hex_listing(bytes@.subrange(0, i as int)),
        decreases n - i,
    {
        let b = bytes[i];
        let ghost prefix = bytes@.subrange(0, i as int + 1);
        assert(prefix.drop_last() =~= bytes@.subrange(0, i as int));
        assert(prefix.last() == b);
        if i > 0 {
            push_char(&mut s, ' ');
        }
        push_char(&mut s, hex_digit_char(b / 16));
        push_char(&mut s, hex_digit_char(b % 16));
        assert(s@ =~= hex_listing(prefix));
        i = i + 1;
    }
    assert(bytes@.subrange(0, n as int) =~= bytes@);
    s
}

/// The text of a decoding, when it met no malformed sequence.
pub fn accept_decoding(decoded: (String, bool)) -> (text: Option<String>)
    ensures
        text is Some <==> !decoded.1,
        text matches Some(t) ==> t@ == decoded.0@,
{
    let (text, had_errors) = decoded;
    if had_errors {
        None
    } else {
        Some(text)
    }
}

/// The text shown for a message that arrived as `bytes`: the bytes read as
/// UTF-8 when they are valid UTF-8, else as GBK when that decodes without
/// error, else as GB18030 when that does, else their hexadecimal listing.
pub open spec fn message_text(bytes: Seq<u8>) -> Seq<char> {
    if valid_utf8(bytes) {
        decode_utf8(bytes)
    } else if !charset_decoding(Charset::Gbk, bytes).1 {
        charset_decoding(Charset::Gbk, bytes).0
    } else if !charset_decoding(Charset::Gb18030, bytes).1 {
        charset_decoding(Charset::Gb18030, bytes).0
    } else {
        hex_listing(bytes)
    }
}

/// Turns the bytes of a message into text: UTF-8 first, then GBK, then
/// GB18030, and the hexadecimal listing when none of them fits.
pub fn decode_message(bytes: &[u8]) -> (text: String)
    requires
        valid_utf8(bytes@) || bytes@.len() <= usize::MAX / 4,
    ensures
        text@ == message_text(bytes@),
{
    if let Some(text) = utf8_string(slice_to_vec(bytes)) {
        return text;
    }
    if let Some(text) = accept_decoding(decode_in(Charset::Gbk, bytes)) {
        return text;
    }
    if let Some(text) = accept_decoding(decode_in(Charset::Gb18030, bytes)) {
        return text;
    }
    hex_bytes(bytes)
}

/// The pattern, in `chrono`'s format syntax, of the timestamps of general
/// log entries: local time to the millisecond.
pub const MILLIS_PATTERN: &'static str = "%Y-%m-%d %H:%M:%S%.3f";

/// The pattern, in `chrono`'s format syntax, of the timestamps of event log
/// entries: local time to the minute.
pub const MINUTES_PATTERN: &'static str = "%Y-%m-%d %H:%M";

} // verus!
