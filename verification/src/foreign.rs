//! Declarations of the outside types that the library carries, and the calls
//! into outside crates that the library's logic makes, each with the contract
//! that the rest of the crate relies on.

use vstd::prelude::*;
use vstd::utf8::encode_utf8;

verus! {

/// A JSON value of `serde_json`; the library carries it without looking inside.
#[verifier::external_type_specification]
#[verifier::external_body]
pub struct ExJsonValue(serde_json::Value);

/// The error of `serde_json` when a text is not the JSON that was expected.
#[verifier::external_type_specification]
#[verifier::external_body]
pub struct ExJsonError(serde_json::Error);

/// The error of the `url` crate when a text is not a valid URL.
#[verifier::external_type_specification]
#[verifier::external_body]
pub struct ExUrlParseError(url::ParseError);

/// The transport error of `reqwest`.
#[verifier::external_type_specification]
#[verifier::external_body]
pub struct ExHttpError(reqwest::Error);

/// An I/O error of std.
#[verifier::external_type_specification]
#[verifier::external_body]
pub struct ExIoError(std::io::Error);

/// The serialization of the URL that `url::Url::parse` makes of a text, or
/// `None` where it rejects the text.
pub uninterp spec fn url_parse_result(input: Seq<char>) -> Option<Seq<char>>;

/// The serialization of the URL that `url::Url::join` resolves `input` to, with
/// the URL parsed from `base` as the base, or `None` where either step fails.
pub uninterp spec fn url_join_result(base: Seq<char>, input: Seq<char>) -> Option<Seq<char>>;

/// Calls `url::Url::parse` and hands back the serialization of the parsed URL.
/// Claimed: the result is a function of the text alone, named
/// `url_parse_result`; an `Err` comes exactly where that name is `None`.
#[verifier::external_body]
pub fn parse_url(input: &str) -> (r: Result<String, url::ParseError>)
    ensures
        match r {
            Ok(text) => url_parse_result(input@) == Some(text@),
            Err(_) => url_parse_result(input@) is None,
        },
{
    url::Url::parse(input).map(String::from)
}

/// Calls `url::Url::parse` on `base` and `url::Url::join` on the result with
/// `input`, and hands back the serialization of the joined URL. Claimed: the
/// result is a function of the two texts alone, named `url_join_result`; an
/// `Err` comes exactly where that name is `None`.
#[verifier::external_body]
pub fn join_url(base: &str, input: &str) -> (r: Result<String, url::ParseError>)
    ensures
        match r {
            Ok(text) => url_join_result(base@, input@) == Some(text@),
            Err(_) => url_join_result(base@, input@) is None,
        },
{
    let parsed = url::Url::parse(base)?;
    parsed.join(input).map(String::from)
}

/// The bytes that `urlencoding::encode` leaves as they are: ASCII letters,
/// digits, `-`, `.`, `_` and `~`.
pub open spec fn is_unreserved_byte(b: u8) -> bool {
    (48 <= b <= 57) || (65 <= b <= 90) || (97 <= b <= 122) || b == 45 || b == 46 || b == 95
        || b == 126
}

/// The upper-case hexadecimal digit for a value below 16.
pub open spec fn hex_digit(d: u8) -> char {
    if d < 10 {
        ((48 + d) as u8) as char
    } else {
        ((55 + d) as u8) as char
    }
}

/// Percent-encoding of a byte sequence: unreserved bytes stand for themselves,
/// every other byte becomes `%` and two upper-case hexadecimal digits.
pub open spec fn percent_encoded(bytes: Seq<u8>) -> Seq<char>
    decreases bytes.len(),
{
    if bytes.len() == 0 {
        seq![]
    } else {
        let b = bytes[0];
        let head = if is_unreserved_byte(b) {
            seq![b as char]
        } else {
            seq!['%', hex_digit(b / 16), hex_digit(b % 16)]
        };
        head + percent_encoded(bytes.drop_first())
    }
}

/// Calls `urlencoding::encode`. Claimed, as its documentation and source show:
/// every byte of the UTF-8 encoding of the text is kept when it is an ASCII
/// letter, digit, `-`, `.`, `_` or `~`, and replaced by `%XX` in upper-case
/// hexadecimal otherwise.
#[verifier::external_body]
pub fn url_encode(input: &str) -> (r: String)
    ensures
        r@ == percent_encoded(encode_utf8(input@)),
{
    urlencoding::encode(input).into_owned()
}

/// The value of an upper-case hexadecimal digit.
pub open spec fn hex_value(c: char) -> int {
    if '0' <= c && c <= '9' {
        c as u32 - 48
    } else {
        c as u32 - 55
    }
}

/// Percent-decoding: `%` with two hexadecimal digits stands for the byte they
/// denote, and any other character for its own code.
pub open spec fn percent_decoded(s: Seq<char>) -> Seq<u8>
    decreases s.len(),
{
    if s.len() == 0 {
        seq![]
    } else if s[0] == '%' && s.len() >= 3 {
        seq![(hex_value(s[1]) * 16 + hex_value(s[2])) as u8] + percent_decoded(s.skip(3))
    } else {
        seq![s[0] as u8] + percent_decoded(s.drop_first())
    }
}

/// Whether a character may appear in a percent-encoded text: an unreserved
/// ASCII character, `%`, or an upper-case hexadecimal digit.
pub open spec fn is_percent_encoding_char(c: char) -> bool {
    ||| ('0' <= c && c <= '9')
    ||| ('A' <= c && c <= 'Z')
    ||| ('a' <= c && c <= 'z')
    ||| c == '-' || c == '.' || c == '_' || c == '~' || c == '%'
}

proof fn lemma_hex_digit(d: u8)
    requires
        d < 16,
    ensures
        hex_value(hex_digit(d)) == d,
        is_percent_encoding_char(hex_digit(d)),
        hex_digit(d) != '%',
{
    if d < 10 {
        let x: u8 = (48 + d) as u8;
        assert((x as char) as u32 == x);
    } else {
        let x: u8 = (55 + d) as u8;
        assert((x as char) as u32 == x);
    }
}

/// Percent-encoding loses nothing: decoding the encoded text gives the bytes
/// back, and the encoded text holds only unreserved ASCII characters, `%` and
/// upper-case hexadecimal digits.
pub proof fn lemma_percent_encoding_round_trip(bytes: Seq<u8>)
    ensures
        percent_decoded(percent_encoded(bytes)) == bytes,
        forall|i: int|
            0 <= i < percent_encoded(bytes).len() ==> is_percent_encoding_char(
                #[trigger] percent_encoded(bytes)[i],
            ),
    decreases bytes.len(),
{
    if bytes.len() > 0 {
        let b = bytes[0];
        let rest = bytes.drop_first();
        lemma_percent_encoding_round_trip(rest);
        let tail = percent_encoded(rest);
        let enc = percent_encoded(bytes);
        if is_unreserved_byte(b) {
            let x: u8 = b;
            assert((x as char) as u32 == x);
            assert(enc == seq![b as char] + tail);
            assert(enc[0] == b as char);
            assert(enc.drop_first() =~= tail);
            assert(percent_decoded(enc) =~= seq![b] + percent_decoded(tail));
            assert(seq![b] + rest =~= bytes);
            assert forall|i: int| 0 <= i < enc.len() implies is_percent_encoding_char(
                #[trigger] enc[i],
            ) by {
                if i > 0 {
                    assert(enc[i] == tail[i - 1]);
                }
            }
        } else {
            lemma_hex_digit(b / 16);
            lemma_hex_digit(b % 16);
            let head = seq!['%', hex_digit(b / 16), hex_digit(b % 16)];
            assert(enc == head + tail);
            assert(enc.skip(3) =~= tail);
            assert((b / 16) * 16 + b % 16 == b);
            assert(percent_decoded(enc) =~= seq![b] + percent_decoded(tail));
            assert(seq![b] + rest =~= bytes);
            assert forall|i: int| 0 <= i < enc.len() implies is_percent_encoding_char(
                #[trigger] enc[i],
            ) by {
                if i >= 3 {
                    assert(enc[i] == tail[i - 3]);
                }
            }
        }
    }
}

} // verus!
