//! URLs and percent encoding, computed by `url` and `urlencoding`, and header values.

use vstd::prelude::*;

verus! {

/// The normalised form of the absolute URL that a text denotes, if it denotes one.
pub uninterp spec fn url_parsed(text: Seq<char>) -> Option<Seq<char>>;

/// The URL that `path` denotes relative to the URL `base`, if both can be read.
pub uninterp spec fn url_joined(base: Seq<char>, path: Seq<char>) -> Option<Seq<char>>;

/// The scheme of a URL.
pub uninterp spec fn url_scheme(text: Seq<char>) -> Option<Seq<char>>;

/// The URL with another scheme, where that scheme can stand before it.
pub uninterp spec fn url_with_scheme(text: Seq<char>, scheme: Seq<char>) -> Option<Seq<char>>;

/// The URL with one more pair at the end of its query.
pub uninterp spec fn url_with_pair(
    text: Seq<char>,
    name: Seq<char>,
    value: Seq<char>,
) -> Option<Seq<char>>;

/// The last segment of the path of a URL, if its path has segments.
pub uninterp spec fn url_last_segment(text: Seq<char>) -> Option<Seq<char>>;

#[verifier::external_type_specification]
#[verifier::external_body]
pub struct ExUrlParseError(url::ParseError);

/// `Url::parse`, and the normalised text of what it gives.
#[verifier::external_body]
pub(crate) fn parse(text: &str) -> (r: Result<String, url::ParseError>)
    ensures
        match r {
            Ok(u) => url_parsed(text@) == Some(u@),
            Err(_) => url_parsed(text@) is None,
        },
{
    url::Url::parse(text).map(String::from)
}

/// `Url::join` of `path` to the URL that `base` denotes.
#[verifier::external_body]
pub(crate) fn join(base: &str, path: &str) -> (r: Result<String, url::ParseError>)
    ensures
        match r {
            Ok(u) => url_joined(base@, path@) == Some(u@),
            Err(_) => url_joined(base@, path@) is None,
        },
{
    url::Url::parse(base)?.join(path).map(String::from)
}

/// `Url::scheme` of the URL that a text denotes.
#[verifier::external_body]
pub(crate) fn scheme(text: &str) -> (r: Option<String>)
    ensures
        crate::text::opt_text(r) == url_scheme(text@),
{
    Some(url::Url::parse(text).ok()?.scheme().to_string())
}

/// `Url::set_scheme` on the URL that a text denotes.
#[verifier::external_body]
pub(crate) fn with_scheme(text: &str, scheme: &str) -> (r: Option<String>)
    ensures
        crate::text::opt_text(r) == url_with_scheme(text@, scheme@),
{
    let mut u = url::Url::parse(text).ok()?;
    u.set_scheme(scheme).ok()?;
    Some(String::from(u))
}

/// `Url::query_pairs_mut` and `append_pair` on the URL that a text denotes.
#[verifier::external_body]
pub(crate) fn with_pair(text: &str, name: &str, value: &str) -> (r: Option<String>)
    ensures
        crate::text::opt_text(r) == url_with_pair(text@, name@, value@),
{
    let mut u = url::Url::parse(text).ok()?;
    u.query_pairs_mut().append_pair(name, value);
    Some(String::from(u))
}

/// The last of `Url::path_segments` of the URL that a text denotes.
#[verifier::external_body]
pub(crate) fn last_segment(text: &str) -> (r: Option<String>)
    ensures
        crate::text::opt_text(r) == url_last_segment(text@),
{
    let u = url::Url::parse(text).ok()?;
    Some(u.path_segments()?.next_back()?.to_string())
}

/// Whether a byte stands for itself in percent-encoded text.
pub open spec fn is_unreserved(b: u8) -> bool {
    ||| '0' as u8 <= b <= '9' as u8
    ||| 'A' as u8 <= b <= 'Z' as u8
    ||| 'a' as u8 <= b <= 'z' as u8
    ||| b == '-' as u8 || b == '_' as u8 || b == '.' as u8 || b == '~' as u8
}

pub open spec fn hex_digit(d: int) -> char {
    if d < 10 {
        ('0' as u8 + d) as u8 as char
    } else {
        ('A' as u8 + (d - 10)) as u8 as char
    }
}

/// The text that encodes the bytes: each unreserved one itself, every other one as `%` and two
/// hexadecimal digits.
pub open spec fn percent_encoded(bytes: Seq<u8>) -> Seq<char>
    decreases bytes.len(),
{
    if bytes.len() == 0 {
        seq![]
    } else {
        let b = bytes.last();
        percent_encoded(bytes.drop_last()) + if is_unreserved(b) {
            seq![b as char]
        } else {
            seq!['%', hex_digit(b as int / 16), hex_digit(b as int % 16)]
        }
    }
}

/// `urlencoding::encode` percent-encodes every byte of the UTF-8 form except letters, digits and
/// `-`, `_`, `.`, `~`.
#[verifier::external_body]
pub(crate) fn percent_encode(text: &str) -> (r: String)
    ensures
        r@ == percent_encoded(vstd::utf8::encode_utf8(text@)),
{
    urlencoding::encode(text).into_owned()
}

/// The value of a hexadecimal digit of either case.
pub open spec fn hex_value(b: u8) -> Option<int> {
    if '0' as u8 <= b <= '9' as u8 {
        Some(b - '0' as u8)
    } else if 'A' as u8 <= b <= 'F' as u8 {
        Some(b - 'A' as u8 + 10)
    } else if 'a' as u8 <= b <= 'f' as u8 {
        Some(b - 'a' as u8 + 10)
    } else {
        None
    }
}

/// The bytes that percent-encoded bytes stand for: `%` and two hexadecimal digits for one byte,
/// every other byte for itself.
pub open spec fn unescaped(bytes: Seq<u8>) -> Seq<u8>
    decreases bytes.len(),
{
    if bytes.len() == 0 {
        seq![]
    } else if bytes.len() >= 3 && bytes[0] == '%' as u8 && hex_value(bytes[1]) is Some
        && hex_value(bytes[2]) is Some {
        seq![(16 * hex_value(bytes[1])->0 + hex_value(bytes[2])->0) as u8] + unescaped(
            bytes.skip(3),
        )
    } else {
        seq![bytes[0]] + unescaped(bytes.skip(1))
    }
}

/// What a percent-encoded text stands for, if that is text.
pub open spec fn percent_decoded(text: Seq<char>) -> Option<Seq<char>> {
    let bytes = unescaped(vstd::utf8::encode_utf8(text));
    if vstd::utf8::valid_utf8(bytes) {
        Some(vstd::utf8::decode_utf8(bytes))
    } else {
        None
    }
}

/// `urlencoding::decode` turns every `%` with two hexadecimal digits behind it into a byte, leaves
/// every other byte of the UTF-8 form as it is, and fails where the bytes are no UTF-8.
#[verifier::external_body]
pub(crate) fn percent_decode(text: &str) -> (r: Option<String>)
    ensures
        crate::text::opt_text(r) == percent_decoded(text@),
{
    urlencoding::decode(text).ok().map(|s| s.into_owned())
}

/// Whether a character may stand in a header value.
pub open spec fn header_char(c: char) -> bool {
    c == '\t' || (c as u32 >= 32 && c as u32 != 127)
}

/// Whether a text may be a header value: no character of it is a control character other than the
/// tab.
pub fn is_header_value(text: &str) -> (r: bool)
    ensures
        r == forall|i: int| 0 <= i < text@.len() ==> header_char(#[trigger] text@[i]),
{
    let v = crate::text::to_chars(text);
    let mut i: usize = 0;
    while i < v.len()
        invariant
            i <= v@.len(),
            v@ == text@,
            forall|k: int| 0 <= k < i ==> header_char(#[trigger] text@[k]),
        decreases v@.len() - i,
    {
        let c = v[i];
        if c != '\t' && (c as u32 <= 31 || c as u32 == 127) {
            assert(!header_char(text@[i as int]));
            return false;
        }
        i = i + 1;
    }
    true
}

} // verus!
