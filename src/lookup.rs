//! The URI that hands a text to the dictionary application.
use vstd::prelude::*;
use vstd::utf8::encode_utf8;
use crate::text::{append_chars, chars_of, string_of_chars};

verus! {

/// A byte that percent-encoding keeps as it is: an ASCII letter or digit,
/// `-`, `.`, `_` or `~` (by their ASCII codes).
pub open spec fn is_unreserved(b: u8) -> bool {
    (48 <= b && b <= 57) || (65 <= b && b <= 90) || (97 <= b && b <= 122) || b == 45 || b == 46
        || b == 95 || b == 126
}

/// The upper-case hex digit of a value below 16.
pub open spec fn hex_digit(d: u8) -> char {
    if d < 10 {
        (d + 48) as char
    } else {
        (d + 55) as char
    }
}

/// How one byte is written: itself where unreserved, else `%` and its two
/// hex digits.
pub open spec fn encoded_byte(b: u8) -> Seq<char> {
    if is_unreserved(b) {
        seq![b as char]
    } else {
        seq!['%', hex_digit(b / 16), hex_digit(b % 16)]
    }
}

/// Percent-encoding of a byte sequence.
pub open spec fn percent_encoded(bytes: Seq<u8>) -> Seq<char>
    decreases bytes.len(),
{
    if bytes.len() == 0 {
        Seq::empty()
    } else {
        encoded_byte(bytes[0]) + percent_encoded(bytes.drop_first())
    }
}

/// The scheme and path that start every lookup URI.
pub open spec fn lookup_prefix() -> Seq<char> {
    "easydict://query?text="@
}

/// The lookup URI for a text: the prefix, then the text's UTF-8 bytes,
/// percent-encoded.
pub open spec fn lookup_uri_of(text: Seq<char>) -> Seq<char> {
    lookup_prefix() + percent_encoded(encode_utf8(text))
}

/// Relies on `urlencoding::encode`: every UTF-8 byte of `s` stays where it is
/// unreserved, and becomes `%` and two upper-case hex digits otherwise.
#[verifier::external_body]
fn url_encode(s: &str) -> (r: String)
    ensures
        r@ == percent_encoded(encode_utf8(s@)),
{
    urlencoding::encode(s).into_owned()
}

/// Builds the URI that asks the dictionary application to look `text` up.
pub fn lookup_uri(text: &str) -> (r: String)
    ensures
        r@ == lookup_uri_of(text@),
{
    let mut uri = chars_of("easydict://query?text=");
    let encoded = url_encode(text);
    let tail = chars_of(encoded.as_str());
    append_chars(&mut uri, &tail);
    string_of_chars(&uri)
}

} // verus!

verus! {

proof fn lemma_hex_digit_injective(a: u8, b: u8)
    requires
        a < 16,
        b < 16,
        hex_digit(a) == hex_digit(b),
    ensures
        a == b,
{
}

proof fn lemma_encoded_byte_injective(a: u8, b: u8, ra: Seq<char>, rb: Seq<char>)
    requires
        encoded_byte(a) + ra == encoded_byte(b) + rb,
    ensures
        a == b,
        ra == rb,
{
    let ea = encoded_byte(a);
    let eb = encoded_byte(b);
    assert((ea + ra)[0] == ea[0]);
    assert((eb + rb)[0] == eb[0]);
    if is_unreserved(a) != is_unreserved(b) {
        assert(false);
    }
    if !is_unreserved(a) {
        assert((ea + ra)[1] == ea[1]);
        assert((eb + rb)[1] == eb[1]);
        assert((ea + ra)[2] == ea[2]);
        assert((eb + rb)[2] == eb[2]);
        lemma_hex_digit_injective(a / 16, b / 16);
        lemma_hex_digit_injective(a % 16, b % 16);
    }
    assert(ea == eb);
    assert(ra =~= (ea + ra).skip(ea.len() as int));
    assert(rb =~= (eb + rb).skip(eb.len() as int));
}

proof fn lemma_percent_encoded_injective(a: Seq<u8>, b: Seq<u8>)
    requires
        percent_encoded(a) == percent_encoded(b),
    ensures
        a == b,
    decreases a.len(),
{
    if a.len() == 0 || b.len() == 0 {
        if a.len() > 0 {
            assert(percent_encoded(a).len() > 0);
        }
        if b.len() > 0 {
            assert(percent_encoded(b).len() > 0);
        }
        assert(a =~= b);
    } else {
        lemma_encoded_byte_injective(
            a[0],
            b[0],
            percent_encoded(a.drop_first()),
            percent_encoded(b.drop_first()),
        );
        lemma_percent_encoded_injective(a.drop_first(), b.drop_first());
        assert(a =~= seq![a[0]] + a.drop_first());
        assert(b =~= seq![b[0]] + b.drop_first());
    }
}

/// The lookup URI loses nothing of the text: two texts with the same URI are
/// the same text, so decoding the URI's query value gives back exactly the
/// text that was encoded.
pub proof fn lemma_lookup_uri_lossless(a: Seq<char>, b: Seq<char>)
    requires
        lookup_uri_of(a) == lookup_uri_of(b),
    ensures
        a == b,
{
    let p = lookup_prefix();
    assert(percent_encoded(encode_utf8(a)) =~= lookup_uri_of(a).skip(p.len() as int));
    assert(percent_encoded(encode_utf8(b)) =~= lookup_uri_of(b).skip(p.len() as int));
    lemma_percent_encoded_injective(encode_utf8(a), encode_utf8(b));
    vstd::utf8::encode_utf8_decode_utf8(a);
    vstd::utf8::encode_utf8_decode_utf8(b);
}

} // verus!
