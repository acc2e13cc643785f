//! Percent-encoding of a query for use as the value of a URL parameter.
//!
//! The bytes of the query's UTF-8 form are written out one by one: letters,
//! digits and `-`, `.`, `_`, `~` as they are, every other byte as `%` and
//! two upper-case hexadecimal digits.

use crate::text::push_char;
use vstd::prelude::*;
use vstd::utf8::{decode_utf8, encode_utf8, encode_utf8_decode_utf8};

verus! {

/// The bytes that stand for themselves in a URL parameter.
pub open spec fn is_unreserved(b: u8) -> bool {
    ||| 0x41 <= b <= 0x5a
    ||| 0x61 <= b <= 0x7a
    ||| 0x30 <= b <= 0x39
    ||| b == 0x2d
    ||| b == 0x2e
    ||| b == 0x5f
    ||| b == 0x7e
}

/// The upper-case hexadecimal digit of a value below sixteen.
pub open spec fn hex_digit(n: u8) -> char {
    if n < 10 {
        (0x30 + n) as char
    } else {
        (0x37 + n) as char
    }
}

/// The value of an upper-case hexadecimal digit.
pub open spec fn hex_value(c: char) -> u8 {
    if '0' <= c <= '9' {
        (c as u8 - 0x30) as u8
    } else {
        (c as u8 - 0x37) as u8
    }
}

/// The written form of one byte.
pub open spec fn escaped(b: u8) -> Seq<char> {
    if is_unreserved(b) {
        seq![b as char]
    } else {
        seq!['%', hex_digit(b / 16), hex_digit(b % 16)]
    }
}

/// The written form of a run of bytes.
pub open spec fn percent_encoded(bytes: Seq<u8>) -> Seq<char>
    decreases bytes.len(),
{
    if bytes.len() == 0 {
        Seq::empty()
    } else {
        escaped(bytes.first()) + percent_encoded(bytes.drop_first())
    }
}

/// The bytes that a written form stands for.
pub open spec fn percent_decoded(text: Seq<char>) -> Seq<u8>
    decreases text.len(),
{
    if text.len() == 0 {
        Seq::empty()
    } else if text[0] == '%' && text.len() >= 3 {
        seq![(hex_value(text[1]) * 16 + hex_value(text[2])) as u8] + percent_decoded(text.skip(3))
    } else {
        seq![text[0] as u8] + percent_decoded(text.skip(1))
    }
}

/// The written form of a query: that of its UTF-8 bytes.
pub open spec fn encoded_query(query: Seq<char>) -> Seq<char> {
    percent_encoded(encode_utf8(query))
}

/// The characters that a written form is made of: `%` and the unreserved
/// ones. None of them delimits anything in a URL.
pub open spec fn is_inert(c: char) -> bool {
    c == '%' || (c as u32 <= 0x7f && is_unreserved(c as u8))
}

/// Writing out one more byte appends its written form.
pub proof fn lemma_encoded_push(bytes: Seq<u8>, b: u8)
    ensures
        percent_encoded(bytes.push(b)) == percent_encoded(bytes) + escaped(b),
    decreases bytes.len(),
{
    if bytes.len() == 0 {
        let rest = bytes.push(b).drop_first();
        assert(rest =~= Seq::<u8>::empty());
        assert(percent_encoded(rest) =~= Seq::<char>::empty());
        assert(percent_encoded(bytes) =~= Seq::<char>::empty());
        assert(escaped(b) + percent_encoded(rest) =~= percent_encoded(bytes) + escaped(b));
    } else {
        assert(bytes.push(b).drop_first() =~= bytes.drop_first().push(b));
        lemma_encoded_push(bytes.drop_first(), b);
        assert(escaped(bytes.first()) + (percent_encoded(bytes.drop_first()) + escaped(b))
            =~= (escaped(bytes.first()) + percent_encoded(bytes.drop_first())) + escaped(b));
    }
}

/// A written form holds no character that could end the parameter, start
/// another one or break the request line: no space, `&`, `=`, `#`, `?`,
/// `/`, `+`, quote or control character, and nothing outside ASCII.
pub proof fn lemma_encoded_is_inert(bytes: Seq<u8>)
    ensures
        forall|i: int|
            0 <= i < percent_encoded(bytes).len() ==> is_inert(
                #[trigger] percent_encoded(bytes)[i],
            ),
    decreases bytes.len(),
{
    if bytes.len() > 0 {
        lemma_encoded_is_inert(bytes.drop_first());
        let head = escaped(bytes.first());
        let tail = percent_encoded(bytes.drop_first());
        lemma_escaped_is_inert(bytes.first());
        assert forall|i: int| 0 <= i < percent_encoded(bytes).len() implies is_inert(
            #[trigger] percent_encoded(bytes)[i],
        ) by {
            if i < head.len() {
                assert(percent_encoded(bytes)[i] == head[i]);
            } else {
                assert(percent_encoded(bytes)[i] == tail[i - head.len()]);
            }
        }
    }
}

/// An inert character is none of those that delimit the parts of a URL or
/// of a request line.
pub proof fn lemma_inert_is_no_delimiter(c: char)
    requires
        is_inert(c),
    ensures
        c != ' ' && c != '&' && c != '=' && c != '#' && c != '?' && c != '/' && c != '+' && c
            != ':' && c != ';' && c != '"' && c != '\'' && c != '<' && c != '>' && c != '\r' && c
            != '\n' && c != '\t',
        0x21 <= c as u32 <= 0x7e,
{
}

proof fn lemma_hex_digit(n: u8)
    requires
        n < 16,
    ensures
        is_inert(hex_digit(n)),
        hex_digit(n) != '%',
        hex_value(hex_digit(n)) == n,
{
}

proof fn lemma_escaped_is_inert(b: u8)
    ensures
        forall|i: int| 0 <= i < escaped(b).len() ==> is_inert(#[trigger] escaped(b)[i]),
{
    lemma_hex_digit(b / 16);
    lemma_hex_digit(b % 16);
}

/// Reading a written form gives back the bytes that were written: no two
/// runs of bytes share a written form.
pub proof fn lemma_decoded_encoded(bytes: Seq<u8>)
    ensures
        percent_decoded(percent_encoded(bytes)) == bytes,
    decreases bytes.len(),
{
    if bytes.len() > 0 {
        let b = bytes.first();
        let head = escaped(b);
        let tail = percent_encoded(bytes.drop_first());
        let whole = percent_encoded(bytes);
        lemma_decoded_encoded(bytes.drop_first());
        lemma_hex_digit(b / 16);
        lemma_hex_digit(b % 16);
        if is_unreserved(b) {
            assert(whole[0] == b as char);
            assert(whole.skip(1) =~= tail);
            assert(percent_decoded(whole) =~= seq![b] + percent_decoded(tail));
        } else {
            assert(whole[0] == '%');
            assert(whole[1] == hex_digit(b / 16));
            assert(whole[2] == hex_digit(b % 16));
            assert(whole.skip(3) =~= tail);
            assert((hex_value(whole[1]) * 16 + hex_value(whole[2])) as u8 == b);
            assert(percent_decoded(whole) =~= seq![b] + percent_decoded(tail));
        }
        assert(seq![b] + bytes.drop_first() =~= bytes);
    } else {
        assert(percent_decoded(percent_encoded(bytes)) =~= bytes);
    }
}

/// The written form of a query gives the query back: read as bytes, and
/// the bytes as UTF-8, it is the text that was written.
pub proof fn lemma_query_survives(query: Seq<char>)
    ensures
        decode_utf8(percent_decoded(encoded_query(query))) == query,
{
    lemma_decoded_encoded(encode_utf8(query));
    encode_utf8_decode_utf8(query);
}

fn unreserved(b: u8) -> (r: bool)
    ensures
        r == is_unreserved(b),
{
    (0x41 <= b && b <= 0x5a) || (0x61 <= b && b <= 0x7a) || (0x30 <= b && b <= 0x39) || b == 0x2d
        || b == 0x2e || b == 0x5f || b == 0x7e
}

fn hex(n: u8) -> (c: char)
    requires
        n < 16,
    ensures
        c == hex_digit(n),
{
    if n < 10 {
        (0x30 + n) as char
    } else {
        (0x37 + n) as char
    }
}

/// Writes `query` out for use as the value of a URL parameter.
pub fn encode_query(query: &str) -> (written: String)
    ensures
        written@ == encoded_query(query@),
{
    let bytes = query.as_bytes();
    let mut written = String::new();
    let mut i: usize = 0;
    while i < bytes.len()
        invariant
            i <= bytes@.len(),
            bytes@ == encode_utf8(query@),
            written@ == percent_encoded(bytes@.take(i as int)),
        decreases bytes@.len() - i,
    {
        let b: u8 = bytes[i];
        proof {
            lemma_encoded_push(bytes@.take(i as int), b);
            assert(bytes@.take(i as int).push(b) =~= bytes@.take(i + 1));
        }
        if unreserved(b) {
            push_char(&mut written, b as char);
        } else {
            push_char(&mut written, '%');
            push_char(&mut written, hex(b / 16));
            push_char(&mut written, hex(b % 16));
        }
        assert(written@ =~= percent_encoded(bytes@.take(i as int)) + escaped(b));
        i += 1;
    }
    assert(bytes@.take(i as int) =~= bytes@);
    written
}

} // verus!
