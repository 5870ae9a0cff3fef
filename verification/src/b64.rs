//! Standard base64 with canonical padding, as a mathematical function from
//! bytes to text, and the executable codec that meets it.

use vstd::prelude::*;
use crate::error::DecodeFailure;

verus! {

/// The character that stands for the 6-bit value `v` in the standard
/// alphabet: `A` to `Z`, `a` to `z`, `0` to `9`, `+` and `/`.
pub open spec fn symbol(v: int) -> char
    recommends
        0 <= v < 64,
{
    if v < 26 {
        ((65 + v) as u8) as char
    } else if v < 52 {
        ((97 + v - 26) as u8) as char
    } else if v < 62 {
        ((48 + v - 52) as u8) as char
    } else if v == 62 {
        '+'
    } else {
        '/'
    }
}

/// The padded standard base64 text of `bytes`: four symbols for each group of
/// three bytes, the last group filled up with `=`.
pub open spec fn base64_text(bytes: Seq<u8>) -> Seq<char>
    decreases bytes.len(),
{
    if bytes.len() == 0 {
        Seq::<char>::empty()
    } else if bytes.len() == 1 {
        seq![symbol(bytes[0] as int / 4), symbol((bytes[0] as int % 4) * 16), '=', '=']
    } else if bytes.len() == 2 {
        seq![
            symbol(bytes[0] as int / 4),
            symbol((bytes[0] as int % 4) * 16 + bytes[1] as int / 16),
            symbol((bytes[1] as int % 16) * 4),
            '=',
        ]
    } else {
        seq![
            symbol(bytes[0] as int / 4),
            symbol((bytes[0] as int % 4) * 16 + bytes[1] as int / 16),
            symbol((bytes[1] as int % 16) * 4 + bytes[2] as int / 64),
            symbol(bytes[2] as int % 64),
        ] + base64_text(bytes.skip(3))
    }
}

/// Whether `text` is the base64 text of some byte sequence.
pub open spec fn is_base64_text(text: Seq<char>) -> bool {
    exists|bytes: Seq<u8>| #[trigger] base64_text(bytes) == text
}

/// The bytes that `text` stands for, if it is base64 text.
pub open spec fn base64_bytes(text: Seq<char>) -> Option<Seq<u8>> {
    if is_base64_text(text) {
        Some(choose|bytes: Seq<u8>| #[trigger] base64_text(bytes) == text)
    } else {
        None
    }
}

/// `base64::DecodeError`: why the engine refused a text. It is passed on
/// unread.
#[verifier::external_type_specification]
#[verifier::external_body]
pub struct ExBase64DecodeError(base64::DecodeError);

/// `base64::Engine::decode` on the `STANDARD` engine, which reads the text
/// byte by byte. That engine demands canonical padding and rejects stray
/// trailing bits and every byte outside the alphabet, so it accepts exactly
/// the texts that encoding produces, and returns the bytes that were encoded.
#[verifier::external_body]
fn standard_decode(text: &str) -> (r: Result<Vec<u8>, base64::DecodeError>)
    ensures
        match r {
            Ok(bytes) => base64_text(bytes@) == text@,
            Err(_) => !is_base64_text(text@),
        },
{
    base64::Engine::decode(&base64::engine::general_purpose::STANDARD, text)
}

/// Decodes standard base64 text into the bytes it stands for. Fails on text
/// that is not the padded base64 text of any byte sequence.
pub fn decode_base64(text: &str) -> (r: Result<Vec<u8>, DecodeFailure>)
    ensures
        match r {
            Ok(bytes) => base64_bytes(text@) == Some(bytes@) && base64_text(bytes@) == text@,
            Err(e) => e == DecodeFailure::Base64 && base64_bytes(text@) is None,
        },
{
    match standard_decode(text) {
        Ok(bytes) => {
            proof {
                lemma_base64_bytes_of_text(bytes@, text@);
            }
            Ok(bytes)
        },
        Err(_) => Err(DecodeFailure::Base64),
    }
}

/// `base64::Engine::encode` on the `STANDARD` engine: the padded text of the
/// standard alphabet.
#[verifier::external_body]
fn standard_encode(bytes: &[u8]) -> (text: String)
    ensures
        text@ == base64_text(bytes@),
{
    base64::Engine::encode(&base64::engine::general_purpose::STANDARD, bytes)
}

/// Encodes bytes as padded standard base64 text, which decodes to the same
/// bytes again.
pub fn encode_base64(bytes: &[u8]) -> (text: String)
    ensures
        text@ == base64_text(bytes@),
        base64_bytes(text@) == Some(bytes@),
{
    proof {
        lemma_base64_round_trip(bytes@);
    }
    standard_encode(bytes)
}

/// A symbol is never the padding character, and tells its 6-bit value.
pub proof fn lemma_symbol_injective(a: int, b: int)
    requires
        0 <= a < 64,
        0 <= b < 64,
    ensures
        symbol(a) != '=',
        symbol(a) == symbol(b) ==> a == b,
{
}

/// The text is four characters for every started group of three bytes.
pub proof fn lemma_base64_text_len(bytes: Seq<u8>)
    ensures
        base64_text(bytes).len() == 4 * ((bytes.len() + 2) / 3),
    decreases bytes.len(),
{
    if bytes.len() >= 3 {
        lemma_base64_text_len(bytes.skip(3));
    }
}

/// Two byte sequences with the same base64 text are the same sequence.
pub proof fn lemma_base64_text_injective(a: Seq<u8>, b: Seq<u8>)
    requires
        base64_text(a) == base64_text(b),
    ensures
        a == b,
    decreases a.len(),
{
    lemma_base64_text_len(a);
    lemma_base64_text_len(b);
    let ta = base64_text(a);
    let tb = base64_text(b);
    if a.len() == 0 {
        assert(b.len() == 0);
        assert(a =~= b);
    } else {
        assert(b.len() > 0);
        let a0 = a[0] as int;
        let b0 = b[0] as int;
        let a1 = if a.len() > 1 { a[1] as int } else { 0 };
        let b1 = if b.len() > 1 { b[1] as int } else { 0 };
        let a2 = if a.len() > 2 { a[2] as int } else { 0 };
        let b2 = if b.len() > 2 { b[2] as int } else { 0 };
        lemma_symbol_injective(a0 / 4, b0 / 4);
        lemma_symbol_injective((a0 % 4) * 16 + a1 / 16, (b0 % 4) * 16 + b1 / 16);
        lemma_symbol_injective((a1 % 16) * 4 + a2 / 64, (b1 % 16) * 4 + b2 / 64);
        lemma_symbol_injective(a2 % 64, b2 % 64);
        assert(ta[0] == symbol(a0 / 4));
        assert(tb[0] == symbol(b0 / 4));
        assert(ta[1] == symbol((a0 % 4) * 16 + a1 / 16));
        assert(tb[1] == symbol((b0 % 4) * 16 + b1 / 16));
        assert(ta[2] == (if a.len() > 1 { symbol((a1 % 16) * 4 + a2 / 64) } else { '=' }));
        assert(tb[2] == (if b.len() > 1 { symbol((b1 % 16) * 4 + b2 / 64) } else { '=' }));
        assert(ta[3] == (if a.len() > 2 { symbol(a2 % 64) } else { '=' }));
        assert(tb[3] == (if b.len() > 2 { symbol(b2 % 64) } else { '=' }));
        assert(a0 == b0 && a1 == b1 && a2 == b2);
        if a.len() > 2 {
            assert(ta.skip(4) =~= base64_text(a.skip(3)));
            assert(tb.skip(4) =~= base64_text(b.skip(3)));
            lemma_base64_text_injective(a.skip(3), b.skip(3));
            assert(a =~= a.take(3) + a.skip(3));
            assert(b =~= b.take(3) + b.skip(3));
            assert(a.take(3) =~= b.take(3));
        } else {
            assert(a =~= b);
        }
    }
}

/// Decoding inverts encoding: the bytes that the text of `bytes` stands for
/// are `bytes` again.
pub proof fn lemma_base64_round_trip(bytes: Seq<u8>)
    ensures
        is_base64_text(base64_text(bytes)),
        base64_bytes(base64_text(bytes)) == Some(bytes),
{
    let text = base64_text(bytes);
    assert(is_base64_text(text));
    let found = choose|b: Seq<u8>| #[trigger] base64_text(b) == text;
    lemma_base64_text_injective(found, bytes);
}

/// Text that decodes stands for exactly the bytes that decoding gave.
pub proof fn lemma_base64_bytes_of_text(bytes: Seq<u8>, text: Seq<char>)
    requires
        base64_text(bytes) == text,
    ensures
        base64_bytes(text) == Some(bytes),
{
    lemma_base64_round_trip(bytes);
}

} // verus!
