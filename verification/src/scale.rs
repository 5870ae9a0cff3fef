//! The SCALE wire format for byte strings and text: a compact length prefix
//! followed by the payload. Stated as functions on sequences, with the facts
//! that make a concatenation of such fields parse in only one way.

use vstd::prelude::*;
use vstd::utf8::{decode_utf8, encode_utf8, encode_utf8_decode_utf8};

verus! {

/// The largest length that the compact prefix of a field can carry.
pub open spec fn max_field_len() -> nat {
    0xffff_ffff
}

/// The compact encoding of a length: one, two or four bytes whose lowest two
/// bits tell the width and whose other bits hold the length, little-endian;
/// or, from 2^30 on, the byte 3 followed by the length in four bytes.
pub open spec fn compact_len(n: nat) -> Seq<u8>
    recommends
        n <= max_field_len(),
{
    if n < 0x40 {
        seq![(4 * n) as u8]
    } else if n < 0x4000 {
        seq![((4 * n + 1) % 256) as u8, ((4 * n + 1) / 256) as u8]
    } else if n < 0x4000_0000 {
        seq![
            ((4 * n + 2) % 256) as u8,
            ((4 * n + 2) / 0x100 % 256) as u8,
            ((4 * n + 2) / 0x1_0000 % 256) as u8,
            ((4 * n + 2) / 0x100_0000) as u8,
        ]
    } else {
        seq![
            3u8,
            (n % 256) as u8,
            (n / 0x100 % 256) as u8,
            (n / 0x1_0000 % 256) as u8,
            (n / 0x100_0000) as u8,
        ]
    }
}

/// A byte string on the wire: its length, compact, then the bytes.
pub open spec fn framed(bytes: Seq<u8>) -> Seq<u8> {
    compact_len(bytes.len()) + bytes
}

/// Text on the wire: its UTF-8 bytes, framed.
pub open spec fn framed_text(chars: Seq<char>) -> Seq<u8> {
    framed(encode_utf8(chars))
}

/// Optional text on the wire: the byte 0 for none, the byte 1 and the framed
/// text otherwise.
pub open spec fn framed_optional_text(text: Option<Seq<char>>) -> Seq<u8> {
    match text {
        None => seq![0u8],
        Some(chars) => seq![1u8] + framed_text(chars),
    }
}

/// Two splits of one sequence at the same place are the same split.
pub proof fn lemma_split_unique(x: Seq<u8>, s: Seq<u8>, y: Seq<u8>, t: Seq<u8>)
    requires
        x + s == y + t,
        x.len() == y.len(),
    ensures
        x == y,
        s == t,
{
    let whole = x + s;
    assert(x =~= whole.take(x.len() as int));
    assert(y =~= (y + t).take(y.len() as int));
    assert(s =~= whole.skip(x.len() as int));
    assert(t =~= (y + t).skip(y.len() as int));
}

/// The number of bytes of a compact length, told by its first byte.
pub open spec fn compact_width(first: u8) -> nat {
    if first % 4 == 0 {
        1
    } else if first % 4 == 1 {
        2
    } else if first % 4 == 2 {
        4
    } else {
        5
    }
}

/// The length that the bytes of a compact length carry.
pub open spec fn compact_value(c: Seq<u8>) -> nat
    recommends
        c.len() > 0,
        c.len() == compact_width(c[0]),
{
    if c[0] % 4 == 0 {
        (c[0] / 4) as nat
    } else if c[0] % 4 == 1 {
        ((c[0] as nat + 0x100 * c[1] as nat) / 4) as nat
    } else if c[0] % 4 == 2 {
        ((c[0] as nat + 0x100 * c[1] as nat + 0x1_0000 * c[2] as nat + 0x100_0000 * c[3] as nat)
            / 4) as nat
    } else {
        c[1] as nat + 0x100 * c[2] as nat + 0x1_0000 * c[3] as nat + 0x100_0000 * c[4] as nat
    }
}

/// A number below 2^32 is the sum of its four little-endian bytes.
pub proof fn lemma_four_bytes(v: nat)
    requires
        v <= 0xffff_ffff,
    ensures
        v / 0x100_0000 < 256,
        v == v % 256 + 0x100 * (v / 0x100 % 256) + 0x1_0000 * (v / 0x1_0000 % 256) + 0x100_0000
            * (v / 0x100_0000),
        (v % 256) % 4 == v % 4,
{
    let q1 = v / 0x100;
    let q2 = q1 / 0x100;
    let q3 = q2 / 0x100;
    assert(v == 0x100 * q1 + v % 256);
    assert(q1 == 0x100 * q2 + q1 % 256);
    assert(q2 == 0x100 * q3 + q2 % 256);
    assert(q2 == v / 0x1_0000);
    assert(q3 == v / 0x100_0000);
}

/// The first byte of a compact length tells how many bytes it has, and the
/// bytes tell the length.
pub proof fn lemma_compact_len_reads_back(n: nat)
    requires
        n <= max_field_len(),
    ensures
        compact_len(n).len() == compact_width(compact_len(n)[0]),
        compact_value(compact_len(n)) == n,
{
    let c = compact_len(n);
    if n < 0x40 {
        assert(c[0] as nat == 4 * n);
    } else if n < 0x4000 {
        let v = 4 * n + 1;
        lemma_four_bytes(v);
        assert(v / 0x100 < 256);
        assert(c[0] as nat == v % 256);
        assert(c[1] as nat == v / 0x100);
        assert(v == v % 256 + 0x100 * (v / 0x100));
    } else if n < 0x4000_0000 {
        let v = 4 * n + 2;
        lemma_four_bytes(v);
        assert(c[0] as nat == v % 256);
        assert(c[1] as nat == v / 0x100 % 256);
        assert(c[2] as nat == v / 0x1_0000 % 256);
        assert(c[3] as nat == v / 0x100_0000);
    } else {
        lemma_four_bytes(n);
        assert(c[0] == 3u8);
        assert(c[1] as nat == n % 256);
        assert(c[2] as nat == n / 0x100 % 256);
        assert(c[3] as nat == n / 0x1_0000 % 256);
        assert(c[4] as nat == n / 0x100_0000);
    }
}

/// A compact length followed by anything is read back in one way only.
pub proof fn lemma_compact_len_unique(n: nat, s: Seq<u8>, m: nat, t: Seq<u8>)
    requires
        n <= max_field_len(),
        m <= max_field_len(),
        compact_len(n) + s == compact_len(m) + t,
    ensures
        n == m,
        s == t,
{
    let cn = compact_len(n);
    let cm = compact_len(m);
    lemma_compact_len_reads_back(n);
    lemma_compact_len_reads_back(m);
    assert((cn + s)[0] == cn[0]);
    assert((cm + t)[0] == cm[0]);
    lemma_split_unique(cn, s, cm, t);
}

/// A framed byte string followed by anything is read back in one way only.
pub proof fn lemma_framed_unique(a: Seq<u8>, s: Seq<u8>, b: Seq<u8>, t: Seq<u8>)
    requires
        a.len() <= max_field_len(),
        b.len() <= max_field_len(),
        framed(a) + s == framed(b) + t,
    ensures
        a == b,
        s == t,
{
    assert(framed(a) + s =~= compact_len(a.len()) + (a + s));
    assert(framed(b) + t =~= compact_len(b.len()) + (b + t));
    lemma_compact_len_unique(a.len(), a + s, b.len(), b + t);
    lemma_split_unique(a, s, b, t);
}

/// Framed text followed by anything is read back in one way only.
pub proof fn lemma_framed_text_unique(a: Seq<char>, s: Seq<u8>, b: Seq<char>, t: Seq<u8>)
    requires
        encode_utf8(a).len() <= max_field_len(),
        encode_utf8(b).len() <= max_field_len(),
        framed_text(a) + s == framed_text(b) + t,
    ensures
        a == b,
        s == t,
{
    lemma_framed_unique(encode_utf8(a), s, encode_utf8(b), t);
    encode_utf8_decode_utf8(a);
    encode_utf8_decode_utf8(b);
    assert(decode_utf8(encode_utf8(a)) == a);
    assert(decode_utf8(encode_utf8(b)) == b);
}

/// Framed optional text followed by anything is read back in one way only.
pub proof fn lemma_framed_optional_text_unique(
    a: Option<Seq<char>>,
    s: Seq<u8>,
    b: Option<Seq<char>>,
    t: Seq<u8>,
)
    requires
        a matches Some(chars) ==> encode_utf8(chars).len() <= max_field_len(),
        b matches Some(chars) ==> encode_utf8(chars).len() <= max_field_len(),
        framed_optional_text(a) + s == framed_optional_text(b) + t,
    ensures
        a == b,
        s == t,
{
    let ea = framed_optional_text(a);
    let eb = framed_optional_text(b);
    assert((ea + s)[0] == ea[0]);
    assert((eb + t)[0] == eb[0]);
    match (a, b) {
        (Some(x), Some(y)) => {
            assert(ea + s =~= seq![1u8] + (framed_text(x) + s));
            assert(eb + t =~= seq![1u8] + (framed_text(y) + t));
            lemma_split_unique(seq![1u8], framed_text(x) + s, seq![1u8], framed_text(y) + t);
            lemma_framed_text_unique(x, s, y, t);
        },
        (None, None) => {
            lemma_split_unique(ea, s, eb, t);
        },
        _ => {
            assert(ea[0] != eb[0]);
        },
    }
}

} // verus!
