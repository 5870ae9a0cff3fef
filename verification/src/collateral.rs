//! The collateral record (certificate chains, revocation lists and TCB data
//! that a quote is checked against) and its binary form.

use vstd::prelude::*;
use vstd::utf8::encode_utf8;
use crate::error::DecodeFailure;
use crate::scale::{
    framed, framed_optional_text, framed_text, lemma_framed_optional_text_unique,
    lemma_framed_text_unique, lemma_framed_unique, max_field_len,
};

verus! {

/// The collateral for one quote, as plain values.
#[derive(Clone, Debug, PartialEq, Eq)]
pub struct CollateralRecord {
    pub pck_crl_issuer_chain: String,
    pub root_ca_crl: Vec<u8>,
    pub pck_crl: Vec<u8>,
    pub tcb_info_issuer_chain: String,
    pub tcb_info: String,
    pub tcb_info_signature: Vec<u8>,
    pub qe_identity_issuer_chain: String,
    pub qe_identity: String,
    pub qe_identity_signature: Vec<u8>,
    pub pck_certificate_chain: Option<String>,
}

/// What a collateral record holds, as sequences.
pub struct CollateralView {
    pub pck_crl_issuer_chain: Seq<char>,
    pub root_ca_crl: Seq<u8>,
    pub pck_crl: Seq<u8>,
    pub tcb_info_issuer_chain: Seq<char>,
    pub tcb_info: Seq<char>,
    pub tcb_info_signature: Seq<u8>,
    pub qe_identity_issuer_chain: Seq<char>,
    pub qe_identity: Seq<char>,
    pub qe_identity_signature: Seq<u8>,
    pub pck_certificate_chain: Option<Seq<char>>,
}

impl View for CollateralRecord {
    type V = CollateralView;

    open spec fn view(&self) -> CollateralView {
        CollateralView {
            pck_crl_issuer_chain: self.pck_crl_issuer_chain@,
            root_ca_crl: self.root_ca_crl@,
            pck_crl: self.pck_crl@,
            tcb_info_issuer_chain: self.tcb_info_issuer_chain@,
            tcb_info: self.tcb_info@,
            tcb_info_signature: self.tcb_info_signature@,
            qe_identity_issuer_chain: self.qe_identity_issuer_chain@,
            qe_identity: self.qe_identity@,
            qe_identity_signature: self.qe_identity_signature@,
            pck_certificate_chain: match self.pck_certificate_chain {
                Some(chain) => Some(chain@),
                None => None,
            },
        }
    }
}

/// Whether text fits a field: its UTF-8 form is short enough for the prefix.
pub open spec fn text_fits(chars: Seq<char>) -> bool {
    encode_utf8(chars).len() <= max_field_len()
}

impl CollateralView {
    /// A record is valid when each field is short enough for its length
    /// prefix: under 2^32 bytes.
    pub open spec fn valid(self) -> bool {
        &&& text_fits(self.pck_crl_issuer_chain)
        &&& self.root_ca_crl.len() <= max_field_len()
        &&& self.pck_crl.len() <= max_field_len()
        &&& text_fits(self.tcb_info_issuer_chain)
        &&& text_fits(self.tcb_info)
        &&& self.tcb_info_signature.len() <= max_field_len()
        &&& text_fits(self.qe_identity_issuer_chain)
        &&& text_fits(self.qe_identity)
        &&& self.qe_identity_signature.len() <= max_field_len()
        &&& (self.pck_certificate_chain matches Some(chain) ==> text_fits(chain))
    }
}

/// The binary form of a record: its ten fields in order, each framed.
pub open spec fn collateral_encoding(c: CollateralView) -> Seq<u8> {
    framed_text(c.pck_crl_issuer_chain) + (framed(c.root_ca_crl) + (framed(c.pck_crl) + (
    framed_text(c.tcb_info_issuer_chain) + (framed_text(c.tcb_info) + (framed(
        c.tcb_info_signature,
    ) + (framed_text(c.qe_identity_issuer_chain) + (framed_text(c.qe_identity) + (framed(
        c.qe_identity_signature,
    ) + framed_optional_text(c.pck_certificate_chain)))))))))
}

/// Whether `bytes` begins with the binary form of `c`.
pub open spec fn begins_with_record(bytes: Seq<u8>, c: CollateralView) -> bool {
    c.valid() && collateral_encoding(c).is_prefix_of(bytes)
}

/// Whether `bytes` begins with the binary form of some valid record.
pub open spec fn holds_record(bytes: Seq<u8>) -> bool {
    exists|c: CollateralView| #[trigger] begins_with_record(bytes, c)
}

/// The record that `bytes` begins with, if there is one. Bytes that follow
/// the record are not part of it and are not looked at.
pub open spec fn collateral_decoding(bytes: Seq<u8>) -> Option<CollateralView> {
    if holds_record(bytes) {
        Some(choose|c: CollateralView| #[trigger] begins_with_record(bytes, c))
    } else {
        None
    }
}

/// Concatenation does not depend on how it is bracketed.
pub proof fn lemma_concat_assoc(x: Seq<u8>, y: Seq<u8>, z: Seq<u8>)
    ensures
        (x + y) + z == x + (y + z),
{
    assert((x + y) + z =~= x + (y + z));
}

/// The binary form of a record, followed by anything, is read back in one
/// way only.
pub proof fn lemma_collateral_encoding_unique(
    a: CollateralView,
    s: Seq<u8>,
    b: CollateralView,
    t: Seq<u8>,
)
    requires
        a.valid(),
        b.valid(),
        collateral_encoding(a) + s == collateral_encoding(b) + t,
    ensures
        a == b,
        s == t,
{
    let a9 = framed_optional_text(a.pck_certificate_chain);
    let b9 = framed_optional_text(b.pck_certificate_chain);
    let a8 = framed(a.qe_identity_signature) + a9;
    let b8 = framed(b.qe_identity_signature) + b9;
    let a7 = framed_text(a.qe_identity) + a8;
    let b7 = framed_text(b.qe_identity) + b8;
    let a6 = framed_text(a.qe_identity_issuer_chain) + a7;
    let b6 = framed_text(b.qe_identity_issuer_chain) + b7;
    let a5 = framed(a.tcb_info_signature) + a6;
    let b5 = framed(b.tcb_info_signature) + b6;
    let a4 = framed_text(a.tcb_info) + a5;
    let b4 = framed_text(b.tcb_info) + b5;
    let a3 = framed_text(a.tcb_info_issuer_chain) + a4;
    let b3 = framed_text(b.tcb_info_issuer_chain) + b4;
    let a2 = framed(a.pck_crl) + a3;
    let b2 = framed(b.pck_crl) + b3;
    let a1 = framed(a.root_ca_crl) + a2;
    let b1 = framed(b.root_ca_crl) + b2;
    lemma_concat_assoc(framed_text(a.pck_crl_issuer_chain), a1, s);
    lemma_concat_assoc(framed_text(b.pck_crl_issuer_chain), b1, t);
    lemma_framed_text_unique(a.pck_crl_issuer_chain, a1 + s, b.pck_crl_issuer_chain, b1 + t);
    lemma_concat_assoc(framed(a.root_ca_crl), a2, s);
    lemma_concat_assoc(framed(b.root_ca_crl), b2, t);
    lemma_framed_unique(a.root_ca_crl, a2 + s, b.root_ca_crl, b2 + t);
    lemma_concat_assoc(framed(a.pck_crl), a3, s);
    lemma_concat_assoc(framed(b.pck_crl), b3, t);
    lemma_framed_unique(a.pck_crl, a3 + s, b.pck_crl, b3 + t);
    lemma_concat_assoc(framed_text(a.tcb_info_issuer_chain), a4, s);
    lemma_concat_assoc(framed_text(b.tcb_info_issuer_chain), b4, t);
    lemma_framed_text_unique(a.tcb_info_issuer_chain, a4 + s, b.tcb_info_issuer_chain, b4 + t);
    lemma_concat_assoc(framed_text(a.tcb_info), a5, s);
    lemma_concat_assoc(framed_text(b.tcb_info), b5, t);
    lemma_framed_text_unique(a.tcb_info, a5 + s, b.tcb_info, b5 + t);
    lemma_concat_assoc(framed(a.tcb_info_signature), a6, s);
    lemma_concat_assoc(framed(b.tcb_info_signature), b6, t);
    lemma_framed_unique(a.tcb_info_signature, a6 + s, b.tcb_info_signature, b6 + t);
    lemma_concat_assoc(framed_text(a.qe_identity_issuer_chain), a7, s);
    lemma_concat_assoc(framed_text(b.qe_identity_issuer_chain), b7, t);
    lemma_framed_text_unique(
        a.qe_identity_issuer_chain,
        a7 + s,
        b.qe_identity_issuer_chain,
        b7 + t,
    );
    lemma_concat_assoc(framed_text(a.qe_identity), a8, s);
    lemma_concat_assoc(framed_text(b.qe_identity), b8, t);
    lemma_framed_text_unique(a.qe_identity, a8 + s, b.qe_identity, b8 + t);
    lemma_concat_assoc(framed(a.qe_identity_signature), a9, s);
    lemma_concat_assoc(framed(b.qe_identity_signature), b9, t);
    lemma_framed_unique(a.qe_identity_signature, a9 + s, b.qe_identity_signature, b9 + t);
    lemma_framed_optional_text_unique(a.pck_certificate_chain, s, b.pck_certificate_chain, t);
}

/// A record that `bytes` begins with is the one that decoding names.
pub proof fn lemma_decoding_is_unique(bytes: Seq<u8>, c: CollateralView)
    requires
        begins_with_record(bytes, c),
    ensures
        collateral_decoding(bytes) == Some(c),
{
    assert(holds_record(bytes));
    let found = choose|v: CollateralView| #[trigger] begins_with_record(bytes, v);
    let rest_c = bytes.skip(collateral_encoding(c).len() as int);
    let rest_found = bytes.skip(collateral_encoding(found).len() as int);
    assert(collateral_encoding(c) + rest_c =~= bytes);
    assert(collateral_encoding(found) + rest_found =~= bytes);
    lemma_collateral_encoding_unique(found, rest_found, c, rest_c);
}

/// Decoding inverts encoding: the binary form of a valid record decodes to
/// that record.
pub proof fn lemma_collateral_round_trip(c: CollateralView)
    requires
        c.valid(),
    ensures
        collateral_decoding(collateral_encoding(c)) == Some(c),
{
    let e = collateral_encoding(c);
    assert(e.is_prefix_of(e));
    lemma_decoding_is_unique(e, c);
}

/// Bytes that follow a record do not change what is decoded.
pub proof fn lemma_bytes_after_record_are_not_read(c: CollateralView, rest: Seq<u8>)
    requires
        c.valid(),
    ensures
        collateral_decoding(collateral_encoding(c) + rest) == Some(c),
{
    let e = collateral_encoding(c);
    assert(e.is_prefix_of(e + rest));
    lemma_decoding_is_unique(e + rest, c);
}

/// A binary form cut short holds no record: every proper prefix of the
/// binary form of a valid record fails to decode.
pub proof fn lemma_truncated_collateral_rejected(c: CollateralView, kept: int)
    requires
        c.valid(),
        0 <= kept < collateral_encoding(c).len(),
    ensures
        collateral_decoding(collateral_encoding(c).take(kept)) is None,
{
    let e = collateral_encoding(c);
    let cut = e.take(kept);
    if holds_record(cut) {
        let found = choose|v: CollateralView| #[trigger] begins_with_record(cut, v);
        let f = collateral_encoding(found);
        assert(f + e.skip(f.len() as int) =~= e);
        assert(e + Seq::<u8>::empty() =~= e);
        lemma_collateral_encoding_unique(found, e.skip(f.len() as int), c, Seq::<u8>::empty());
    }
}

/// `parity_scale_codec::Error`: why the decoder refused its input. It is
/// passed on unread.
#[verifier::external_type_specification]
#[verifier::external_body]
pub struct ExScaleError(parity_scale_codec::Error);

/// `parity_scale_codec::Encode::encode` on `dcap_qvl::QuoteCollateralV3`,
/// whose derived encoding writes the fields in their order: text and byte
/// strings with a compact length before them, the optional text after a byte
/// that says whether it is there. It panics on a field of 2^32 bytes or more.
#[verifier::external_body]
fn scale_encode(record: &CollateralRecord) -> (bytes: Vec<u8>)
    requires
        record@.valid(),
    ensures
        bytes@ == collateral_encoding(record@),
{
    let r = record.clone();
    parity_scale_codec::Encode::encode(&dcap_qvl::QuoteCollateralV3 {
        pck_crl_issuer_chain: r.pck_crl_issuer_chain, root_ca_crl: r.root_ca_crl,
        pck_crl: r.pck_crl, tcb_info_issuer_chain: r.tcb_info_issuer_chain,
        tcb_info: r.tcb_info, tcb_info_signature: r.tcb_info_signature,
        qe_identity_issuer_chain: r.qe_identity_issuer_chain, qe_identity: r.qe_identity,
        qe_identity_signature: r.qe_identity_signature,
        pck_certificate_chain: r.pck_certificate_chain,
    })
}

/// `parity_scale_codec::Decode::decode` for `dcap_qvl::QuoteCollateralV3` on
/// a byte slice. It reads the fields in their order and stops after the last;
/// it fails where the input ends early, a length is not in its shortest
/// compact form, text is not UTF-8, or the byte before the optional text is
/// neither 0 nor 1. So it succeeds exactly on input that begins with the
/// binary form of a record, and returns that record.
#[verifier::external_body]
fn scale_decode(bytes: &[u8]) -> (r: Result<CollateralRecord, parity_scale_codec::Error>)
    ensures
        match r {
            Ok(record) => begins_with_record(bytes@, record@),
            Err(_) => !holds_record(bytes@),
        },
{
    let mut input = bytes;
    let c: dcap_qvl::QuoteCollateralV3 = parity_scale_codec::Decode::decode(&mut input)?;
    Ok(CollateralRecord {
        pck_crl_issuer_chain: c.pck_crl_issuer_chain, root_ca_crl: c.root_ca_crl,
        pck_crl: c.pck_crl, tcb_info_issuer_chain: c.tcb_info_issuer_chain,
        tcb_info: c.tcb_info, tcb_info_signature: c.tcb_info_signature,
        qe_identity_issuer_chain: c.qe_identity_issuer_chain, qe_identity: c.qe_identity,
        qe_identity_signature: c.qe_identity_signature,
        pck_certificate_chain: c.pck_certificate_chain,
    })
}

/// Whether text is short enough for a field.
fn text_is_short(text: &str) -> (r: bool)
    ensures
        r == text_fits(text@),
{
    text.as_bytes().len() <= 0xffff_ffff
}

/// Whether a byte string is short enough for a field.
fn bytes_are_short(bytes: &[u8]) -> (r: bool)
    ensures
        r == (bytes@.len() <= max_field_len()),
{
    bytes.len() <= 0xffff_ffff
}

impl CollateralRecord {
    /// Whether every field is short enough to be encoded.
    pub fn is_valid(&self) -> (r: bool)
        ensures
            r == self@.valid(),
    {
        let chain_fits = match &self.pck_certificate_chain {
            Some(chain) => text_is_short(chain.as_str()),
            None => true,
        };
        text_is_short(self.pck_crl_issuer_chain.as_str())
            && bytes_are_short(self.root_ca_crl.as_slice())
            && bytes_are_short(self.pck_crl.as_slice())
            && text_is_short(self.tcb_info_issuer_chain.as_str())
            && text_is_short(self.tcb_info.as_str())
            && bytes_are_short(self.tcb_info_signature.as_slice())
            && text_is_short(self.qe_identity_issuer_chain.as_str())
            && text_is_short(self.qe_identity.as_str())
            && bytes_are_short(self.qe_identity_signature.as_slice())
            && chain_fits
    }
}

/// Encodes a valid record into its binary form.
pub fn encode_collateral(record: &CollateralRecord) -> (bytes: Vec<u8>)
    requires
        record@.valid(),
    ensures
        bytes@ == collateral_encoding(record@),
        collateral_decoding(bytes@) == Some(record@),
{
    proof {
        lemma_collateral_round_trip(record@);
    }
    scale_encode(record)
}

/// Decodes the record that `bytes` begins with. Fails when there is none:
/// when the bytes are cut short or malformed.
pub fn decode_collateral(bytes: &[u8]) -> (r: Result<CollateralRecord, DecodeFailure>)
    ensures
        match r {
            Ok(record) => collateral_decoding(bytes@) == Some(record@) && record@.valid(),
            Err(e) => e == DecodeFailure::Collateral && collateral_decoding(bytes@) is None,
        },
{
    match scale_decode(bytes) {
        Ok(record) => {
            proof {
                lemma_decoding_is_unique(bytes@, record@);
            }
            Ok(record)
        },
        Err(_) => Err(DecodeFailure::Collateral),
    }
}

} // verus!
