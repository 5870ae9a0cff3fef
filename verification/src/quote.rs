//! The attestation quote: the envelope a worker sends it in, and the raw
//! bytes that the rest of the pipeline works on.

use vstd::prelude::*;
use crate::b64::{base64_bytes, decode_base64};
use crate::error::DecodeFailure;

verus! {

/// The record a worker answers with: the quote as base64 text.
#[derive(Clone, Debug, PartialEq, Eq)]
pub struct QuoteEnvelope {
    pub quote: String,
}

/// The raw bytes of a quote. There is always at least one.
#[derive(Debug, PartialEq, Eq)]
pub struct QuoteBytes {
    bytes: Vec<u8>,
}

impl View for QuoteBytes {
    type V = Seq<u8>;

    closed spec fn view(&self) -> Seq<u8> {
        self.bytes@
    }
}

impl QuoteBytes {
    #[verifier::type_invariant]
    spec fn holds_bytes(self) -> bool {
        self.bytes@.len() > 0
    }

    /// Takes `bytes` as a quote, unless there are none.
    pub fn new(bytes: Vec<u8>) -> (r: Option<QuoteBytes>)
        ensures
            match r {
                Some(quote) => quote@ == bytes@ && bytes@.len() > 0,
                None => bytes@.len() == 0,
            },
    {
        if bytes.len() == 0 {
            None
        } else {
            Some(QuoteBytes { bytes })
        }
    }

    /// The bytes of the quote.
    pub fn as_slice(&self) -> (r: &[u8])
        ensures
            r@ == self@,
            r@.len() > 0,
    {
        proof {
            use_type_invariant(self);
        }
        self.bytes.as_slice()
    }

    /// The number of bytes, never zero.
    pub fn len(&self) -> (r: usize)
        ensures
            r == self@.len(),
            r > 0,
    {
        proof {
            use_type_invariant(self);
        }
        self.bytes.len()
    }

    /// Gives up the quote for its bytes.
    pub fn into_bytes(self) -> (r: Vec<u8>)
        ensures
            r@ == self@,
            r@.len() > 0,
    {
        proof {
            use_type_invariant(&self);
        }
        self.bytes
    }

}

impl Clone for QuoteBytes {
    fn clone(&self) -> (r: QuoteBytes)
        ensures
            r@ == self@,
    {
        proof {
            use_type_invariant(self);
        }
        QuoteBytes { bytes: self.bytes.clone() }
    }
}

/// What an envelope with the payload `text` yields: the bytes that the text
/// stands for, which must be base64 and must not be empty.
pub open spec fn quote_of_payload(text: Seq<char>) -> Result<Seq<u8>, DecodeFailure> {
    match base64_bytes(text) {
        None => Err(DecodeFailure::Base64),
        Some(bytes) => if bytes.len() == 0 {
            Err(DecodeFailure::EmptyQuote)
        } else {
            Ok(bytes)
        },
    }
}

/// Decodes the quote that an envelope carries.
pub fn quote_from_envelope(envelope: &QuoteEnvelope) -> (r: Result<QuoteBytes, DecodeFailure>)
    ensures
        match r {
            Ok(quote) => quote_of_payload(envelope.quote@) == Ok::<Seq<u8>, DecodeFailure>(quote@),
            Err(e) => quote_of_payload(envelope.quote@) == Err::<Seq<u8>, DecodeFailure>(e),
        },
{
    match decode_base64(envelope.quote.as_str()) {
        Err(e) => Err(e),
        Ok(bytes) => match QuoteBytes::new(bytes) {
            Some(quote) => Ok(quote),
            None => Err(DecodeFailure::EmptyQuote),
        },
    }
}

} // verus!
