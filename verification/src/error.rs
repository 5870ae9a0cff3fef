//! The failures a pipeline run can end in.

use vstd::prelude::*;

verus! {

/// What was malformed when a decode step failed.
#[derive(Clone, Copy, Debug, PartialEq, Eq, Structural)]
pub enum DecodeFailure {
    /// The worker's response body was not a JSON quote envelope.
    Envelope,
    /// The envelope's payload was not canonical standard base64.
    Base64,
    /// The envelope's payload decoded to zero bytes.
    EmptyQuote,
    /// The collateral bytes were truncated or otherwise malformed.
    Collateral,
}

/// Why a run stopped short of a verified quote.
#[derive(Clone, Debug, PartialEq, Eq)]
pub enum PipelineError {
    /// The worker or the trust-chain service could not be reached, or
    /// answered with a status that is not a success. `status` is that of the
    /// last response, if any came; `message` is what the transport said.
    Transport { status: Option<u16>, message: String },
    /// Data that was received or stored is malformed.
    Decode(DecodeFailure),
    /// The trust-chain service has no collateral for the quote's platform.
    CollateralUnavailable(String),
    /// The verification routine found the quote not trustworthy now.
    VerificationFailure(String),
    /// An artifact could not be written or read back.
    Storage(String),
    /// The collateral that was fetched has a field too long for the binary
    /// form.
    Unencodable,
    /// An event arrived that the current stage does not wait for.
    OutOfOrder,
}

/// A pipeline error as sequences.
pub enum PipelineErrorView {
    Transport { status: Option<u16>, message: Seq<char> },
    Decode(DecodeFailure),
    CollateralUnavailable(Seq<char>),
    VerificationFailure(Seq<char>),
    Storage(Seq<char>),
    Unencodable,
    OutOfOrder,
}

impl View for PipelineError {
    type V = PipelineErrorView;

    open spec fn view(&self) -> PipelineErrorView {
        match self {
            PipelineError::Transport { status, message } => PipelineErrorView::Transport {
                status: *status,
                message: message@,
            },
            PipelineError::Decode(d) => PipelineErrorView::Decode(*d),
            PipelineError::CollateralUnavailable(m) => PipelineErrorView::CollateralUnavailable(m@),
            PipelineError::VerificationFailure(m) => PipelineErrorView::VerificationFailure(m@),
            PipelineError::Storage(m) => PipelineErrorView::Storage(m@),
            PipelineError::Unencodable => PipelineErrorView::Unencodable,
            PipelineError::OutOfOrder => PipelineErrorView::OutOfOrder,
        }
    }
}

} // verus!
