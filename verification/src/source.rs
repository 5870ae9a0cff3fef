//! What the two remote sources answered, and what their answers mean: the
//! worker that hands out the quote and the trust-chain service that hands
//! out the collateral for it.

use vstd::prelude::*;
use crate::collateral::{CollateralRecord, CollateralView};
use crate::error::{DecodeFailure, PipelineError, PipelineErrorView};
use crate::quote::{quote_from_envelope, quote_of_payload, QuoteBytes, QuoteEnvelope};

verus! {

/// The time allowed for one collateral request, in seconds, unless the
/// caller sets another.
pub const DEFAULT_TIMEOUT_SECS: u64 = 10;

/// The status that a service gives when it has nothing under the key asked
/// for.
pub const STATUS_NOT_FOUND: u16 = 404;

/// Whether an HTTP status reports success.
pub open spec fn is_success(status: u16) -> bool {
    200 <= status < 300
}

/// What came back from the worker.
#[derive(Clone, Debug, PartialEq, Eq)]
pub enum QuoteReply {
    /// No response: the request itself failed, for the reason given.
    Unreachable(String),
    /// A response with this status; the envelope if the body was one.
    Answered { status: u16, envelope: Option<QuoteEnvelope> },
}

/// The worker's reply as sequences; of the envelope, its payload.
pub enum QuoteReplyView {
    Unreachable(Seq<char>),
    Answered { status: u16, envelope: Option<Seq<char>> },
}

impl View for QuoteReply {
    type V = QuoteReplyView;

    open spec fn view(&self) -> QuoteReplyView {
        match self {
            QuoteReply::Unreachable(m) => QuoteReplyView::Unreachable(m@),
            QuoteReply::Answered { status, envelope } => QuoteReplyView::Answered {
                status: *status,
                envelope: match envelope {
                    Some(e) => Some(e.quote@),
                    None => None,
                },
            },
        }
    }
}

/// What the worker's reply means, short of decoding the payload: no response
/// is a transport failure with the reason given; a status outside 200..299
/// is a transport failure with that status; a body that is no envelope is a
/// decode failure; else there is a payload.
pub open spec fn payload_of_reply(reply: QuoteReplyView) -> Result<Seq<char>, PipelineErrorView> {
    match reply {
        QuoteReplyView::Unreachable(m) => Err(
            PipelineErrorView::Transport { status: None, message: m },
        ),
        QuoteReplyView::Answered { status, envelope } => if !is_success(status) {
            Err(PipelineErrorView::Transport { status: Some(status), message: Seq::empty() })
        } else {
            match envelope {
                None => Err(PipelineErrorView::Decode(DecodeFailure::Envelope)),
                Some(payload) => Ok(payload),
            }
        },
    }
}

/// Reads the worker's reply: the envelope, or the failure that the reply
/// amounts to.
pub fn envelope_of_reply(reply: QuoteReply) -> (r: Result<QuoteEnvelope, PipelineError>)
    ensures
        match r {
            Ok(envelope) => payload_of_reply(reply@) == Ok::<Seq<char>, PipelineErrorView>(
                envelope.quote@,
            ),
            Err(e) => payload_of_reply(reply@) == Err::<Seq<char>, PipelineErrorView>(e@),
        },
{
    match reply {
        QuoteReply::Unreachable(m) => Err(PipelineError::Transport { status: None, message: m }),
        QuoteReply::Answered { status, envelope } => {
            if status < 200 || status >= 300 {
                Err(PipelineError::Transport { status: Some(status), message: String::new() })
            } else {
                match envelope {
                    None => Err(PipelineError::Decode(DecodeFailure::Envelope)),
                    Some(e) => Ok(e),
                }
            }
        },
    }
}

/// What the worker's reply yields: the quote that its payload stands for,
/// or the failure that the reply or the payload amounts to.
pub open spec fn quote_of_reply(reply: QuoteReplyView) -> Result<Seq<u8>, PipelineErrorView> {
    match payload_of_reply(reply) {
        Err(e) => Err(e),
        Ok(payload) => match quote_of_payload(payload) {
            Err(d) => Err(PipelineErrorView::Decode(d)),
            Ok(quote) => Ok(quote),
        },
    }
}

/// Reads the quote out of the worker's reply.
pub fn quote_from_reply(reply: QuoteReply) -> (r: Result<QuoteBytes, PipelineError>)
    ensures
        match r {
            Ok(quote) => quote_of_reply(reply@) == Ok::<Seq<u8>, PipelineErrorView>(quote@),
            Err(e) => quote_of_reply(reply@) == Err::<Seq<u8>, PipelineErrorView>(e@),
        },
{
    match envelope_of_reply(reply) {
        Err(e) => Err(e),
        Ok(envelope) => match quote_from_envelope(&envelope) {
            Err(d) => Err(PipelineError::Decode(d)),
            Ok(quote) => Ok(quote),
        },
    }
}

/// What came back from the trust-chain service.
#[derive(Clone, Debug, PartialEq, Eq)]
pub enum CollateralReply {
    /// The collateral for the quote.
    Fetched(CollateralRecord),
    /// No collateral. `last_status` is the status of the last response that
    /// was received, if there was any; `message` says what went wrong.
    Failed { last_status: Option<u16>, message: String },
}

/// The service's reply as sequences.
pub enum CollateralReplyView {
    Fetched(CollateralView),
    Failed { last_status: Option<u16>, message: Seq<char> },
}

impl View for CollateralReply {
    type V = CollateralReplyView;

    open spec fn view(&self) -> CollateralReplyView {
        match self {
            CollateralReply::Fetched(record) => CollateralReplyView::Fetched(record@),
            CollateralReply::Failed { last_status, message } => CollateralReplyView::Failed {
                last_status: *last_status,
                message: message@,
            },
        }
    }
}

/// What a failed collateral request amounts to: the service has no
/// collateral for the platform when its last word was "not found"; any
/// other failure is one of transport.
pub open spec fn collateral_failure(last_status: Option<u16>, message: Seq<char>)
    -> PipelineErrorView {
    if last_status == Some(STATUS_NOT_FOUND) {
        PipelineErrorView::CollateralUnavailable(message)
    } else {
        PipelineErrorView::Transport { status: last_status, message }
    }
}

/// Names the error that a failed collateral request amounts to.
pub fn classify_collateral_failure(last_status: Option<u16>, message: String) -> (e: PipelineError)
    ensures
        e@ == collateral_failure(last_status, message@),
{
    match last_status {
        Some(status) => {
            if status == STATUS_NOT_FOUND {
                PipelineError::CollateralUnavailable(message)
            } else {
                PipelineError::Transport { status: last_status, message }
            }
        },
        None => PipelineError::Transport { status: None, message },
    }
}

/// What the service's reply yields: the record, or the error that the
/// failure amounts to.
pub open spec fn collateral_of_reply(reply: CollateralReplyView) -> Result<
    CollateralView,
    PipelineErrorView,
> {
    match reply {
        CollateralReplyView::Fetched(record) => Ok(record),
        CollateralReplyView::Failed { last_status, message } => Err(
            collateral_failure(last_status, message),
        ),
    }
}

/// Reads the collateral out of the service's reply.
pub fn collateral_from_reply(reply: CollateralReply) -> (r: Result<
    CollateralRecord,
    PipelineError,
>)
    ensures
        match r {
            Ok(record) => collateral_of_reply(reply@) == Ok::<CollateralView, PipelineErrorView>(
                record@,
            ),
            Err(e) => collateral_of_reply(reply@) == Err::<CollateralView, PipelineErrorView>(e@),
        },
{
    match reply {
        CollateralReply::Fetched(record) => Ok(record),
        CollateralReply::Failed { last_status, message } => Err(
            classify_collateral_failure(last_status, message),
        ),
    }
}

/// A request for the collateral of one quote: where to ask, the quote that
/// keys the request, and how long to wait. The quote is never empty and the
/// time allowed is never zero.
#[derive(Debug, PartialEq, Eq)]
pub struct CollateralRequest {
    base_url: String,
    quote: QuoteBytes,
    timeout_secs: u64,
}

/// A collateral request as sequences.
pub struct CollateralRequestView {
    pub base_url: Seq<char>,
    pub quote: Seq<u8>,
    pub timeout_secs: u64,
}

impl View for CollateralRequest {
    type V = CollateralRequestView;

    closed spec fn view(&self) -> CollateralRequestView {
        CollateralRequestView {
            base_url: self.base_url@,
            quote: self.quote@,
            timeout_secs: self.timeout_secs,
        }
    }
}

impl CollateralRequestView {
    /// A request can be sent when it has a quote and time to wait.
    pub open spec fn well_formed(self) -> bool {
        self.quote.len() > 0 && self.timeout_secs > 0
    }
}

impl CollateralRequest {
    #[verifier::type_invariant]
    spec fn has_time(self) -> bool {
        self.timeout_secs > 0
    }

    /// A request with the time allowed given in seconds; none if that is
    /// zero.
    pub fn new(base_url: String, quote: QuoteBytes, timeout_secs: u64) -> (r: Option<
        CollateralRequest,
    >)
        ensures
            match r {
                Some(request) => timeout_secs > 0 && request@ == (CollateralRequestView {
                    base_url: base_url@,
                    quote: quote@,
                    timeout_secs,
                }) && request@.well_formed(),
                None => timeout_secs == 0,
            },
    {
        if timeout_secs == 0 {
            None
        } else {
            let _len: usize = quote.len();
            Some(CollateralRequest { base_url, quote, timeout_secs })
        }
    }

    /// A request with the default time allowed.
    pub fn with_default_timeout(base_url: String, quote: QuoteBytes) -> (request:
        CollateralRequest)
        ensures
            request@ == (CollateralRequestView {
                base_url: base_url@,
                quote: quote@,
                timeout_secs: DEFAULT_TIMEOUT_SECS,
            }),
            request@.well_formed(),
    {
        let _len: usize = quote.len();
        CollateralRequest { base_url, quote, timeout_secs: DEFAULT_TIMEOUT_SECS }
    }

    /// The base URL of the trust-chain service.
    pub fn base_url(&self) -> (r: &str)
        ensures
            r@ == self@.base_url,
    {
        self.base_url.as_str()
    }

    /// The quote that keys the request: at least one byte.
    pub fn quote(&self) -> (r: &[u8])
        ensures
            r@ == self@.quote,
            r@.len() > 0,
    {
        self.quote.as_slice()
    }

    /// The time allowed, in seconds: more than zero.
    pub fn timeout_secs(&self) -> (r: u64)
        ensures
            r == self@.timeout_secs,
            r > 0,
    {
        proof {
            use_type_invariant(self);
        }
        self.timeout_secs
    }
}

} // verus!
