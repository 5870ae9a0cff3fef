//! Verification of a quote against its collateral at a given time, and what
//! the verdict means for the run.

use vstd::prelude::*;
use crate::collateral::{collateral_decoding, decode_collateral, CollateralRecord, CollateralView};
use crate::error::DecodeFailure;

verus! {

/// What a successful verification tells about the platform.
#[derive(Clone, Debug, PartialEq, Eq)]
pub struct AttestationDetails {
    /// The TCB status of the platform.
    pub status: String,
    /// The security advisories that apply to it.
    pub advisory_ids: Vec<String>,
    /// The platform's provisioning id.
    pub ppid: Vec<u8>,
}

/// The details as sequences.
pub struct DetailsView {
    pub status: Seq<char>,
    pub advisory_ids: Seq<Seq<char>>,
    pub ppid: Seq<u8>,
}

impl View for AttestationDetails {
    type V = DetailsView;

    open spec fn view(&self) -> DetailsView {
        DetailsView {
            status: self.status@,
            advisory_ids: Seq::new(self.advisory_ids@.len(), |i: int| self.advisory_ids@[i]@),
            ppid: self.ppid@,
        }
    }
}

/// How a verification ended.
#[derive(Clone, Debug, PartialEq, Eq)]
pub enum VerificationOutcome {
    /// The quote is genuine and current.
    Verified(AttestationDetails),
    /// The quote is not trustworthy now, for the reason given.
    NotVerified(String),
}

/// The outcome as sequences.
pub enum OutcomeView {
    Verified(DetailsView),
    NotVerified(Seq<char>),
}

impl View for VerificationOutcome {
    type V = OutcomeView;

    open spec fn view(&self) -> OutcomeView {
        match self {
            VerificationOutcome::Verified(details) => OutcomeView::Verified(details@),
            VerificationOutcome::NotVerified(reason) => OutcomeView::NotVerified(reason@),
        }
    }
}

/// What the verification routine answers for a quote, a collateral record
/// and a time in seconds since the epoch: the details, or its reason for
/// refusing.
pub uninterp spec fn dcap_verdict(quote: Seq<u8>, collateral: CollateralView, now: u64) -> Result<
    DetailsView,
    Seq<char>,
>;

/// The verdict as sequences.
pub open spec fn verdict_view(verdict: Result<AttestationDetails, String>) -> Result<
    DetailsView,
    Seq<char>,
> {
    match verdict {
        Ok(details) => Ok(details@),
        Err(reason) => Err(reason@),
    }
}

/// `dcap_qvl::verify::verify`: checks the quote against the collateral and
/// Intel's root certificate as of `now`. Its answer is fixed by these three
/// values; the contract gives it a name and says no more of it. The reason
/// for a refusal is the routine's error with its chain of causes.
#[verifier::external_body]
fn dcap_verify(quote: &[u8], collateral: &CollateralRecord, now: u64) -> (r: Result<
    AttestationDetails,
    String,
>)
    ensures
        verdict_view(r) == dcap_verdict(quote@, collateral@, now),
{
    let r = collateral.clone();
    let c = dcap_qvl::QuoteCollateralV3 {
        pck_crl_issuer_chain: r.pck_crl_issuer_chain, root_ca_crl: r.root_ca_crl,
        pck_crl: r.pck_crl, tcb_info_issuer_chain: r.tcb_info_issuer_chain,
        tcb_info: r.tcb_info, tcb_info_signature: r.tcb_info_signature,
        qe_identity_issuer_chain: r.qe_identity_issuer_chain, qe_identity: r.qe_identity,
        qe_identity_signature: r.qe_identity_signature,
        pck_certificate_chain: r.pck_certificate_chain,
    };
    match dcap_qvl::verify::verify(quote, &c, now) {
        Ok(v) => Ok(AttestationDetails { status: v.status, advisory_ids: v.advisory_ids, ppid: v.ppid }),
        Err(e) => Err(format!("{:#}", e)),
    }
}

/// What a verdict means: details make the quote verified; a refusal makes it
/// not verified, for the routine's own reason.
pub open spec fn outcome_of(verdict: Result<DetailsView, Seq<char>>) -> OutcomeView {
    match verdict {
        Ok(details) => OutcomeView::Verified(details),
        Err(reason) => OutcomeView::NotVerified(reason),
    }
}

/// Turns the routine's verdict into the outcome of the run, keeping the
/// details or the reason as they came.
pub fn interpret_verdict(verdict: Result<AttestationDetails, String>) -> (outcome:
    VerificationOutcome)
    ensures
        outcome@ == outcome_of(verdict_view(verdict)),
{
    match verdict {
        Ok(details) => VerificationOutcome::Verified(details),
        Err(reason) => VerificationOutcome::NotVerified(reason),
    }
}

/// The result of verifying stored artifacts at the time `now`: a decode
/// failure when the collateral bytes hold no record, else the outcome that
/// the verdict on the decoded record means.
pub open spec fn verification_of(quote: Seq<u8>, collateral: Seq<u8>, now: u64) -> Result<
    OutcomeView,
    DecodeFailure,
> {
    match collateral_decoding(collateral) {
        None => Err(DecodeFailure::Collateral),
        Some(record) => Ok(outcome_of(dcap_verdict(quote, record, now))),
    }
}

/// Verifies stored quote bytes against stored collateral bytes as of `now`,
/// the seconds since the epoch at the moment of the call.
pub fn verify_quote(quote: &[u8], collateral: &[u8], now: u64) -> (r: Result<
    VerificationOutcome,
    DecodeFailure,
>)
    ensures
        match r {
            Ok(outcome) => verification_of(quote@, collateral@, now) == Ok::<
                OutcomeView,
                DecodeFailure,
            >(outcome@),
            Err(e) => verification_of(quote@, collateral@, now) == Err::<
                OutcomeView,
                DecodeFailure,
            >(e),
        },
{
    match decode_collateral(collateral) {
        Err(e) => Err(e),
        Ok(record) => Ok(interpret_verdict(dcap_verify(quote, &record, now))),
    }
}

} // verus!
