//! The run as a sequence of stages. Each stage waits for one event from
//! outside; `step` decides, from the stage and the event, what to do next
//! and which stage waits for its result. The order of the outside work is
//! fixed by these transitions: the quote is fetched and stored before its
//! collateral is asked for, and the collateral is stored before anything is
//! verified.

use vstd::prelude::*;
use crate::collateral::{collateral_encoding, encode_collateral};
use crate::error::{PipelineError, PipelineErrorView};
use crate::quote::QuoteBytes;
use crate::source::{
    collateral_from_reply, collateral_of_reply, quote_from_reply, quote_of_reply, CollateralReply,
    CollateralReplyView, CollateralRequest, CollateralRequestView, QuoteReply, QuoteReplyView,
    DEFAULT_TIMEOUT_SECS,
};
use crate::verify::{
    verification_of, verify_quote, AttestationDetails, DetailsView, OutcomeView,
    VerificationOutcome,
};

verus! {

/// Where to fetch from and where to store.
#[derive(Clone, Debug, PartialEq, Eq)]
pub struct PipelineConfig {
    /// Base URL of the trust-chain service.
    pub pccs_url: String,
    /// URL of the worker that hands out the quote envelope.
    pub worker_url: String,
    /// File that the quote bytes are written to.
    pub quote_path: String,
    /// File that the encoded collateral is written to.
    pub collateral_path: String,
}

/// The configuration as sequences.
pub struct ConfigView {
    pub pccs_url: Seq<char>,
    pub worker_url: Seq<char>,
    pub quote_path: Seq<char>,
    pub collateral_path: Seq<char>,
}

impl View for PipelineConfig {
    type V = ConfigView;

    open spec fn view(&self) -> ConfigView {
        ConfigView {
            pccs_url: self.pccs_url@,
            worker_url: self.worker_url@,
            quote_path: self.quote_path@,
            collateral_path: self.collateral_path@,
        }
    }
}

/// The configuration used when the operator sets nothing.
pub open spec fn default_config() -> ConfigView {
    ConfigView {
        pccs_url: "https://localhost:8081/sgx/certification/v4/"@,
        worker_url: "https://teleport.nanometer.dev/tee-attestations/quote"@,
        quote_path: "quote.bin"@,
        collateral_path: "collateral.bin"@,
    }
}

impl Default for PipelineConfig {
    fn default() -> (config: PipelineConfig)
        ensures
            config@ == default_config(),
    {
        PipelineConfig {
            pccs_url: "https://localhost:8081/sgx/certification/v4/".to_owned(),
            worker_url: "https://teleport.nanometer.dev/tee-attestations/quote".to_owned(),
            quote_path: "quote.bin".to_owned(),
            collateral_path: "collateral.bin".to_owned(),
        }
    }
}

/// What was read back for verification: both artifacts, and the seconds
/// since the epoch at the moment they were read.
#[derive(Clone, Debug, PartialEq, Eq)]
pub struct StoredArtifacts {
    pub quote: Vec<u8>,
    pub collateral: Vec<u8>,
    pub now: u64,
}

/// The stored artifacts as sequences.
pub struct ArtifactsView {
    pub quote: Seq<u8>,
    pub collateral: Seq<u8>,
    pub now: u64,
}

impl View for StoredArtifacts {
    type V = ArtifactsView;

    open spec fn view(&self) -> ArtifactsView {
        ArtifactsView { quote: self.quote@, collateral: self.collateral@, now: self.now }
    }
}

/// What the run is waiting for.
#[derive(Debug, PartialEq, Eq)]
pub enum Stage {
    /// Nothing yet: the run has not begun.
    Idle,
    /// The worker's reply.
    FetchingQuote,
    /// The quote file to be written; holds the quote for the next request.
    StoringQuote(QuoteBytes),
    /// The trust-chain service's reply.
    FetchingCollateral,
    /// The collateral file to be written.
    StoringCollateral,
    /// The artifacts and the clock to be read.
    Verifying,
    /// Nothing more: the quote was verified.
    Finished,
    /// Nothing more: the run failed.
    Failed,
}

/// A stage as sequences.
pub enum StageView {
    Idle,
    FetchingQuote,
    StoringQuote(Seq<u8>),
    FetchingCollateral,
    StoringCollateral,
    Verifying,
    Finished,
    Failed,
}

impl View for Stage {
    type V = StageView;

    open spec fn view(&self) -> StageView {
        match self {
            Stage::Idle => StageView::Idle,
            Stage::FetchingQuote => StageView::FetchingQuote,
            Stage::StoringQuote(quote) => StageView::StoringQuote(quote@),
            Stage::FetchingCollateral => StageView::FetchingCollateral,
            Stage::StoringCollateral => StageView::StoringCollateral,
            Stage::Verifying => StageView::Verifying,
            Stage::Finished => StageView::Finished,
            Stage::Failed => StageView::Failed,
        }
    }
}

/// What happened outside since the last step.
#[derive(Debug, PartialEq, Eq)]
pub enum Event {
    /// The operator started the run.
    Started,
    /// The worker was asked for the quote.
    QuoteFetched(QuoteReply),
    /// The quote file was written, or could not be.
    QuoteStored(Result<(), String>),
    /// The trust-chain service was asked for the collateral.
    CollateralFetched(CollateralReply),
    /// The collateral file was written, or could not be.
    CollateralStored(Result<(), String>),
    /// Both files and the clock were read, or a file could not be.
    ArtifactsLoaded(Result<StoredArtifacts, String>),
}

/// An event as sequences.
pub enum EventView {
    Started,
    QuoteFetched(QuoteReplyView),
    QuoteStored(Result<(), Seq<char>>),
    CollateralFetched(CollateralReplyView),
    CollateralStored(Result<(), Seq<char>>),
    ArtifactsLoaded(Result<ArtifactsView, Seq<char>>),
}

/// The result of a write as sequences.
pub open spec fn stored_view(r: Result<(), String>) -> Result<(), Seq<char>> {
    match r {
        Ok(_) => Ok(()),
        Err(m) => Err(m@),
    }
}

impl View for Event {
    type V = EventView;

    open spec fn view(&self) -> EventView {
        match self {
            Event::Started => EventView::Started,
            Event::QuoteFetched(reply) => EventView::QuoteFetched(reply@),
            Event::QuoteStored(r) => EventView::QuoteStored(stored_view(*r)),
            Event::CollateralFetched(reply) => EventView::CollateralFetched(reply@),
            Event::CollateralStored(r) => EventView::CollateralStored(stored_view(*r)),
            Event::ArtifactsLoaded(r) => EventView::ArtifactsLoaded(
                match r {
                    Ok(a) => Ok(a@),
                    Err(m) => Err(m@),
                },
            ),
        }
    }
}

/// What is to be done outside before the next step.
#[derive(Debug, PartialEq, Eq)]
pub enum Action {
    /// Ask the worker at `url` for the quote envelope.
    FetchQuote { url: String },
    /// Write `bytes` to the file at `path`, replacing what is there.
    StoreQuote { path: String, bytes: Vec<u8> },
    /// Ask the trust-chain service for the collateral of the quote.
    FetchCollateral(CollateralRequest),
    /// Write `bytes` to the file at `path`, replacing what is there.
    StoreCollateral { path: String, bytes: Vec<u8> },
    /// Read both files back, and then the clock.
    LoadArtifacts { quote_path: String, collateral_path: String },
    /// Report the quote as verified, and end.
    Finish(AttestationDetails),
    /// Report the error, and end in failure.
    Halt(PipelineError),
}

/// An action as sequences.
pub enum ActionView {
    FetchQuote { url: Seq<char> },
    StoreQuote { path: Seq<char>, bytes: Seq<u8> },
    FetchCollateral(CollateralRequestView),
    StoreCollateral { path: Seq<char>, bytes: Seq<u8> },
    LoadArtifacts { quote_path: Seq<char>, collateral_path: Seq<char> },
    Finish(DetailsView),
    Halt(PipelineErrorView),
}

impl View for Action {
    type V = ActionView;

    open spec fn view(&self) -> ActionView {
        match self {
            Action::FetchQuote { url } => ActionView::FetchQuote { url: url@ },
            Action::StoreQuote { path, bytes } => ActionView::StoreQuote {
                path: path@,
                bytes: bytes@,
            },
            Action::FetchCollateral(request) => ActionView::FetchCollateral(request@),
            Action::StoreCollateral { path, bytes } => ActionView::StoreCollateral {
                path: path@,
                bytes: bytes@,
            },
            Action::LoadArtifacts { quote_path, collateral_path } => ActionView::LoadArtifacts {
                quote_path: quote_path@,
                collateral_path: collateral_path@,
            },
            Action::Finish(details) => ActionView::Finish(details@),
            Action::Halt(e) => ActionView::Halt(e@),
        }
    }
}

/// The run stops in failure with this error.
pub open spec fn halt(e: PipelineErrorView) -> (StageView, ActionView) {
    (StageView::Failed, ActionView::Halt(e))
}

/// The step taken when the worker's reply is in: its payload is decoded
/// and the quote goes to its file.
pub open spec fn after_quote_reply(config: ConfigView, reply: QuoteReplyView) -> (
    StageView,
    ActionView,
) {
    match quote_of_reply(reply) {
        Err(e) => halt(e),
        Ok(quote) => (
            StageView::StoringQuote(quote),
            ActionView::StoreQuote { path: config.quote_path, bytes: quote },
        ),
    }
}

/// The step taken when the trust-chain service's reply is in: the record is
/// encoded and goes to its file.
pub open spec fn after_collateral_reply(config: ConfigView, reply: CollateralReplyView) -> (
    StageView,
    ActionView,
) {
    match collateral_of_reply(reply) {
        Err(e) => halt(e),
        Ok(record) => if record.valid() {
            (
                StageView::StoringCollateral,
                ActionView::StoreCollateral {
                    path: config.collateral_path,
                    bytes: collateral_encoding(record),
                },
            )
        } else {
            halt(PipelineErrorView::Unencodable)
        },
    }
}

/// The step taken when the artifacts and the clock were read: the quote is
/// verified against the collateral as of the time that was read with them.
pub open spec fn after_artifacts(loaded: Result<ArtifactsView, Seq<char>>) -> (
    StageView,
    ActionView,
) {
    match loaded {
        Err(m) => halt(PipelineErrorView::Storage(m)),
        Ok(a) => match verification_of(a.quote, a.collateral, a.now) {
            Err(d) => halt(PipelineErrorView::Decode(d)),
            Ok(OutcomeView::NotVerified(reason)) => halt(
                PipelineErrorView::VerificationFailure(reason),
            ),
            Ok(OutcomeView::Verified(details)) => (StageView::Finished, ActionView::Finish(details)),
        },
    }
}

/// The stage that follows and the action to take, for a stage and the
/// event that arrived in it. An event that the stage does not wait for
/// stops the run.
pub open spec fn next(config: ConfigView, stage: StageView, event: EventView) -> (
    StageView,
    ActionView,
) {
    match (stage, event) {
        (StageView::Idle, EventView::Started) => (
            StageView::FetchingQuote,
            ActionView::FetchQuote { url: config.worker_url },
        ),
        (StageView::FetchingQuote, EventView::QuoteFetched(reply)) => after_quote_reply(
            config,
            reply,
        ),
        (StageView::StoringQuote(quote), EventView::QuoteStored(Ok(_))) => (
            StageView::FetchingCollateral,
            ActionView::FetchCollateral(
                CollateralRequestView {
                    base_url: config.pccs_url,
                    quote,
                    timeout_secs: DEFAULT_TIMEOUT_SECS,
                },
            ),
        ),
        (StageView::StoringQuote(_), EventView::QuoteStored(Err(m))) => halt(
            PipelineErrorView::Storage(m),
        ),
        (StageView::FetchingCollateral, EventView::CollateralFetched(reply)) =>
            after_collateral_reply(config, reply),
        (StageView::StoringCollateral, EventView::CollateralStored(Ok(_))) => (
            StageView::Verifying,
            ActionView::LoadArtifacts {
                quote_path: config.quote_path,
                collateral_path: config.collateral_path,
            },
        ),
        (StageView::StoringCollateral, EventView::CollateralStored(Err(m))) => halt(
            PipelineErrorView::Storage(m),
        ),
        (StageView::Verifying, EventView::ArtifactsLoaded(loaded)) => after_artifacts(loaded),
        _ => halt(PipelineErrorView::OutOfOrder),
    }
}

fn on_quote_reply(config: &PipelineConfig, reply: QuoteReply) -> (r: (Stage, Action))
    ensures
        (r.0@, r.1@) == after_quote_reply(config@, reply@),
{
    match quote_from_reply(reply) {
        Err(e) => (Stage::Failed, Action::Halt(e)),
        Ok(quote) => {
            let bytes = quote.clone().into_bytes();
            (
                Stage::StoringQuote(quote),
                Action::StoreQuote { path: config.quote_path.clone(), bytes },
            )
        },
    }
}

fn on_collateral_reply(config: &PipelineConfig, reply: CollateralReply) -> (r: (Stage, Action))
    ensures
        (r.0@, r.1@) == after_collateral_reply(config@, reply@),
{
    match collateral_from_reply(reply) {
        Err(e) => (Stage::Failed, Action::Halt(e)),
        Ok(record) => {
            if record.is_valid() {
                let bytes = encode_collateral(&record);
                (
                    Stage::StoringCollateral,
                    Action::StoreCollateral { path: config.collateral_path.clone(), bytes },
                )
            } else {
                (Stage::Failed, Action::Halt(PipelineError::Unencodable))
            }
        },
    }
}

fn on_artifacts(loaded: Result<StoredArtifacts, String>) -> (r: (Stage, Action))
    ensures
        (r.0@, r.1@) == after_artifacts(
            match loaded {
                Ok(a) => Ok(a@),
                Err(m) => Err(m@),
            },
        ),
{
    match loaded {
        Err(m) => (Stage::Failed, Action::Halt(PipelineError::Storage(m))),
        Ok(a) => match verify_quote(a.quote.as_slice(), a.collateral.as_slice(), a.now) {
            Err(d) => (Stage::Failed, Action::Halt(PipelineError::Decode(d))),
            Ok(VerificationOutcome::NotVerified(reason)) => (
                Stage::Failed,
                Action::Halt(PipelineError::VerificationFailure(reason)),
            ),
            Ok(VerificationOutcome::Verified(details)) => (Stage::Finished, Action::Finish(details)),
        },
    }
}

/// Takes one step of the run: given the stage and the event that arrived in
/// it, returns the stage that follows and the action to take outside. A
/// request for collateral that it hands out always carries a quote of at
/// least one byte and a time to wait of more than zero.
pub fn step(config: &PipelineConfig, stage: Stage, event: Event) -> (r: (Stage, Action))
    ensures
        (r.0@, r.1@) == next(config@, stage@, event@),
        r.0@.well_formed(),
        r.1@ matches ActionView::FetchCollateral(request) ==> request.quote.len() > 0
            && request.timeout_secs > 0,
{
    match (stage, event) {
        (Stage::Idle, Event::Started) => (
            Stage::FetchingQuote,
            Action::FetchQuote { url: config.worker_url.clone() },
        ),
        (Stage::FetchingQuote, Event::QuoteFetched(reply)) => on_quote_reply(config, reply),
        (Stage::StoringQuote(quote), Event::QuoteStored(Ok(_))) => (
            Stage::FetchingCollateral,
            Action::FetchCollateral(
                CollateralRequest::with_default_timeout(config.pccs_url.clone(), quote),
            ),
        ),
        (Stage::StoringQuote(_), Event::QuoteStored(Err(m))) => (
            Stage::Failed,
            Action::Halt(PipelineError::Storage(m)),
        ),
        (Stage::FetchingCollateral, Event::CollateralFetched(reply)) => on_collateral_reply(
            config,
            reply,
        ),
        (Stage::StoringCollateral, Event::CollateralStored(Ok(_))) => (
            Stage::Verifying,
            Action::LoadArtifacts {
                quote_path: config.quote_path.clone(),
                collateral_path: config.collateral_path.clone(),
            },
        ),
        (Stage::StoringCollateral, Event::CollateralStored(Err(m))) => (
            Stage::Failed,
            Action::Halt(PipelineError::Storage(m)),
        ),
        (Stage::Verifying, Event::ArtifactsLoaded(loaded)) => on_artifacts(loaded),
        _ => (Stage::Failed, Action::Halt(PipelineError::OutOfOrder)),
    }
}

impl StageView {
    /// A stage that holds a quote holds at least one byte of it.
    pub open spec fn well_formed(self) -> bool {
        self matches StageView::StoringQuote(quote) ==> quote.len() > 0
    }

    /// The place of a stage in the fixed order of a run.
    pub open spec fn rank(self) -> nat {
        match self {
            StageView::Idle => 0,
            StageView::FetchingQuote => 1,
            StageView::StoringQuote(_) => 2,
            StageView::FetchingCollateral => 3,
            StageView::StoringCollateral => 4,
            StageView::Verifying => 5,
            StageView::Finished => 6,
            StageView::Failed => 7,
        }
    }
}

/// The stage that a run is in after the given events, from the start.
pub open spec fn stage_after(config: ConfigView, events: Seq<EventView>) -> StageView
    decreases events.len(),
{
    if events.len() == 0 {
        StageView::Idle
    } else {
        next(config, stage_after(config, events.drop_last()), events.last()).0
    }
}

/// The action that the last of the given events led to.
pub open spec fn action_after(config: ConfigView, events: Seq<EventView>) -> ActionView
    recommends
        events.len() > 0,
{
    next(config, stage_after(config, events.drop_last()), events.last()).1
}

/// One step keeps the quote whole: from a well-formed stage the next stage
/// is well-formed, a quote that goes to its file has bytes, and the
/// collateral is asked for only in the stage that holds a stored quote,
/// with that quote and with time to wait.
pub proof fn lemma_step_keeps_quote(config: ConfigView, stage: StageView, event: EventView)
    requires
        stage.well_formed(),
    ensures
        next(config, stage, event).0.well_formed(),
        next(config, stage, event).1 matches ActionView::StoreQuote { bytes, .. } ==> bytes.len()
            > 0,
        next(config, stage, event).1 matches ActionView::FetchCollateral(request) ==> {
            &&& request.well_formed()
            &&& stage == StageView::StoringQuote(request.quote)
            &&& request.base_url == config.pccs_url
        },
{
}

/// One step moves a run one stage on in the fixed order, or into failure:
/// no stage is skipped and none comes twice.
pub proof fn lemma_step_follows_order(config: ConfigView, stage: StageView, event: EventView)
    ensures
        next(config, stage, event).0.rank() == stage.rank() + 1 || next(
            config,
            stage,
            event,
        ).0 == StageView::Failed,
        next(config, stage, event).0 == StageView::Failed ==> next(
            config,
            stage,
            event,
        ).1 is Halt,
{
}

/// Every stage that a run reaches is well-formed.
pub proof fn lemma_run_well_formed(config: ConfigView, events: Seq<EventView>)
    ensures
        stage_after(config, events).well_formed(),
    decreases events.len(),
{
    if events.len() > 0 {
        lemma_run_well_formed(config, events.drop_last());
        lemma_step_keeps_quote(config, stage_after(config, events.drop_last()), events.last());
    }
}

/// In every run, whenever the collateral is asked for, the request carries a
/// quote of at least one byte and a time to wait of more than zero, and the
/// run had that quote fetched and stored before.
pub proof fn lemma_collateral_asked_with_quote(config: ConfigView, events: Seq<EventView>)
    requires
        events.len() > 0,
    ensures
        action_after(config, events) matches ActionView::FetchCollateral(request) ==> {
            &&& request.quote.len() > 0
            &&& request.timeout_secs > 0
            &&& stage_after(config, events.drop_last()) == StageView::StoringQuote(request.quote)
            &&& events.last() matches EventView::QuoteStored(written) && written is Ok
        },
{
    lemma_run_well_formed(config, events.drop_last());
    lemma_step_keeps_quote(config, stage_after(config, events.drop_last()), events.last());
}

/// Verification keeps nothing from before: however a run came to the
/// verifying stage, its last step is decided by the artifacts and the time
/// that were read for it, and by nothing else. Two runs over the same
/// artifacts at different times are two questions to the routine.
pub proof fn lemma_verification_uses_what_was_read(
    config: ConfigView,
    events: Seq<EventView>,
    loaded: ArtifactsView,
)
    requires
        stage_after(config, events) == StageView::Verifying,
    ensures
        stage_after(config, events.push(EventView::ArtifactsLoaded(Ok(loaded)))) == after_artifacts(
            Ok(loaded),
        ).0,
        action_after(config, events.push(EventView::ArtifactsLoaded(Ok(loaded))))
            == after_artifacts(Ok(loaded)).1,
        after_artifacts(Ok(loaded)) == match verification_of(
            loaded.quote,
            loaded.collateral,
            loaded.now,
        ) {
            Err(d) => halt(PipelineErrorView::Decode(d)),
            Ok(OutcomeView::NotVerified(reason)) => halt(
                PipelineErrorView::VerificationFailure(reason),
            ),
            Ok(OutcomeView::Verified(details)) => (StageView::Finished, ActionView::Finish(details)),
        },
{
    let longer = events.push(EventView::ArtifactsLoaded(Ok(loaded)));
    assert(longer.drop_last() =~= events);
}

/// A run that failed stays failed: whatever comes after, nothing is fetched
/// or written any more.
pub proof fn lemma_failure_is_final(config: ConfigView, events: Seq<EventView>, more: Seq<
    EventView,
>)
    requires
        stage_after(config, events) == StageView::Failed,
        more.len() > 0,
    ensures
        stage_after(config, events + more) == StageView::Failed,
        action_after(config, events + more) == ActionView::Halt(PipelineErrorView::OutOfOrder),
    decreases more.len(),
{
    assert((events + more).drop_last() =~= events + more.drop_last());
    assert((events + more).last() == more.last());
    if more.len() == 1 {
        assert(events + more.drop_last() =~= events);
    } else {
        lemma_failure_is_final(config, events, more.drop_last());
    }
}

} // verus!
