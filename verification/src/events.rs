//! The recognition engine's per-chunk reports and the transcription events
//! derived from them.
//!
//! After consuming one audio chunk the engine is in one of three decoding
//! states: still accumulating an utterance (`Running`), at an utterance
//! boundary (`Finalized`), or unable to process the chunk (`Failed`). The
//! loop turns each report into at most one transcription event: the current
//! partial text while running, the finalized text when it is non-empty, and
//! nothing for a failed chunk or a finalized silence.

use vstd::prelude::*;

verus! {

/// Decoding status the recognition engine reports after consuming one chunk.
#[derive(Clone, Copy, Debug, PartialEq, Eq, Structural)]
pub enum DecodingState {
    /// The engine has accumulated audio but not finalized the utterance.
    Running,
    /// The engine detected an utterance boundary and confirmed a text.
    Finalized,
    /// The most recent chunk could not be processed.
    Failed,
}

/// A finalized transcription as the engine reports it: either a single
/// confirmed text, or several candidate texts ranked by confidence,
/// first-ranked first.
#[derive(Debug)]
pub enum CompleteResult {
    Single(String),
    Multiple(Vec<String>),
}

/// Everything the engine reports for one consumed chunk: the decoding state
/// together with the text fetched for that state.
#[derive(Debug)]
pub enum EngineStep {
    /// The utterance is in progress; carries the current partial text,
    /// possibly empty.
    Running(String),
    /// An utterance boundary was detected; carries the finalized result.
    Finalized(CompleteResult),
    /// The chunk could not be processed; carries nothing.
    Failed,
}

/// An output of the transcription loop.
#[derive(Debug)]
pub enum TranscriptionEvent {
    /// Provisional text that supersedes any previously displayed partial;
    /// possibly empty.
    PartialText(String),
    /// Confirmed text for a completed utterance, appended permanently;
    /// always non-empty.
    FinalText(String),
}

/// Mathematical model of a finalized result.
pub enum SpecResult {
    Single(Seq<char>),
    Multiple(Seq<Seq<char>>),
}

/// Mathematical model of one engine report.
pub enum SpecStep {
    Running(Seq<char>),
    Finalized(SpecResult),
    Failed,
}

/// Mathematical model of a transcription event.
pub enum SpecEvent {
    Partial(Seq<char>),
    Final(Seq<char>),
}

impl View for CompleteResult {
    type V = SpecResult;

    open spec fn view(&self) -> SpecResult {
        match self {
            CompleteResult::Single(t) => SpecResult::Single(t@),
            CompleteResult::Multiple(alts) => SpecResult::Multiple(alts.deep_view()),
        }
    }
}

impl DeepView for CompleteResult {
    type V = SpecResult;

    open spec fn deep_view(&self) -> SpecResult {
        self.view()
    }
}

impl View for EngineStep {
    type V = SpecStep;

    open spec fn view(&self) -> SpecStep {
        match self {
            EngineStep::Running(p) => SpecStep::Running(p@),
            EngineStep::Finalized(r) => SpecStep::Finalized(r@),
            EngineStep::Failed => SpecStep::Failed,
        }
    }
}

impl DeepView for EngineStep {
    type V = SpecStep;

    open spec fn deep_view(&self) -> SpecStep {
        self.view()
    }
}

impl View for TranscriptionEvent {
    type V = SpecEvent;

    open spec fn view(&self) -> SpecEvent {
        match self {
            TranscriptionEvent::PartialText(t) => SpecEvent::Partial(t@),
            TranscriptionEvent::FinalText(t) => SpecEvent::Final(t@),
        }
    }
}

impl DeepView for TranscriptionEvent {
    type V = SpecEvent;

    open spec fn deep_view(&self) -> SpecEvent {
        self.view()
    }
}

/// The best-scoring text of a finalized result: the single confirmed text,
/// or the first-ranked alternative when several are reported.
pub open spec fn result_text(r: SpecResult) -> Seq<char> {
    match r {
        SpecResult::Single(t) => t,
        SpecResult::Multiple(alts) => if alts.len() > 0 {
            alts[0]
        } else {
            Seq::empty()
        },
    }
}

/// A finalized result is well formed when, if it reports ranked
/// alternatives, it reports at least one.
pub open spec fn result_wf(r: SpecResult) -> bool {
    match r {
        SpecResult::Multiple(alts) => alts.len() > 0,
        SpecResult::Single(t) => true,
    }
}

/// An engine report is well formed when any finalized result it carries is.
pub open spec fn step_wf(s: SpecStep) -> bool {
    match s {
        SpecStep::Finalized(r) => result_wf(r),
        _ => true,
    }
}

/// The event the loop emits for one engine report: the current partial text
/// while running, the finalized text when it is non-empty, and no event for
/// a failed chunk or a finalized silence.
pub open spec fn step_event(s: SpecStep) -> Option<SpecEvent> {
    match s {
        SpecStep::Running(p) => Some(SpecEvent::Partial(p)),
        SpecStep::Finalized(r) => if result_text(r).len() == 0 {
            None
        } else {
            Some(SpecEvent::Final(result_text(r)))
        },
        SpecStep::Failed => None,
    }
}

/// The decoding state a report was derived from.
pub open spec fn step_state(s: SpecStep) -> DecodingState {
    match s {
        SpecStep::Running(p) => DecodingState::Running,
        SpecStep::Finalized(r) => DecodingState::Finalized,
        SpecStep::Failed => DecodingState::Failed,
    }
}

impl CompleteResult {
    /// The best-scoring transcription: the single confirmed text, or the
    /// first-ranked alternative when the engine reports several.
    pub fn best_text(&self) -> (t: &String)
        requires
            result_wf(self@),
        ensures
            t@ == result_text(self@),
    {
        match self {
            CompleteResult::Single(t) => t,
            CompleteResult::Multiple(alts) => &alts[0],
        }
    }
}

impl EngineStep {
    /// The decoding state this report was built from.
    pub fn state(&self) -> (s: DecodingState)
        ensures
            s == step_state(self@),
    {
        match self {
            EngineStep::Running(p) => DecodingState::Running,
            EngineStep::Finalized(r) => DecodingState::Finalized,
            EngineStep::Failed => DecodingState::Failed,
        }
    }
}

impl TranscriptionEvent {
    /// Whether this event appends a permanent line (as opposed to rewriting
    /// the provisional one).
    pub fn is_final(&self) -> (b: bool)
        ensures
            b == (self@ is Final),
    {
        match self {
            TranscriptionEvent::PartialText(t) => false,
            TranscriptionEvent::FinalText(t) => true,
        }
    }

    /// The text this event carries.
    pub fn text(&self) -> (t: &String)
        ensures
            t@ == event_text(self@),
    {
        match self {
            TranscriptionEvent::PartialText(t) => t,
            TranscriptionEvent::FinalText(t) => t,
        }
    }
}

/// The text a transcription event carries.
pub open spec fn event_text(e: SpecEvent) -> Seq<char> {
    match e {
        SpecEvent::Partial(t) => t,
        SpecEvent::Final(t) => t,
    }
}

/// Silence suppression: a finalized result emits no event exactly when its
/// best text is empty, and emits that text as a final event otherwise.
pub proof fn lemma_silence_suppressed(r: SpecResult)
    ensures
        (step_event(SpecStep::Finalized(r)) is None) <==> (result_text(r).len() == 0),
        result_text(r).len() > 0 ==> step_event(SpecStep::Finalized(r)) == Some(
            SpecEvent::Final(result_text(r)),
        ),
{
}

/// First-ranked selection: when the engine reports several candidate
/// transcriptions, the text emitted on finalization is the first-ranked
/// alternative's text.
pub proof fn lemma_first_alternative(alts: Seq<Seq<char>>)
    requires
        alts.len() > 0,
    ensures
        result_text(SpecResult::Multiple(alts)) == alts[0],
        alts[0].len() > 0 ==> step_event(SpecStep::Finalized(SpecResult::Multiple(alts)))
            == Some(SpecEvent::Final(alts[0])),
{
}

} // verus!
