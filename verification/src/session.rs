//! The transcription loop: the consumer that turns the engine's per-chunk
//! reports into rendered transcription events.
//!
//! Each iteration handles what one received chunk produced: the previously
//! rendered partial line is cleared, the engine's report is interpreted,
//! and the resulting event, if any, is rendered — a partial text rewrites
//! the current line, a non-empty finalized text is appended permanently, a
//! failed chunk and a finalized silence render nothing. The loop runs until
//! the channel closes (graceful end of stream) or the engine rejects a
//! chunk outright (a fatal configuration error).

use vstd::prelude::*;
use crate::display::{LineDisplay, SpecDisplay, empty_display, cleared, with_partial, with_final};
use crate::events::{
    EngineStep, SpecEvent, SpecStep, TranscriptionEvent, step_event, step_wf,
};

verus! {

/// The events one engine report contributes: one or none.
pub open spec fn opt_event_seq(e: Option<SpecEvent>) -> Seq<SpecEvent> {
    match e {
        Some(ev) => seq![ev],
        None => Seq::empty(),
    }
}

/// The events the loop emits for the report sequence `ss`, in order: each
/// report contributes its own event, if any, at its own position.
pub open spec fn events_of(ss: Seq<SpecStep>) -> Seq<SpecEvent>
    decreases ss.len(),
{
    if ss.len() == 0 {
        Seq::empty()
    } else {
        events_of(ss.drop_last()) + opt_event_seq(step_event(ss.last()))
    }
}

/// The display after an optional event is rendered on `d`.
pub open spec fn apply_event(d: SpecDisplay, e: Option<SpecEvent>) -> SpecDisplay {
    match e {
        None => d,
        Some(SpecEvent::Partial(t)) => with_partial(d, t),
        Some(SpecEvent::Final(t)) => with_final(d, t),
    }
}

/// The display after the loop handles one report on `d`: the rewritable
/// line is cleared first, then the report's event, if any, is rendered.
pub open spec fn render_step(d: SpecDisplay, s: SpecStep) -> SpecDisplay {
    apply_event(cleared(d), step_event(s))
}

/// The display after a fresh loop has handled all of `ss`.
pub open spec fn display_after(ss: Seq<SpecStep>) -> SpecDisplay
    decreases ss.len(),
{
    if ss.len() == 0 {
        empty_display()
    } else {
        render_step(display_after(ss.drop_last()), ss.last())
    }
}

/// What one loop iteration observed, before deciding.
#[derive(Debug)]
pub enum LoopEvent {
    /// A chunk arrived and the engine consumed it, reporting this step.
    Report(EngineStep),
    /// A chunk arrived but the engine rejected it outright: a fatal
    /// configuration error (such as a sample-rate mismatch fixed at
    /// construction), not retried.
    EngineRejected,
    /// The producer side is gone: end of stream.
    ChannelClosed,
}

/// What the loop does next.
#[derive(Debug)]
pub enum LoopAction {
    /// Keep looping; forward the event, if any, to the sink.
    Continue(Option<TranscriptionEvent>),
    /// Stop gracefully: the stream ended.
    Finish,
    /// Stop on a fatal recognition error.
    Fail,
}

/// The consumer's state: the display handle it renders to, together with
/// the (ghost) record of every engine report handled so far.
pub struct Transcriber {
    display: LineDisplay,
    steps: Ghost<Seq<SpecStep>>,
}

impl Transcriber {
    /// The engine reports handled so far, in arrival order.
    pub closed spec fn steps(self) -> Seq<SpecStep> {
        self.steps@
    }

    /// The state of the display this consumer renders to.
    pub closed spec fn display(self) -> SpecDisplay {
        self.display@
    }

    /// Validity: every handled report was well formed, and the display
    /// shows exactly the rendering of the handled reports.
    pub closed spec fn wf(self) -> bool {
        &&& forall|i: int| 0 <= i < self.steps@.len() ==> step_wf(#[trigger] self.steps@[i])
        &&& self.display@ == display_after(self.steps@)
    }

    /// A fresh consumer: nothing handled, nothing rendered.
    pub fn new() -> (t: Transcriber)
        ensures
            t.wf(),
            t.steps() == Seq::<SpecStep>::empty(),
            t.display() == empty_display(),
    {
        let t = Transcriber { display: LineDisplay::new(), steps: Ghost(Seq::empty()) };
        proof {
            assert(t.steps@ =~= Seq::<SpecStep>::empty());
        }
        t
    }

    /// Read access to the display handle this consumer renders to.
    pub fn display_handle(&self) -> (d: &LineDisplay)
        ensures
            d@ == self.display(),
    {
        &self.display
    }

    /// Handles one engine report: clears the previously rendered partial
    /// line, then interprets the report and renders its event, if any.
    /// Returns the event so the caller can forward it to the real sink.
    pub fn handle_step(&mut self, step: EngineStep) -> (ev: Option<TranscriptionEvent>)
        requires
            old(self).wf(),
            step_wf(step@),
        ensures
            final(self).wf(),
            final(self).steps() == old(self).steps().push(step@),
            final(self).display() == render_step(old(self).display(), step@),
            match ev {
                Some(e) => step_event(step@) == Some(e@),
                None => step_event(step@) is None,
            },
            events_of(final(self).steps()) == events_of(old(self).steps()) + opt_event_seq(
                step_event(step@),
            ),
    {
        let ghost s = step@;
        self.display.clear_current_line();
        let ev: Option<TranscriptionEvent> = match step {
            EngineStep::Running(p) => {
                let shown = p.clone();
                self.display.write_partial(shown);
                Some(TranscriptionEvent::PartialText(p))
            },
            EngineStep::Finalized(res) => {
                let t = res.best_text();
                if t.as_str().is_empty() {
                    None
                } else {
                    let line = t.clone();
                    let text = t.clone();
                    self.display.write_final(line);
                    Some(TranscriptionEvent::FinalText(text))
                }
            },
            EngineStep::Failed => None,
        };
        proof {
            self.steps@ = old(self).steps@.push(s);
            let ss0 = old(self).steps@;
            assert(ss0.push(s).drop_last() =~= ss0);
            assert(ss0.push(s).last() == s);
            assert forall|i: int| 0 <= i < self.steps@.len() implies step_wf(
                #[trigger] self.steps@[i],
            ) by {
                if i < ss0.len() {
                    assert(self.steps@[i] == ss0[i]);
                } else {
                    assert(self.steps@[i] == s);
                }
            }
        }
        ev
    }

    /// One iteration of the loop's decision: a closed channel ends the loop
    /// gracefully, a rejected chunk is fatal, and an engine report is
    /// handled as `handle_step` does.
    pub fn on_event(&mut self, ev: LoopEvent) -> (act: LoopAction)
        requires
            old(self).wf(),
            match ev {
                LoopEvent::Report(s) => step_wf(s@),
                _ => true,
            },
        ensures
            final(self).wf(),
            match ev {
                LoopEvent::Report(s) => {
                    &&& final(self).steps() == old(self).steps().push(s@)
                    &&& final(self).display() == render_step(old(self).display(), s@)
                    &&& act matches LoopAction::Continue(e) && (match e {
                        Some(x) => step_event(s@) == Some(x@),
                        None => step_event(s@) is None,
                    })
                },
                LoopEvent::EngineRejected => {
                    &&& act == LoopAction::Fail
                    &&& final(self).steps() == old(self).steps()
                    &&& final(self).display() == old(self).display()
                },
                LoopEvent::ChannelClosed => {
                    &&& act == LoopAction::Finish
                    &&& final(self).steps() == old(self).steps()
                    &&& final(self).display() == old(self).display()
                },
            },
    {
        match ev {
            LoopEvent::Report(step) => LoopAction::Continue(self.handle_step(step)),
            LoopEvent::EngineRejected => LoopAction::Fail,
            LoopEvent::ChannelClosed => LoopAction::Finish,
        }
    }
}

/// Runs a fresh consumer over a whole sequence of engine reports and
/// returns the emitted events, in order.
pub fn run_session(steps: Vec<EngineStep>) -> (events: Vec<TranscriptionEvent>)
    requires
        forall|i: int| 0 <= i < steps.deep_view().len() ==> step_wf(#[trigger] steps.deep_view()[i]),
    ensures
        events.deep_view() == events_of(steps.deep_view()),
{
    let ghost all = steps.deep_view();
    let mut t = Transcriber::new();
    let mut events: Vec<TranscriptionEvent> = Vec::new();
    let mut rest = steps;
    proof {
        assert(t.steps() + rest.deep_view() =~= all);
        assert(events.deep_view() =~= Seq::<SpecEvent>::empty());
    }
    while rest.len() > 0
        invariant
            t.wf(),
            t.steps() + rest.deep_view() == all,
            events.deep_view() == events_of(t.steps()),
            forall|i: int| 0 <= i < all.len() ==> step_wf(#[trigger] all[i]),
        decreases rest.len(),
    {
        let ghost rest0 = rest.deep_view();
        let ghost done = t.steps();
        let step = rest.remove(0);
        proof {
            assert(step@ == rest0[0]);
            assert(rest.deep_view() =~= rest0.drop_first());
            assert(all[done.len() as int] == rest0[0]);
        }
        let ghost events0 = events.deep_view();
        match t.handle_step(step) {
            Some(e) => {
                let ghost evv = e@;
                events.push(e);
                proof {
                    assert(events.deep_view() =~= events0.push(evv));
                    assert(events0 + seq![evv] =~= events0.push(evv));
                }
            },
            None => {},
        }
        proof {
            assert(t.steps() + rest.deep_view() =~= all);
        }
    }
    proof {
        assert(rest.deep_view() =~= Seq::<SpecStep>::empty());
        assert(t.steps() + rest.deep_view() =~= t.steps());
    }
    events
}

/// Emitted events preserve chunk order: the events of any prefix of the
/// report sequence are a prefix of the events of the whole sequence, so no
/// event depends on a report later than its trigger chunk, and events are
/// never reordered.
pub proof fn lemma_events_preserve_order(ss: Seq<SpecStep>, n: int)
    requires
        0 <= n <= ss.len(),
    ensures
        events_of(ss.take(n)).is_prefix_of(events_of(ss)),
    decreases ss.len(),
{
    if n == ss.len() {
        assert(ss.take(n) =~= ss);
        assert(events_of(ss) =~= events_of(ss).subrange(0, events_of(ss).len() as int));
    } else {
        lemma_events_preserve_order(ss.drop_last(), n);
        assert(ss.drop_last().take(n) =~= ss.take(n));
        let p = events_of(ss.take(n));
        let d = events_of(ss.drop_last());
        assert(p =~= d.subrange(0, p.len() as int));
        assert(p =~= events_of(ss).subrange(0, p.len() as int));
    }
}

/// The events of back-to-back report sequences are the events of the first
/// followed by the events of the second.
pub proof fn lemma_events_of_concat(a: Seq<SpecStep>, b: Seq<SpecStep>)
    ensures
        events_of(a + b) == events_of(a) + events_of(b),
    decreases b.len(),
{
    if b.len() == 0 {
        assert(a + b =~= a);
        assert(events_of(a) + events_of(b) =~= events_of(a));
    } else {
        lemma_events_of_concat(a, b.drop_last());
        assert((a + b).drop_last() =~= a + b.drop_last());
        assert((a + b).last() == b.last());
        assert(events_of(a) + events_of(b.drop_last()) + opt_event_seq(step_event(b.last()))
            =~= events_of(a) + (events_of(b.drop_last()) + opt_event_seq(
            step_event(b.last()),
        )));
        assert(events_of(b.drop_last()) + opt_event_seq(step_event(b.last())) =~= events_of(b));
    }
}

/// A failed decode is transparent: a `Failed` report anywhere in the stream
/// emits no event, and the events of the surrounding reports are exactly
/// what they would be without it — the loop resumes cleanly afterwards.
pub proof fn lemma_failed_step_transparent(pre: Seq<SpecStep>, post: Seq<SpecStep>)
    ensures
        events_of(pre + seq![SpecStep::Failed] + post) == events_of(pre + post),
{
    lemma_events_of_concat(pre, seq![SpecStep::Failed]);
    lemma_events_of_concat(pre + seq![SpecStep::Failed], post);
    lemma_events_of_concat(pre, post);
    assert(seq![SpecStep::Failed].drop_last() =~= Seq::<SpecStep>::empty());
    assert(seq![SpecStep::Failed].last() == SpecStep::Failed);
    assert(events_of(seq![SpecStep::Failed]) == events_of(Seq::<SpecStep>::empty())
        + opt_event_seq(step_event(SpecStep::Failed)));
    assert(events_of(seq![SpecStep::Failed]) =~= Seq::<SpecEvent>::empty());
    assert(events_of(pre + seq![SpecStep::Failed]) =~= events_of(pre));
    assert(events_of(pre + seq![SpecStep::Failed] + post) =~= events_of(pre) + events_of(post));
    assert(events_of(pre + post) =~= events_of(pre) + events_of(post));
}

/// The texts of the final events in `es`, in order.
pub open spec fn final_texts_of(es: Seq<SpecEvent>) -> Seq<Seq<char>>
    decreases es.len(),
{
    if es.len() == 0 {
        Seq::empty()
    } else {
        final_texts_of(es.drop_last()) + (match es.last() {
            SpecEvent::Final(t) => seq![t],
            SpecEvent::Partial(t) => Seq::empty(),
        })
    }
}

/// Finalized text is permanent: after any report sequence the display's
/// appended history is exactly the texts of the final events emitted, in
/// emission order — final events and only final events reach the history,
/// and nothing ever rewrites or drops an appended line.
pub proof fn lemma_history_is_final_texts(ss: Seq<SpecStep>)
    ensures
        display_after(ss).history == final_texts_of(events_of(ss)),
    decreases ss.len(),
{
    if ss.len() == 0 {
        assert(display_after(ss).history =~= final_texts_of(events_of(ss)));
    } else {
        lemma_history_is_final_texts(ss.drop_last());
        let a = events_of(ss.drop_last());
        match step_event(ss.last()) {
            None => {
                assert(a + opt_event_seq(step_event(ss.last())) =~= a);
            },
            Some(e) => {
                assert(a + opt_event_seq(step_event(ss.last())) =~= a.push(e));
                assert(a.push(e).drop_last() =~= a);
                assert(a.push(e).last() == e);
            },
        }
        assert(display_after(ss).history =~= final_texts_of(events_of(ss)));
    }
}

/// Every permanently appended line is non-empty: a finalized silence never
/// reaches the output history.
pub proof fn lemma_history_lines_nonempty(ss: Seq<SpecStep>, i: int)
    requires
        0 <= i < display_after(ss).history.len(),
    ensures
        display_after(ss).history[i].len() > 0,
    decreases ss.len(),
{
    if ss.len() > 0 {
        let d = display_after(ss.drop_last());
        match step_event(ss.last()) {
            Some(e) => match e {
                SpecEvent::Final(t) => {
                    if i < d.history.len() {
                        lemma_history_lines_nonempty(ss.drop_last(), i);
                    }
                },
                SpecEvent::Partial(t) => {
                    lemma_history_lines_nonempty(ss.drop_last(), i);
                },
            },
            None => {
                lemma_history_lines_nonempty(ss.drop_last(), i);
            },
        }
    }
}

/// No silent utterance is ever published: every final event in an emitted
/// sequence carries non-empty text.
pub proof fn lemma_no_empty_final(ss: Seq<SpecStep>, i: int)
    requires
        0 <= i < events_of(ss).len(),
    ensures
        events_of(ss)[i] matches SpecEvent::Final(t) ==> t.len() > 0,
    decreases ss.len(),
{
    if ss.len() > 0 {
        let d = events_of(ss.drop_last());
        if i < d.len() {
            lemma_no_empty_final(ss.drop_last(), i);
            assert(events_of(ss)[i] == d[i]);
        } else {
            assert(events_of(ss)[i] == opt_event_seq(step_event(ss.last()))[i - d.len()]);
        }
    }
}

} // verus!
