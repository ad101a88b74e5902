use transcribe::events::{CompleteResult, DecodingState, EngineStep, TranscriptionEvent};
use transcribe::session::{run_session, LoopAction, LoopEvent, Transcriber};

fn running(text: &str) -> EngineStep {
    EngineStep::Running(text.to_string())
}

fn finalized_single(text: &str) -> EngineStep {
    EngineStep::Finalized(CompleteResult::Single(text.to_string()))
}

fn finalized_multiple(texts: &[&str]) -> EngineStep {
    EngineStep::Finalized(CompleteResult::Multiple(
        texts.iter().map(|t| t.to_string()).collect(),
    ))
}

fn partial_texts(events: &[TranscriptionEvent]) -> Vec<String> {
    events
        .iter()
        .filter_map(|e| match e {
            TranscriptionEvent::PartialText(t) => Some(t.clone()),
            TranscriptionEvent::FinalText(_) => None,
        })
        .collect()
}

fn final_texts(events: &[TranscriptionEvent]) -> Vec<String> {
    events
        .iter()
        .filter_map(|e| match e {
            TranscriptionEvent::FinalText(t) => Some(t.clone()),
            TranscriptionEvent::PartialText(_) => None,
        })
        .collect()
}

/// Length of the longest common prefix of `a` and `b`.
fn common_prefix_len(a: &str, b: &str) -> usize {
    a.chars().zip(b.chars()).take_while(|(x, y)| x == y).count()
}

#[test]
fn running_step_emits_the_partial_text() {
    let mut t = Transcriber::new();
    let ev = t.handle_step(running("hel"));
    assert!(matches!(ev, Some(TranscriptionEvent::PartialText(p)) if p == "hel"));
}

#[test]
fn empty_partial_text_is_still_emitted() {
    let mut t = Transcriber::new();
    let ev = t.handle_step(running(""));
    assert!(matches!(ev, Some(TranscriptionEvent::PartialText(p)) if p.is_empty()));
}

#[test]
fn empty_finalized_text_is_suppressed() {
    // Silence suppression: a finalized silence emits no event at all.
    let mut t = Transcriber::new();
    assert!(t.handle_step(finalized_single("")).is_none());
    assert!(t.handle_step(finalized_multiple(&[""])).is_none());
}

#[test]
fn finalized_single_emits_its_text() {
    let mut t = Transcriber::new();
    let ev = t.handle_step(finalized_single("hello world"));
    assert!(matches!(ev, Some(TranscriptionEvent::FinalText(x)) if x == "hello world"));
}

#[test]
fn multiple_alternatives_emit_the_first_ranked() {
    // The engine ranks candidates by confidence, best first: the emitted
    // final text is the first-ranked alternative's text.
    let mut t = Transcriber::new();
    let ev = t.handle_step(finalized_multiple(&["hello world", "hello word", "yellow world"]));
    assert!(matches!(ev, Some(TranscriptionEvent::FinalText(x)) if x == "hello world"));
}

#[test]
fn failed_step_emits_nothing_and_loop_resumes() {
    // Robustness: a failed decode mid-stream emits no event, loses no
    // state, and the next reports are handled normally.
    let mut t = Transcriber::new();
    assert!(matches!(
        t.handle_step(running("he")),
        Some(TranscriptionEvent::PartialText(p)) if p == "he"
    ));
    assert!(t.handle_step(EngineStep::Failed).is_none());
    assert!(matches!(
        t.handle_step(running("hello")),
        Some(TranscriptionEvent::PartialText(p)) if p == "hello"
    ));
    assert!(matches!(
        t.handle_step(finalized_single("hello")),
        Some(TranscriptionEvent::FinalText(x)) if x == "hello"
    ));
}

#[test]
fn failed_step_leaves_the_event_stream_unchanged() {
    let with_failure = run_session(vec![
        running("he"),
        EngineStep::Failed,
        running("hello"),
        finalized_single("hello"),
    ]);
    let without_failure = run_session(vec![
        running("he"),
        running("hello"),
        finalized_single("hello"),
    ]);
    assert_eq!(partial_texts(&with_failure), partial_texts(&without_failure));
    assert_eq!(final_texts(&with_failure), final_texts(&without_failure));
    assert_eq!(with_failure.len(), without_failure.len());
}

#[test]
fn events_come_out_in_chunk_order() {
    let events = run_session(vec![
        running("a"),
        running("ab"),
        finalized_single("ab"),
        running("c"),
    ]);
    assert_eq!(events.len(), 4);
    assert!(matches!(&events[0], TranscriptionEvent::PartialText(p) if p == "a"));
    assert!(matches!(&events[1], TranscriptionEvent::PartialText(p) if p == "ab"));
    assert!(matches!(&events[2], TranscriptionEvent::FinalText(x) if x == "ab"));
    assert!(matches!(&events[3], TranscriptionEvent::PartialText(p) if p == "c"));
}

#[test]
fn end_to_end_silence_speech_silence() {
    // One second of silence, the utterance "hello world", one second of
    // silence: no final event during silence, partial texts that approach
    // "hello world" monotonically, and exactly one final event equal to
    // "hello world".
    let mut steps = Vec::new();
    for _ in 0..4 {
        steps.push(running(""));
    }
    steps.push(finalized_single(""));
    let silence_events = run_session(vec![
        running(""),
        running(""),
        running(""),
        running(""),
        finalized_single(""),
    ]);
    assert!(final_texts(&silence_events).is_empty());

    steps.push(running("he"));
    steps.push(running("hello"));
    steps.push(running("hello wor"));
    steps.push(finalized_single("hello world"));
    for _ in 0..4 {
        steps.push(running(""));
    }
    steps.push(finalized_single(""));

    let events = run_session(steps);
    let finals = final_texts(&events);
    assert_eq!(finals, vec!["hello world".to_string()]);

    // While the utterance was running, the partial texts' similarity to the
    // finalized text never decreased.
    let partials = partial_texts(&events);
    let speech: Vec<&String> = partials.iter().filter(|p| !p.is_empty()).collect();
    assert!(!speech.is_empty());
    let mut last_similarity: usize = 0;
    for p in speech {
        let similarity = common_prefix_len(p, "hello world");
        assert!(similarity >= last_similarity);
        last_similarity = similarity;
    }
}

#[test]
fn history_holds_exactly_the_finalized_texts() {
    // Finalized text is permanent: the appended history is exactly the
    // final events' texts, in order, and silences never reach it.
    let mut t = Transcriber::new();
    t.handle_step(running("he"));
    t.handle_step(finalized_single("hello"));
    t.handle_step(finalized_single(""));
    t.handle_step(EngineStep::Failed);
    t.handle_step(running("wor"));
    t.handle_step(finalized_multiple(&["world", "whirled"]));
    let d = t.display_handle();
    assert_eq!(d.line_count(), 2);
    assert_eq!(d.line(0).as_str(), "hello");
    assert_eq!(d.line(1).as_str(), "world");
    assert!(d.current_line().is_none());
}

#[test]
fn display_shows_the_last_partial_while_running() {
    let mut t = Transcriber::new();
    t.handle_step(running("he"));
    t.handle_step(running("hello"));
    assert_eq!(t.display_handle().current_line().as_deref(), Some("hello"));
    t.handle_step(EngineStep::Failed);
    // A failed chunk clears the stale partial and renders nothing new.
    assert!(t.display_handle().current_line().is_none());
}

#[test]
fn channel_closed_finishes_the_loop() {
    let mut t = Transcriber::new();
    assert!(matches!(t.on_event(LoopEvent::ChannelClosed), LoopAction::Finish));
}

#[test]
fn rejected_chunk_fails_the_loop() {
    let mut t = Transcriber::new();
    assert!(matches!(t.on_event(LoopEvent::EngineRejected), LoopAction::Fail));
}

#[test]
fn report_continues_the_loop_with_its_event() {
    let mut t = Transcriber::new();
    let act = t.on_event(LoopEvent::Report(running("hi")));
    assert!(matches!(
        act,
        LoopAction::Continue(Some(TranscriptionEvent::PartialText(p))) if p == "hi"
    ));
    let act = t.on_event(LoopEvent::Report(EngineStep::Failed));
    assert!(matches!(act, LoopAction::Continue(None)));
}

#[test]
fn step_reports_its_decoding_state() {
    assert_eq!(running("x").state(), DecodingState::Running);
    assert_eq!(finalized_single("x").state(), DecodingState::Finalized);
    assert_eq!(EngineStep::Failed.state(), DecodingState::Failed);
}

#[test]
fn best_text_picks_single_or_first_ranked() {
    let single = CompleteResult::Single("one".to_string());
    assert_eq!(single.best_text().as_str(), "one");
    let multiple =
        CompleteResult::Multiple(vec!["first".to_string(), "second".to_string()]);
    assert_eq!(multiple.best_text().as_str(), "first");
}

#[test]
fn event_accessors_expose_kind_and_text() {
    let p = TranscriptionEvent::PartialText("draft".to_string());
    let f = TranscriptionEvent::FinalText("done".to_string());
    assert!(!p.is_final());
    assert!(f.is_final());
    assert_eq!(p.text().as_str(), "draft");
    assert_eq!(f.text().as_str(), "done");
}
