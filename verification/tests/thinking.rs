use gpui_ai::motion::MotionKey;
use gpui_ai::thinking::{
    disclosure_open, shows_live_preview, trace_heading, StepStatus, TailFollow, ThinkingStep, ThinkingTrace, TraceHeading,
};
use std::time::Duration;

#[test]
fn a_live_preview_follows_only_content_it_has_not_shown() {
    let mut preview = TailFollow::new();
    assert!(
        preview.observe(7, true),
        "the first content a preview shows lands on the tail"
    );
    assert!(
        !preview.observe(7, true),
        "a re-render of the same content never scrolls"
    );
    assert!(preview.observe(8, true), "appended reasoning follows");
}

#[test]
fn a_reader_who_scrolled_away_keeps_their_position() {
    let mut preview = TailFollow::new();
    assert!(preview.follow());
    assert!(!preview.observe(1, false));
    assert!(!preview.follow());
    assert!(!preview.observe(2, false), "new content does not steal the position");
    assert!(!preview.observe(2, true), "returning to the tail replays nothing");
    assert!(preview.observe(3, true));
}

#[test]
fn automatic_policy_opens_while_running_and_collapses_when_settled() {
    assert!(disclosure_open(None, true));
    assert!(!disclosure_open(None, false));
}

#[test]
fn explicit_open_overrides_the_automatic_policy() {
    assert!(!disclosure_open(Some(false), true));
    assert!(disclosure_open(Some(true), false));
}

#[test]
fn steps_are_built_fluently() {
    let step = ThinkingStep::new("Reading the schema")
        .id("schema")
        .detail("Found *three* tables")
        .status(StepStatus::Done);
    assert_eq!(step.title_text(), "Reading the schema");
    assert_eq!(step.identity(), Some("schema"));
    assert_eq!(step.detail_text(), Some("Found *three* tables"));
    assert_eq!(step.step_status(), StepStatus::Done);
    let bare = ThinkingStep::new("Comparing unit prices");
    assert_eq!(bare.identity(), None);
    assert_eq!(bare.detail_text(), None);
    assert_eq!(bare.step_status(), StepStatus::Running);
    assert_eq!(StepStatus::default(), StepStatus::Running);
}

#[test]
fn motion_keys_prefer_identity_over_position() {
    let identified = ThinkingStep::new("Anchored").id("anchored");
    assert_eq!(
        identified.motion_key("trace", "done", 4),
        MotionKey::Name("trace-step-anchored-done".to_owned())
    );
    let positional = ThinkingStep::new("Inserted 1");
    assert_eq!(
        positional.motion_key("trace", "arrive", 4),
        MotionKey::NamedInteger("trace-step-arrive".to_owned(), 4)
    );
}

#[test]
fn steps_announce_their_status_in_words() {
    assert_eq!(
        ThinkingStep::new("Reading the schema").accessibility_label(),
        "Reading the schema, in progress"
    );
    assert_eq!(
        ThinkingStep::new("Reading the schema")
            .status(StepStatus::Done)
            .accessibility_label(),
        "Reading the schema, complete"
    );
}

#[test]
fn traces_hold_prose_steps_and_duration() {
    let empty = ThinkingTrace::new();
    assert_eq!(empty.prose_text(), None);
    assert!(empty.step_list().is_empty());
    assert_eq!(empty.thought_duration(), None);
    assert_eq!(ThinkingTrace::default(), empty);

    let trace = ThinkingTrace::new()
        .prose("Considering the schema")
        .steps(vec![
            ThinkingStep::new("Reading the schema"),
            ThinkingStep::new("Comparing unit prices"),
        ])
        .thought_for(Duration::from_secs(3));
    assert_eq!(trace.prose_text(), Some("Considering the schema"));
    assert_eq!(trace.step_list().len(), 2);
    assert_eq!(trace.step_list()[1].title_text(), "Comparing unit prices");
    assert_eq!(trace.thought_duration(), Some(Duration::from_secs(3)));
}

#[test]
fn the_toggle_proposes_the_opposite_state() {
    assert_eq!(
        gpui_ai::thinking::toggle_event("trace", true),
        gpui_ai::thinking::ThinkingEvent::Toggled {
            id: "trace".to_owned(),
            open: false
        }
    );
}

#[test]
fn the_heading_follows_the_lifecycle() {
    let took = Some(Duration::from_secs(4));
    assert_eq!(trace_heading(true, false, took), TraceHeading::Thinking);
    assert_eq!(trace_heading(false, true, took), TraceHeading::Stopped);
    assert_eq!(
        trace_heading(false, false, took),
        TraceHeading::ThoughtFor(Duration::from_secs(4))
    );
    assert_eq!(trace_heading(false, false, None), TraceHeading::Thoughts);
    assert!(shows_live_preview(true, true));
    assert!(!shows_live_preview(true, false));
    assert!(!shows_live_preview(false, true));
}

#[test]
fn fixed_headings_have_their_words() {
    assert_eq!(gpui_ai::thinking::heading_words(TraceHeading::Thinking), Some("Thinking…"));
    assert_eq!(
        gpui_ai::thinking::heading_words(TraceHeading::Stopped),
        Some("Thinking stopped")
    );
    assert_eq!(gpui_ai::thinking::heading_words(TraceHeading::Thoughts), Some("Thoughts"));
    assert_eq!(
        gpui_ai::thinking::heading_words(TraceHeading::ThoughtFor(Duration::from_secs(2))),
        None
    );
}
