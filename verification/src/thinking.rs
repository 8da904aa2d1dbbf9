//! The content model of progressive reasoning traces, and the decisions the
//! trace's disclosure makes: whether it is open, which key a step's motion is
//! stable under, and when the live preview lands on the newest reasoning.

use vstd::prelude::*;
use vstd::string::*;
use std::time::Duration;
use crate::motion::{MotionKey, MotionKeyModel};

verus! {

/// Status of one step inside a [`ThinkingTrace`].
#[derive(Debug, Clone, Copy, PartialEq, Eq, Hash, Structural)]
pub enum StepStatus {
    /// The step is in progress; it shows a spinner.
    Running,
    /// The step completed.
    Done,
}

impl Default for StepStatus {
    fn default() -> (r: Self)
        ensures
            r == StepStatus::Running,
    {
        StepStatus::Running
    }
}

/// What a step holds: its optional identity, its title, optional detail,
/// and its status.
pub struct StepModel {
    pub id: Option<Seq<char>>,
    pub title: Seq<char>,
    pub detail: Option<Seq<char>>,
    pub status: StepStatus,
}

/// One step of a reasoning trace: a title plus optional detail.
#[derive(Debug, Clone, PartialEq, Eq)]
pub struct ThinkingStep {
    id: Option<String>,
    title: String,
    detail: Option<String>,
    status: StepStatus,
}

/// The text an optional string holds.
pub open spec fn opt_text(s: Option<String>) -> Option<Seq<char>> {
    match s {
        Some(t) => Some(t@),
        None => None,
    }
}

impl View for ThinkingStep {
    type V = StepModel;

    closed spec fn view(&self) -> StepModel {
        StepModel {
            id: opt_text(self.id),
            title: self.title@,
            detail: opt_text(self.detail),
            status: self.status,
        }
    }
}

/// The motion key of step `step` at position `ix` of trace `trace` on
/// `channel`: `{trace}-step-{id}-{channel}` where the step declares an
/// identity, else `{trace}-step-{channel}` paired with the position.
pub open spec fn motion_key_of(step: StepModel, trace: Seq<char>, channel: Seq<char>, ix: u64)
    -> MotionKeyModel
{
    match step.id {
        Some(id) => MotionKeyModel::Name(
            trace + seq!['-', 's', 't', 'e', 'p', '-'] + id + seq!['-'] + channel,
        ),
        None => MotionKeyModel::NamedInteger(
            trace + seq!['-', 's', 't', 'e', 'p', '-'] + channel,
            ix,
        ),
    }
}

/// A step with a declared identity keeps its motion key wherever it moves:
/// the key does not depend on its position, so insertion above it replays
/// nothing. A step without one is keyed by its position.
pub proof fn lemma_identified_keys_ignore_position(
    step: StepModel,
    trace: Seq<char>,
    channel: Seq<char>,
    i: u64,
    j: u64,
)
    ensures
        step.id is Some ==> motion_key_of(step, trace, channel, i) == motion_key_of(
            step,
            trace,
            channel,
            j,
        ),
        step.id is None && i != j ==> motion_key_of(step, trace, channel, i) != motion_key_of(
            step,
            trace,
            channel,
            j,
        ),
{
}

/// The words a status is announced by.
pub open spec fn status_words(status: StepStatus) -> Seq<char> {
    match status {
        StepStatus::Running => seq!['i', 'n', ' ', 'p', 'r', 'o', 'g', 'r', 'e', 's', 's'],
        StepStatus::Done => seq!['c', 'o', 'm', 'p', 'l', 'e', 't', 'e'],
    }
}

/// `a` followed by `b`, as an owned string.
fn concat(a: &str, b: &str) -> (r: String)
    ensures
        r@ == a@ + b@,
{
    let mut s = a.to_owned();
    s.append(b);
    s
}

impl ThinkingStep {
    /// Creates a running step with a short title, no identity and no
    /// detail.
    pub fn new(title: &str) -> (r: Self)
        ensures
            r@ == (StepModel { id: None, title: title@, detail: None, status: StepStatus::Running }),
    {
        ThinkingStep { id: None, title: title.to_owned(), detail: None, status: StepStatus::Running }
    }

    /// Names the step's stable identity.
    ///
    /// Motion is keyed by this identity, so a step keeps its completion
    /// acknowledgment and its arrival across insertion and reordering.
    /// Without one the step falls back to its position, which is stable only
    /// while nothing is inserted above it.
    pub fn id(self, id: &str) -> (r: Self)
        ensures
            r@ == (StepModel { id: Some(id@), ..self@ }),
    {
        ThinkingStep { id: Some(id.to_owned()), ..self }
    }

    /// Adds detail rendered as muted markdown under the title.
    pub fn detail(self, detail: &str) -> (r: Self)
        ensures
            r@ == (StepModel { detail: Some(detail@), ..self@ }),
    {
        ThinkingStep { detail: Some(detail.to_owned()), ..self }
    }

    /// Sets the step status.
    pub fn status(self, status: StepStatus) -> (r: Self)
        ensures
            r@ == (StepModel { status, ..self@ }),
    {
        ThinkingStep { status, ..self }
    }

    /// The declared identity, if any.
    pub fn identity(&self) -> (r: Option<&str>)
        ensures
            match r {
                Some(t) => self@.id == Some(t@),
                None => self@.id.is_none(),
            },
    {
        match &self.id {
            Some(id) => Some(id.as_str()),
            None => None,
        }
    }

    /// The title.
    pub fn title_text(&self) -> (r: &str)
        ensures
            r@ == self@.title,
    {
        self.title.as_str()
    }

    /// The detail, if any.
    pub fn detail_text(&self) -> (r: Option<&str>)
        ensures
            match r {
                Some(t) => self@.detail == Some(t@),
                None => self@.detail.is_none(),
            },
    {
        match &self.detail {
            Some(detail) => Some(detail.as_str()),
            None => None,
        }
    }

    /// The status.
    pub fn step_status(&self) -> (r: StepStatus)
        ensures
            r == self@.status,
    {
        self.status
    }

    /// The key this step's motion is stable under: its declared identity,
    /// or its position for steps without one.
    pub fn motion_key(&self, trace_id: &str, channel: &str, ix: usize) -> (r: MotionKey)
        ensures
            r@ == motion_key_of(self@, trace_id@, channel@, ix as u64),
    {
        let head = concat(trace_id, "-step-");
        proof {
            reveal_strlit("-step-");
            reveal_strlit("-");
            assert("-step-"@ =~= seq!['-', 's', 't', 'e', 'p', '-']);
            assert("-"@ =~= seq!['-']);
        }
        match &self.id {
            Some(id) => {
                let mut name = head;
                name.append(id.as_str());
                name.append("-");
                name.append(channel);
                proof {
                    assert(name@ =~= trace_id@ + seq!['-', 's', 't', 'e', 'p', '-'] + id@ + seq!['-']
                        + channel@);
                }
                MotionKey::Name(name)
            },
            None => {
                let mut name = head;
                name.append(channel);
                proof {
                    assert(name@ =~= trace_id@ + seq!['-', 's', 't', 'e', 'p', '-'] + channel@);
                }
                MotionKey::NamedInteger(name, ix as u64)
            },
        }
    }

    /// How the step is announced: its title, a comma, and whether it is in
    /// progress or complete.
    pub fn accessibility_label(&self) -> (r: String)
        ensures
            r@ == self@.title + seq![',', ' '] + status_words(self@.status),
    {
        let mut label = concat(self.title.as_str(), ", ");
        proof {
            reveal_strlit(", ");
        }
        match self.status {
            StepStatus::Running => {
                label.append("in progress");
                proof {
                    reveal_strlit("in progress");
                }
            },
            StepStatus::Done => {
                label.append("complete");
                proof {
                    reveal_strlit("complete");
                }
            },
        }
        label
    }
}

/// What a trace holds: optional free-form prose, the structured steps in
/// order, and the caller-measured thinking duration.
pub struct TraceModel {
    pub prose: Option<Seq<char>>,
    pub steps: Seq<StepModel>,
    pub thought_for: Option<Duration>,
}

/// Typed content of a progressive thinking trace.
#[derive(Debug, Clone, PartialEq, Eq)]
pub struct ThinkingTrace {
    prose: Option<String>,
    steps: Vec<ThinkingStep>,
    thought_for: Option<Duration>,
}

/// The models of a list of steps.
pub open spec fn steps_view(steps: Seq<ThinkingStep>) -> Seq<StepModel> {
    steps.map_values(|s: ThinkingStep| s@)
}

impl View for ThinkingTrace {
    type V = TraceModel;

    closed spec fn view(&self) -> TraceModel {
        TraceModel {
            prose: opt_text(self.prose),
            steps: steps_view(self.steps@),
            thought_for: self.thought_for,
        }
    }
}

impl Default for ThinkingTrace {
    fn default() -> (r: Self)
        ensures
            r@ == (TraceModel { prose: None, steps: Seq::empty(), thought_for: None }),
    {
        ThinkingTrace::new()
    }
}

impl ThinkingTrace {
    /// Creates an empty trace.
    pub fn new() -> (r: Self)
        ensures
            r@ == (TraceModel { prose: None, steps: Seq::empty(), thought_for: None }),
    {
        let r = ThinkingTrace { prose: None, steps: Vec::new(), thought_for: None };
        proof {
            assert(steps_view(r.steps@) =~= Seq::empty());
        }
        r
    }

    /// Sets free-form reasoning rendered before structured steps.
    pub fn prose(self, prose: &str) -> (r: Self)
        ensures
            r@ == (TraceModel { prose: Some(prose@), ..self@ }),
    {
        ThinkingTrace { prose: Some(prose.to_owned()), ..self }
    }

    /// Sets structured trace steps, in order.
    pub fn steps(self, steps: Vec<ThinkingStep>) -> (r: Self)
        ensures
            r@ == (TraceModel { steps: steps_view(steps@), ..self@ }),
    {
        ThinkingTrace { steps, ..self }
    }

    /// Sets the caller-measured thinking duration.
    pub fn thought_for(self, duration: Duration) -> (r: Self)
        ensures
            r@ == (TraceModel { thought_for: Some(duration), ..self@ }),
    {
        ThinkingTrace { thought_for: Some(duration), ..self }
    }

    /// The free-form prose, if any.
    pub fn prose_text(&self) -> (r: Option<&str>)
        ensures
            match r {
                Some(t) => self@.prose == Some(t@),
                None => self@.prose.is_none(),
            },
    {
        match &self.prose {
            Some(prose) => Some(prose.as_str()),
            None => None,
        }
    }

    /// The structured steps, in order.
    pub fn step_list(&self) -> (r: &Vec<ThinkingStep>)
        ensures
            steps_view(r@) == self@.steps,
    {
        &self.steps
    }

    /// The caller-measured thinking duration, if any.
    pub fn thought_duration(&self) -> (r: Option<Duration>)
        ensures
            r == self@.thought_for,
    {
        self.thought_for
    }
}

/// An interaction emitted by a thinking trace.
#[derive(Debug, Clone, PartialEq, Eq)]
pub enum ThinkingEvent {
    /// Requests a controlled expansion-state change.
    Toggled {
        /// Stable trace identifier.
        id: String,
        /// Proposed expansion state.
        open: bool,
    },
}

/// The event a trace's toggle emits: the trace's identity and the opposite
/// of its current expansion state.
pub fn toggle_event(id: &str, open: bool) -> (r: ThinkingEvent)
    ensures
        r matches ThinkingEvent::Toggled { id: i, open: o } && i@ == id@ && o == !open,
{
    ThinkingEvent::Toggled { id: id.to_owned(), open: !open }
}

/// Whether a trace's body is shown: the explicit choice where the
/// application made one, else open exactly while reasoning runs.
pub fn disclosure_open(explicit: Option<bool>, running: bool) -> (r: bool)
    ensures
        r == match explicit {
            Some(open) => open,
            None => running,
        },
{
    match explicit {
        Some(open) => open,
        None => running,
    }
}

/// What a trace's header says.
#[derive(Debug, Clone, Copy, PartialEq, Eq)]
pub enum TraceHeading {
    /// "Thinking…", while reasoning runs.
    Thinking,
    /// "Thinking stopped", once reasoning failed.
    Stopped,
    /// "Thought for Ns", once settled with a measured duration.
    ThoughtFor(Duration),
    /// "Thoughts", once settled without one.
    Thoughts,
}

/// The heading of a trace: running wins, then failure, then a measured
/// duration; a settled trace without one is plain thoughts.
pub fn trace_heading(running: bool, failed: bool, thought_for: Option<Duration>) -> (r:
    TraceHeading)
    ensures
        r == if running {
            TraceHeading::Thinking
        } else if failed {
            TraceHeading::Stopped
        } else {
            match thought_for {
                Some(d) => TraceHeading::ThoughtFor(d),
                None => TraceHeading::Thoughts,
            }
        },
{
    if running {
        TraceHeading::Thinking
    } else if failed {
        TraceHeading::Stopped
    } else {
        match thought_for {
            Some(d) => TraceHeading::ThoughtFor(d),
            None => TraceHeading::Thoughts,
        }
    }
}

/// The words of a heading that needs no number: every heading but
/// "Thought for Ns", whose seconds are rounded for display.
pub fn heading_words(heading: TraceHeading) -> (r: Option<&'static str>)
    ensures
        match heading {
            TraceHeading::Thinking => r matches Some(t) && t@ == "Thinking…"@,
            TraceHeading::Stopped => r matches Some(t) && t@ == "Thinking stopped"@,
            TraceHeading::Thoughts => r matches Some(t) && t@ == "Thoughts"@,
            TraceHeading::ThoughtFor(_) => r is None,
        },
{
    match heading {
        TraceHeading::Thinking => Some("Thinking…"),
        TraceHeading::Stopped => Some("Thinking stopped"),
        TraceHeading::Thoughts => Some("Thoughts"),
        TraceHeading::ThoughtFor(_) => None,
    }
}

/// Whether a trace shows the bounded live preview that follows its newest
/// reasoning: only while reasoning runs and the body is shown.
pub fn shows_live_preview(running: bool, open: bool) -> (r: bool)
    ensures
        r == (running && open),
{
    running && open
}

/// What the live preview remembers between renders: the digest of the
/// content it last showed, and whether the reader was at the tail.
pub struct FollowModel {
    pub revision: Option<u64>,
    pub follow: bool,
}

/// One observation of the live preview: it records `revision` and whether
/// the reader is `at_tail`, and lands on the tail exactly when the content
/// is new to it and the reader is following.
pub open spec fn observe_step(m: FollowModel, revision: u64, at_tail: bool) -> (FollowModel, bool) {
    (
        FollowModel { revision: Some(revision), follow: at_tail },
        m.revision != Some(revision) && at_tail,
    )
}

/// Live-preview follow state for one trace.
///
/// Without it a trace could not tell newly streamed reasoning from a
/// re-render and would drag the preview back to the tail on every frame.
#[derive(Debug, Clone)]
pub struct TailFollow {
    revision: Option<u64>,
    follow: bool,
}

impl View for TailFollow {
    type V = FollowModel;

    closed spec fn view(&self) -> FollowModel {
        FollowModel { revision: self.revision, follow: self.follow }
    }
}

impl TailFollow {
    /// A preview that has shown nothing and follows the tail.
    pub fn new() -> (r: Self)
        ensures
            r@ == (FollowModel { revision: None, follow: true }),
    {
        TailFollow { revision: None, follow: true }
    }

    /// Whether the reader was at the tail at the last observation.
    pub fn follow(&self) -> (r: bool)
        ensures
            r == self@.follow,
    {
        self.follow
    }

    /// Records `revision` and whether the reader is `at_tail`, and answers
    /// whether this render should land on the tail. Content the preview has
    /// already shown never scrolls, and neither does new content once the
    /// reader has scrolled away to read earlier reasoning.
    pub fn observe(&mut self, revision: u64, at_tail: bool) -> (r: bool)
        ensures
            (final(self)@, r) == observe_step(old(self)@, revision, at_tail),
    {
        self.follow = at_tail;
        let arrived = match self.revision {
            Some(seen) => seen != revision,
            None => true,
        };
        self.revision = Some(revision);
        arrived && self.follow
    }
}

/// A re-render of content the preview has already shown never scrolls,
/// whatever the reader did in between; and the first content a preview
/// shows lands on the tail when the reader is there.
pub proof fn lemma_shown_content_never_scrolls(m: FollowModel, revision: u64, first: bool, second: bool)
    ensures
        !observe_step(observe_step(m, revision, first).0, revision, second).1,
        observe_step(FollowModel { revision: None, follow: true }, revision, true).1,
        observe_step(m, revision, second).1 ==> second,
{
}

/// Content the preview has not shown lands on the tail whenever the reader
/// is there, whatever digests came before: a new digest `v` after any
/// other digest `r` (larger, smaller, or none at all) is followed; a reader
/// away from the tail is never moved; and the preview then remembers `v` and
/// where the reader was.
pub proof fn lemma_new_content_is_followed(m: FollowModel, r: u64, v: u64, at_tail: bool)
    ensures
        m.revision == Some(r) && r != v && at_tail ==> observe_step(m, v, at_tail).1,
        m.revision is None && at_tail ==> observe_step(m, v, at_tail).1,
        !at_tail ==> !observe_step(m, v, at_tail).1,
        observe_step(m, v, at_tail).0.revision == Some(v),
        observe_step(m, v, at_tail).0.follow == at_tail,
{
}

} // verus!
