//! Stable identifiers for component stories.

use vstd::prelude::*;
use crate::text::{chars_of, is_text, is_ws};
use crate::usage;

verus! {

/// A stable route to one gallery story, or to the complete catalog.
#[derive(Debug, Clone, Copy, PartialEq, Eq, Hash, Structural)]
pub enum StoryId {
    /// The complete catalog.
    All,
    /// Pixel-grid loading state.
    Loading,
    /// Lifecycle status pill.
    Status,
    /// Tool-call chips.
    ToolChips,
    /// Collapsible tool-call cards and groups.
    ToolCalls,
    /// Progressive task rows.
    Tasks,
    /// Expandable thinking traces.
    Thinking,
    /// Ambient orbs.
    Orbs,
    /// Web-search results.
    Search,
    /// Agent to-do list.
    Todos,
    /// Image-generation progress.
    ImageGeneration,
    /// Streaming Markdown answer.
    StreamingText,
    /// Controlled virtualized conversation.
    Chat,
    /// Starter and follow-up suggestion chips.
    Suggestions,
    /// Composer and message attachment previews.
    Attachments,
    /// Generated document or code beside the conversation.
    Artifact,
    /// Context-window usage meter.
    ContextMeter,
    /// Stable-ID command palette.
    CommandSearch,
    /// Stable-ID filterable sidebar navigation.
    SidebarNav,
    /// Controlled conversation list with search and row actions.
    ThreadList,
    /// Controlled design-property inspector.
    FineTune,
    /// Controlled virtualized CRM-style records grid.
    RecordsTable,
    /// Controlled virtualized before/after proposal grid.
    DiffTable,
    /// Controlled filterable task grid with stable-row reorder motion.
    FilterTable,
    /// Controlled bounded feature comparison grid.
    ComparisonTable,
    /// Streaming code block.
    CodeBlock,
    /// Reviewable unified code diff.
    CodeDiff,
    /// Human approval gate.
    Approval,
    /// Proposed plan with steps and decisions.
    Plan,
    /// Recommendation card.
    Recommendation,
    /// Context/source cards.
    Context,
    /// Paged analytical insight card.
    Insights,
    /// Hybrid-controlled prompt composer.
    PromptBar,
    /// Dictate and speak controls.
    Voice,
    /// Prompts waiting while the agent runs.
    Queue,
    /// Actions anchored to a readable text selection.
    SelectionActions,
    /// Single-choice groups and toggles.
    Form,
    /// A short sequence of questions asked before acting.
    QuestionFlow,
    /// The website's scripted hero.
    ///
    /// Addressable like any story, but deliberately absent from
    /// [`StoryId::ALL`]: it is one composition made for the home page, not a
    /// component the catalog documents.
    GuidedDemo,
    /// The themes page's comparison specimen.
    ///
    /// Same contract as [`StoryId::GuidedDemo`]: addressable, absent from the
    /// catalog. It stacks the loading, tool-chip, and context specimens in one
    /// view so the themes page boots one WebAssembly runtime instead of three
    /// — the page compares themes, and the comparison needs the same pixels
    /// re-skinned, not three separate instances.
    ThemesTrio,
    /// gpui-ai components inside upstream's `DockArea`.
    ///
    /// Same contract as [`StoryId::GuidedDemo`]: addressable, absent from the
    /// catalog. It documents no component — it is the interoperability proof
    /// that an embedded sidebar, a thread list, a chat, and an artifact
    /// compose inside someone else's docking, so there is nothing here for the
    /// website to name or size.
    DockComposition,
    /// Decorations an application paints into a component's frame.
    ///
    /// Same contract as [`StoryId::GuidedDemo`]: addressable, absent from the
    /// catalog. It documents no component — it demonstrates the slot every
    /// framed component offers, which is an extension point rather than a
    /// thing with an API of its own. The website shows it under Extensions
    /// for exactly that reason.
    Decorations,
    /// The motion lab: an instrument, not an exhibit.
    ///
    /// Same contract as [`StoryId::GuidedDemo`]: addressable, absent from the
    /// catalog. It drives the shared motion primitives through their failure
    /// cases — rapid interruption, mid-flight reversal, environment changes,
    /// arrival cascades — with live readouts and a scrub, so a primitive that
    /// jumps on reversal or schedules after settling is seen here rather
    /// than shipped. A tool for tuning the motion policy has no place on a
    /// site that documents components.
    MotionLab,
}

/// Variants the Chat story switches between.
///
/// Variant lists live here rather than beside the stories so the exported
/// catalog and the switcher toolbar cannot disagree.
pub const CHAT_STORY_VARIANTS: [(&'static str, &'static str); 2] = [
    ("conversation", "Conversation"),
    ("welcome", "Welcome"),
];

/// Variants the prompt-bar story switches between.
pub const PROMPT_BAR_STORY_VARIANTS: [(&'static str, &'static str); 6] = [
    ("empty", "Empty"),
    ("ready", "Ready"),
    ("multiline", "Multiline"),
    ("running", "Running"),
    ("glyph", "Glyph submit"),
    ("gathered", "Gathered"),
];

/// Variants the command-search story switches between.
pub const COMMAND_SEARCH_STORY_VARIANTS: [(&'static str, &'static str); 3] = [
    ("populated", "Populated"),
    ("empty", "Empty catalog"),
    ("no-results", "No results"),
];

/// Variants the form story switches between.
pub const FORM_STORY_VARIANTS: [(&'static str, &'static str); 2] = [
    ("choices", "Choices"),
    ("toggles", "Toggles"),
];

/// Variants the decorations story switches between.
pub const DECORATION_STORY_VARIANTS: [(&'static str, &'static str); 13] = [
    ("photo", "Photo"),
    ("frosted", "Frosted"),
    ("glass", "Glass"),
    ("tint", "Tint"),
    ("beam", "Border beam"),
    ("metal", "Liquid metal"),
    ("scrim", "Photo + scrim"),
    ("dither", "Dither"),
    ("pop-art", "Pop art"),
    ("engrave", "Cross-hatch"),
    ("halftone", "Halftone"),
    ("pulse", "Pulse"),
    ("veil", "Veil"),
];

/// Variants every table story switches between.
pub const TABLE_STORY_VARIANTS: [(&'static str, &'static str); 7] = [
    ("populated", "Populated"),
    ("loading", "Loading"),
    ("error", "Error"),
    ("empty", "Empty"),
    ("disabled", "Disabled"),
    ("selected", "Selected"),
    ("constrained", "Constrained"),
];

/// The site hero's height in pixels at the website's demo width.
///
/// Separate from [`StoryMeta::height`] because the hero carries no component
/// metadata, and measured settled rather than idle: the frame has to hold the
/// finished answer, not the composer the demo opens on. The
/// `the_hero_height_matches_what_the_settled_demo_measures` test fails when
/// the script changes shape and this number does not.
pub const HERO_HEIGHT: u32 = 710;

/// Which way a story's content outgrows the frame it is shown in.
///
/// Declared rather than inferred. The exporter used to decide this from
/// [`StoryMeta::height`], on the reasoning that a tall story is the one with
/// something to say about staying reachable — but height measures the story as
/// it is composed, including any prose beneath the component, so editing that
/// prose silently rewrote the published claim for four components. The two
/// facts are independent, so they are recorded independently.
#[derive(Debug, Clone, Copy, PartialEq, Eq, Structural)]
pub enum Overflow {
    /// Content grows downward, and the claim is that it stays reachable.
    Vertical,
    /// Content is wider than the frame, and the claim is that context survives.
    Wide,
}

/// How much horizontal room a story needs to be judged fairly.
///
/// Most components are specimens: a chip, a badge, a card, read beside
/// prose at the width prose is read at. Some are working surfaces — a data
/// grid, a transcript, a navigation pane — and at a prose column's width
/// they are squeezed rather than shown, which invites the reader to judge
/// the squeeze instead of the component.
///
/// Both widths sit inside the website's own demo column, so a story is
/// measured at the width it will be drawn at and the reserved height stays
/// honest.
#[derive(Debug, Clone, Copy, PartialEq, Eq, Structural)]
pub enum StoryWidth {
    /// The prose column a specimen is read in.
    Column,
    /// The full demo column, for surfaces that carry a layout.
    Wide,
}

/// Where a component stands relative to gpui-component.
///
/// The library is built on gpui-component and says so on every page: a reader
/// deciding between the two should be able to see, per component, whether they
/// are looking at something upstream does not have, something upstream does
/// have with additions, or upstream's own component mounted inside a surface
/// that is new.
#[derive(Debug, Clone, Copy, PartialEq, Eq, Structural)]
pub enum Lineage {
    /// Built from primitives. Upstream has no component for the thing at all,
    /// or has one whose look cannot be brought into line with this library's.
    New,
    /// Upstream's component does the work; this adds what an agent surface
    /// needs and hands the rest back.
    Extends,
    /// Mounts a named upstream component inside a surface upstream has no
    /// equivalent for.
    Composes,
}

/// The stable identifier the website styles and filters on.
pub open spec fn lineage_id(l: Lineage) -> Seq<char> {
    match l {
        Lineage::New => "new"@,
        Lineage::Extends => "extends"@,
        Lineage::Composes => "composes"@,
    }
}

/// The one-word label a reader sees.
pub open spec fn lineage_label(l: Lineage) -> Seq<char> {
    match l {
        Lineage::New => "New"@,
        Lineage::Extends => "Extends"@,
        Lineage::Composes => "Composes"@,
    }
}

/// Whether `lower` is `s` with its ASCII capitals made lowercase, as
/// `str::to_ascii_lowercase` gives it.
pub open spec fn ascii_lowered(s: Seq<char>, lower: Seq<char>) -> bool {
    &&& lower.len() == s.len()
    &&& forall|i: int|
        0 <= i < s.len() ==> (lower[i] as int) == if 'A' <= #[trigger] s[i] <= 'Z' {
            s[i] as int + 32
        } else {
            s[i] as int
        }
}

/// A lineage's label is one capitalised word (non-empty, its first letter
/// an ASCII capital, no whitespace) whose lowercase form is the lineage's
/// id; distinct lineages have distinct labels and ids.
pub proof fn lemma_lineage_label_is_capitalised_id(l: Lineage, m: Lineage)
    ensures
        lineage_label(l).len() > 0,
        'A' <= lineage_label(l)[0] <= 'Z',
        forall|i: int| 0 <= i < lineage_label(l).len() ==> !is_ws(#[trigger] lineage_label(l)[i]),
        ascii_lowered(lineage_label(l), lineage_id(l)),
        l != m ==> lineage_label(l) != lineage_label(m) && lineage_id(l) != lineage_id(m),
{
    reveal_strlit("new");
    reveal_strlit("extends");
    reveal_strlit("composes");
    reveal_strlit("New");
    reveal_strlit("Extends");
    reveal_strlit("Composes");
    if l != m {
        assert(lineage_label(l).len() != lineage_label(m).len());
        assert(lineage_id(l).len() != lineage_id(m).len());
    }
}

impl Lineage {
    /// The stable identifier the website styles and filters on.
    pub fn id(self) -> (r: &'static str)
        ensures
            r@ == lineage_id(self),
    {
        match self {
            Self::New => "new",
            Self::Extends => "extends",
            Self::Composes => "composes",
        }
    }

    /// The one-word label a reader sees.
    pub fn label(self) -> (r: &'static str)
        ensures
            r@ == lineage_label(self),
    {
        match self {
            Self::New => "New",
            Self::Extends => "Extends",
            Self::Composes => "Composes",
        }
    }
}

/// Catalog metadata for one component story, exported to the website.
///
/// This is the single source for the component index: the site is generated
/// from it rather than from a parallel hand-maintained list.
#[derive(Debug, Clone, Copy, PartialEq, Eq)]
pub struct StoryMeta {
    /// The group the component index files this story under.
    pub category: &'static str,
    /// One sentence describing what the component is for.
    pub summary: &'static str,
    /// The module stem under `crates/gpui-ai/src/` that implements it.
    pub module: &'static str,
    /// The primary public type the story demonstrates.
    pub api: &'static str,
    /// Where the component stands relative to gpui-component.
    pub lineage: Lineage,
    /// The upstream component it is built on, or empty where there is none.
    pub lineage_basis: &'static str,
    /// What it adds, and why it is in this library rather than upstream's.
    pub lineage_note: &'static str,
    /// A constructor call short enough to read in the index.
    pub usage: &'static str,
    /// The story's natural height in pixels at the website's demo width.
    ///
    /// **A website concern, and only that.** The site reserves this much
    /// space before a demo's WASM has booted, and sizes the poster it shows
    /// where WebGPU is unavailable. Nothing lays out from it: not the
    /// gallery, which draws every story at whatever size it actually is,
    /// and certainly not an application using this library — a consumer of
    /// `gpui-ai` never sees these numbers. Read by the catalog export and
    /// by the test that keeps it honest, and by nothing else.
    ///
    /// Measured rather than guessed: a story is centred in its frame, so a
    /// frame sized from anything else leaves dead space or clips. The
    /// `story_heights_match_what_the_stories_measure` test fails when a story
    /// changes shape and this number does not.
    pub height: u32,
    /// Which way this story's content outgrows its frame.
    pub overflow: Overflow,
    /// How much horizontal room the story needs to be judged fairly.
    pub width: StoryWidth,
}

/// The catalog metadata of each story: none for the views that are not
/// components.
pub open spec fn meta_of(id: StoryId) -> Option<StoryMeta> {
    match id {
        StoryId::All
        | StoryId::GuidedDemo
        | StoryId::Decorations
        | StoryId::ThemesTrio
        | StoryId::DockComposition
        | StoryId::MotionLab => None,
        StoryId::Loading => {
            Some(StoryMeta {
                category: "Progress",
                summary: "A token-driven pixel field for work whose duration is not yet known.",
                module: "loading",
                api: "LoadingState",
                lineage: Lineage::New,
                lineage_basis: "",
                lineage_note: "An animated pixel grid with elapsed time, for waits long enough that a spinner stops meaning anything.",
                usage: usage::LOADING_STATE,
                height: 52,
                width: StoryWidth::Column,
                overflow: Overflow::Wide,
            })
        },
        StoryId::Status => {
            Some(StoryMeta {
                category: "Progress",
                summary: "One status pill for every lifecycle, swapping states in a fixed slot.",
                module: "status",
                api: "StatusBadge",
                lineage: Lineage::New,
                lineage_basis: "",
                lineage_note: "One status vocabulary - pending, running, completed, failed - mapped onto the theme's semantic colours once and shared by chips, task rows, tool calls and plan steps. Upstream's badge is a pill with no lifecycle in it.",
                usage: usage::STATUS_BADGE,
                height: 84,
                width: StoryWidth::Column,
                overflow: Overflow::Wide,
            })
        },
        StoryId::ToolChips => {
            Some(StoryMeta {
                category: "Agent work",
                summary: "Compact, typed status for tool calls without hiding their lifecycle.",
                module: "chip",
                api: "ToolChip",
                lineage: Lineage::New,
                lineage_basis: "",
                lineage_note: "The compact form of the same thing, for a transcript that should not become a list of cards.",
                usage: usage::TOOL_CHIP,
                height: 84,
                width: StoryWidth::Column,
                overflow: Overflow::Wide,
            })
        },
        StoryId::ToolCalls => {
            Some(StoryMeta {
                category: "Agent work",
                summary: "Collapsible tool-call cards with input, output, approval, and a shimmering group.",
                module: "tool_call",
                api: "ToolCall",
                lineage: Lineage::New,
                lineage_basis: "",
                lineage_note: "One invocation: name, summary, status, and on expansion the input sent, the output returned or the reason it failed, with Allow and Deny where a person has to decide. Groups fold a burst of them.",
                usage: usage::TOOL_CALL,
                height: 618,
                width: StoryWidth::Column,
                overflow: Overflow::Vertical,
            })
        },
        StoryId::Tasks => {
            Some(StoryMeta {
                category: "Agent work",
                summary: "Progressive task rows with stable identity and readable state.",
                module: "task",
                api: "TaskRow",
                lineage: Lineage::New,
                lineage_basis: "",
                lineage_note: "Live status for long-running agent work.",
                usage: usage::TASK_ROW,
                height: 144,
                width: StoryWidth::Column,
                overflow: Overflow::Wide,
            })
        },
        StoryId::Thinking => {
            Some(StoryMeta {
                category: "Progress",
                summary: "Expandable reasoning traces in structured step and prose forms.",
                module: "thinking",
                api: "Thinking",
                lineage: Lineage::New,
                lineage_basis: "",
                lineage_note: "A reasoning trace that opens itself while it runs, follows the newest steps, holds the reader's place when they scroll back, and collapses to a single line when it settles.",
                usage: usage::THINKING,
                height: 260,
                width: StoryWidth::Column,
                overflow: Overflow::Wide,
            })
        },
        StoryId::Orbs => {
            Some(StoryMeta {
                category: "Progress",
                summary: "A reduced-motion-aware ambient signal for background AI activity.",
                module: "orbs",
                api: "Orbs",
                lineage: Lineage::New,
                lineage_basis: "",
                lineage_note: "Ambient motion for the moments when a model is alive but has nothing to show yet: one dot lattice, several choreographed personalities.",
                usage: usage::ORBS,
                height: 195,
                width: StoryWidth::Column,
                overflow: Overflow::Wide,
            })
        },
        StoryId::Search => {
            Some(StoryMeta {
                category: "Agent work",
                summary: "Search results with readable citations, metadata, and progressive state.",
                module: "search_results",
                api: "SearchResults",
                lineage: Lineage::New,
                lineage_basis: "",
                lineage_note: "Web-search tool output: the query, its results, and the sources behind them.",
                usage: usage::SEARCH_RESULTS,
                height: 161,
                width: StoryWidth::Column,
                overflow: Overflow::Wide,
            })
        },
        StoryId::Todos => {
            Some(StoryMeta {
                category: "Agent work",
                summary: "A stable-ID checklist for plans that change while an agent works.",
                module: "todo_list",
                api: "TodoList",
                lineage: Lineage::New,
                lineage_basis: "",
                lineage_note: "The plan an agent is working through, with completion arriving item by item.",
                usage: usage::TODO_LIST,
                height: 234,
                width: StoryWidth::Column,
                overflow: Overflow::Wide,
            })
        },
        StoryId::ImageGeneration => {
            Some(StoryMeta {
                category: "Agent work",
                summary: "Image generation progress, preview, and error states in one frame.",
                module: "image_generation",
                api: "ImageGeneration",
                lineage: Lineage::New,
                lineage_basis: "",
                lineage_note: "A picture revealed as it is produced rather than swapped in when it is done.",
                usage: usage::IMAGE_GENERATION,
                height: 212,
                width: StoryWidth::Column,
                overflow: Overflow::Wide,
            })
        },
        StoryId::StreamingText => {
            Some(StoryMeta {
                category: "Readable output",
                summary: "Selectable streaming Markdown with citations, sources, and follow-ups.",
                module: "streaming_text",
                api: "StreamingText",
                lineage: Lineage::Composes,
                lineage_basis: "TextView, HoverCard, Link",
                lineage_note: "Markdown that arrives a token at a time, with citations that resolve on hover and follow-up suggestions underneath. Upstream renders markdown it already has.",
                usage: usage::STREAMING_TEXT,
                height: 426,
                width: StoryWidth::Column,
                overflow: Overflow::Vertical,
            })
        },
        StoryId::Chat => {
            Some(StoryMeta {
                category: "Composites",
                summary: "A virtualized controlled conversation with tail-follow, unread behavior, in-place edit, and branch versions.",
                module: "chat",
                api: "Chat",
                lineage: Lineage::Composes,
                lineage_basis: "Textarea, list",
                lineage_note: "A virtualized, controlled transcript: unread reconciliation, jump to latest, and an anchor that survives messages arriving off screen. Upstream now has a MessageScroller that follows the tail and holds the anchor too; what it leaves to the application is the meaning of unread, and what this adds above it is the transcript itself - streaming answers, tool calls, and the prompt bar under them.",
                usage: usage::CHAT,
                height: 595,
                width: StoryWidth::Wide,
                overflow: Overflow::Vertical,
            })
        },
        StoryId::Suggestions => {
            Some(StoryMeta {
                category: "Composites",
                summary: "Starter and follow-up prompt chips that ripple in and report stable IDs.",
                module: "suggestions",
                api: "Suggestions",
                lineage: Lineage::New,
                lineage_basis: "",
                lineage_note: "The prompts an assistant offers before it has been asked anything.",
                usage: usage::SUGGESTIONS,
                height: 132,
                width: StoryWidth::Column,
                overflow: Overflow::Wide,
            })
        },
        StoryId::Attachments => {
            Some(StoryMeta {
                category: "Composites",
                summary: "Composer and message attachments with thumbnails, kinds, upload state, and typed open or remove events.",
                module: "attachment",
                api: "AttachmentStrip",
                lineage: Lineage::New,
                lineage_basis: "",
                lineage_note: "Files on their way into a prompt, with upload progress and failure shown per item. Upstream ships an Attachment of its own now, and is explicit that it is a composition primitive: it lays out a preview, a title and actions, and leaves upload state, retry and selection to the application. This owns that lifecycle, which is the part an agent surface cannot avoid.",
                usage: usage::ATTACHMENT_STRIP,
                height: 486,
                width: StoryWidth::Column,
                overflow: Overflow::Vertical,
            })
        },
        StoryId::Artifact => {
            Some(StoryMeta {
                category: "Composites",
                summary: "A side panel for generated documents and code with preview and source views, versions, actions, and streaming state.",
                module: "artifact",
                api: "ArtifactPanel",
                lineage: Lineage::Composes,
                lineage_basis: "tab::TabBar",
                lineage_note: "A generated document beside the conversation, with preview and source, a version switcher, and streamed content so the panel renders while the agent is still writing.",
                usage: usage::ARTIFACT_PANEL,
                height: 504,
                width: StoryWidth::Wide,
                overflow: Overflow::Vertical,
            })
        },
        StoryId::ContextMeter => {
            Some(StoryMeta {
                category: "Progress",
                summary: "Context-window usage as a ring, bar, or text with severity tones and a breakdown.",
                module: "context_meter",
                api: "ContextMeter",
                lineage: Lineage::Composes,
                lineage_basis: "ProgressCircle, HoverCard",
                lineage_note: "How much of the model's context window a conversation has spent, as a ring, a bar or plain text, with the tone changing as it fills and the numbers exposed semantically so the level never depends on colour alone.",
                usage: usage::CONTEXT_METER,
                height: 120,
                width: StoryWidth::Column,
                overflow: Overflow::Wide,
            })
        },
        StoryId::CommandSearch => {
            Some(StoryMeta {
                category: "Navigation",
                summary: "Keyboard-first command discovery backed by stable application IDs.",
                module: "command_search",
                api: "CommandSearch",
                lineage: Lineage::Extends,
                lineage_basis: "command::CommandState",
                lineage_note: "Stable-ID items over the native palette, so a result keeps its identity as the ranking moves under it and the selection does not jump to whatever now sits at that index.",
                usage: usage::COMMAND_SEARCH,
                height: 387,
                width: StoryWidth::Wide,
                overflow: Overflow::Vertical,
            })
        },
        StoryId::SidebarNav => {
            Some(StoryMeta {
                category: "Navigation",
                summary: "Filterable, accessible navigation for growing AI workspaces.",
                module: "sidebar_nav",
                api: "SidebarNav",
                lineage: Lineage::Extends,
                lineage_basis: "sidebar::SidebarMenuItem",
                lineage_note: "Flattens the tree into one virtualized list, so a section holding ten thousand items costs what the viewport shows rather than what the section holds. Adds a retained filter input, roving focus with tree semantics, and a rail that glides between its widths.",
                usage: usage::SIDEBAR_NAV,
                height: 476,
                width: StoryWidth::Column,
                overflow: Overflow::Vertical,
            })
        },
        StoryId::ThreadList => {
            Some(StoryMeta {
                category: "Navigation",
                summary: "A grouped conversation list with search, archived threads, and typed row actions.",
                module: "thread_list",
                api: "ThreadList",
                lineage: Lineage::Composes,
                lineage_basis: "Input, Popover, PopupMenu",
                lineage_note: "Conversations grouped into sections, with search, an archive toggle and a per-row overflow menu. Every intent goes back to the application rather than being acted on here.",
                usage: usage::THREAD_LIST,
                height: 436,
                width: StoryWidth::Wide,
                overflow: Overflow::Vertical,
            })
        },
        StoryId::FineTune => {
            Some(StoryMeta {
                category: "Composites",
                summary: "A controlled property inspector for precise model and design settings.",
                module: "fine_tune",
                api: "FineTuneCard",
                lineage: Lineage::Composes,
                lineage_basis: "ColorPicker, Slider, Input",
                lineage_note: "Upstream's own controls arranged as one controlled inspector that reports every change rather than owning it.",
                usage: usage::FINE_TUNE_CARD,
                height: 738,
                width: StoryWidth::Wide,
                overflow: Overflow::Vertical,
            })
        },
        StoryId::RecordsTable => {
            Some(StoryMeta {
                category: "Data tables",
                summary: "A controlled virtualized records grid for large, changing datasets.",
                module: "records_table",
                api: "RecordsTable",
                lineage: Lineage::Extends,
                lineage_basis: "table::DataTable",
                lineage_note: "Adds controlled snapshots with stable row IDs, so a row keeps its identity when the data is replaced; progressive states drawn inside the grid; columns that divide the table's width; and a footer. Upstream's grid draws data that has arrived, and an agent's grid has to draw while it is still arriving.",
                usage: usage::RECORDS_TABLE,
                height: 288,
                width: StoryWidth::Wide,
                overflow: Overflow::Wide,
            })
        },
        StoryId::DiffTable => {
            Some(StoryMeta {
                category: "Data tables",
                summary: "A virtualized before-and-after proposal grid with explicit change state.",
                module: "diff_table",
                api: "DiffTable",
                lineage: Lineage::Composes,
                lineage_basis: "RecordsTable",
                lineage_note: "Before and after values for one proposal, with accept and reject per row. Reviewing a change an agent wants to make is a different surface from browsing data, even though both are grids.",
                usage: usage::DIFF_TABLE,
                height: 288,
                width: StoryWidth::Wide,
                overflow: Overflow::Wide,
            })
        },
        StoryId::FilterTable => {
            Some(StoryMeta {
                category: "Data tables",
                summary: "A controlled task grid with typed filters and stable-row reorder motion.",
                module: "filter_table",
                api: "FilterTable",
                lineage: Lineage::Composes,
                lineage_basis: "RecordsTable",
                lineage_note: "Filter chips over a grid whose rows animate to their new places rather than cutting, so a reader can see what the filter did to the set they were looking at.",
                usage: usage::FILTER_TABLE,
                height: 288,
                width: StoryWidth::Wide,
                overflow: Overflow::Wide,
            })
        },
        StoryId::ComparisonTable => {
            Some(StoryMeta {
                category: "Data tables",
                summary: "A bounded feature matrix with semantic values and sticky context.",
                module: "comparison_table",
                api: "ComparisonTable",
                lineage: Lineage::New,
                lineage_basis: "",
                lineage_note: "A matrix rather than a data grid: rows are features, columns are the things compared, and every column header carries its own control. Bounded and virtualized, with columns that divide the width and titles that wrap.",
                usage: usage::COMPARISON_TABLE,
                height: 432,
                width: StoryWidth::Wide,
                overflow: Overflow::Wide,
            })
        },
        StoryId::CodeBlock => {
            Some(StoryMeta {
                category: "Readable output",
                summary: "Selectable code with language context and progressive reveal.",
                module: "code_block",
                api: "CodeBlock",
                lineage: Lineage::Composes,
                lineage_basis: "highlighter, Clipboard",
                lineage_note: "Upstream's highlighting with a streaming reveal, so a block can be syntax-coloured while the model is still writing it, and copied while it is.",
                usage: usage::CODE_BLOCK,
                height: 223,
                width: StoryWidth::Column,
                overflow: Overflow::Wide,
            })
        },
        StoryId::CodeDiff => {
            Some(StoryMeta {
                category: "Readable output",
                summary: "A unified patch with line gutters, change tints, per-hunk accept or reject, and a copyable source.",
                module: "code_diff",
                api: "CodeDiff",
                lineage: Lineage::Composes,
                lineage_basis: "highlighter, Clipboard",
                lineage_note: "The same, as a reviewable patch: accept and reject per hunk, with the decision handed back to the application.",
                usage: usage::CODE_DIFF,
                height: 477,
                width: StoryWidth::Wide,
                overflow: Overflow::Vertical,
            })
        },
        StoryId::Approval => {
            Some(StoryMeta {
                category: "Decisions",
                summary: "An explicit, keyboard-operable human gate with destructive and always-allow variants and resolved states.",
                module: "approval",
                api: "ApprovalCard",
                lineage: Lineage::New,
                lineage_basis: "",
                lineage_note: "One decision about something already proposed, with the consequence stated and the tone matched to how far it reaches.",
                usage: usage::APPROVAL_CARD,
                height: 457,
                width: StoryWidth::Column,
                overflow: Overflow::Wide,
            })
        },
        StoryId::Plan => {
            Some(StoryMeta {
                category: "Decisions",
                summary: "An agent's proposed steps with typed per-step status, approve or reject while proposed, and resolved states.",
                module: "plan",
                api: "PlanCard",
                lineage: Lineage::New,
                lineage_basis: "",
                lineage_note: "The steps an agent intends, each carrying the shared status vocabulary as it runs.",
                usage: usage::PLAN_CARD,
                height: 406,
                width: StoryWidth::Column,
                overflow: Overflow::Vertical,
            })
        },
        StoryId::Recommendation => {
            Some(StoryMeta {
                category: "Decisions",
                summary: "A focused recommendation with rationale and typed actions.",
                module: "recommendation",
                api: "RecommendationCard",
                lineage: Lineage::New,
                lineage_basis: "",
                lineage_note: "A suggested next step with its reasoning, which a reader accepts or dismisses.",
                usage: usage::RECOMMENDATION_CARD,
                height: 266,
                width: StoryWidth::Column,
                overflow: Overflow::Wide,
            })
        },
        StoryId::Context => {
            Some(StoryMeta {
                category: "Evidence",
                summary: "Compact source context that preserves provenance and readable detail.",
                module: "context_card",
                api: "ContextCard",
                lineage: Lineage::New,
                lineage_basis: "",
                lineage_note: "The document, file or record an answer drew on, shown beside the answer.",
                usage: usage::CONTEXT_CARD,
                height: 216,
                width: StoryWidth::Column,
                overflow: Overflow::Wide,
            })
        },
        StoryId::Insights => {
            Some(StoryMeta {
                category: "Evidence",
                summary: "Paged analytical findings with chart-ready, semantic values.",
                module: "insight",
                api: "InsightCard",
                lineage: Lineage::Composes,
                lineage_basis: "chart::LineChart",
                lineage_note: "Metrics and a time series in a paged card, so an analytical answer arrives as evidence rather than as a paragraph about numbers.",
                usage: usage::INSIGHT_CARD,
                height: 452,
                width: StoryWidth::Column,
                overflow: Overflow::Wide,
            })
        },
        StoryId::PromptBar => {
            Some(StoryMeta {
                category: "Composites",
                summary: "A hybrid-controlled composer with mentions, commands, models, and attachments.",
                module: "prompt_bar",
                api: "PromptBar",
                lineage: Lineage::Composes,
                lineage_basis: "Textarea, Positioner",
                lineage_note: "Native text editing with the apparatus around it that makes a prompt: attachments, a context meter, a slash-command popup and a queue.",
                usage: usage::PROMPT_BAR,
                height: 432,
                width: StoryWidth::Column,
                overflow: Overflow::Vertical,
            })
        },
        StoryId::Voice => {
            Some(StoryMeta {
                category: "Composites",
                summary: "Dictate and speak controls with a live level meter and interim transcript, as typed intent.",
                module: "voice",
                api: "VoiceControls",
                lineage: Lineage::New,
                lineage_basis: "",
                lineage_note: "Idle, listening, transcribing, speaking: a lifecycle no upstream control models.",
                usage: usage::VOICE_CONTROLS,
                height: 90,
                width: StoryWidth::Column,
                overflow: Overflow::Wide,
            })
        },
        StoryId::Queue => {
            Some(StoryMeta {
                category: "Composites",
                summary: "Prompts waiting while the agent runs, with reorder, edit, send-now, remove, and clear by stable ID.",
                module: "queue",
                api: "MessageQueue",
                lineage: Lineage::New,
                lineage_basis: "",
                lineage_note: "Messages typed while the model was busy, and the means to clear them.",
                usage: usage::MESSAGE_QUEUE,
                height: 242,
                width: StoryWidth::Column,
                overflow: Overflow::Wide,
            })
        },
        StoryId::SelectionActions => {
            Some(StoryMeta {
                category: "Readable output",
                summary: "Ask, explain, and rewrite actions anchored to selected Markdown.",
                module: "selection_actions",
                api: "SelectionActions",
                lineage: Lineage::Composes,
                lineage_basis: "TextViewState, Positioner",
                lineage_note: "Actions anchored to a selection inside rendered Markdown, which needs the text view's own selection state rather than a copy of it.",
                usage: usage::SELECTION_ACTIONS,
                height: 288,
                width: StoryWidth::Column,
                overflow: Overflow::Wide,
            })
        },
        StoryId::Form => {
            Some(StoryMeta {
                category: "Human in the loop",
                summary: "Single-choice groups and toggles in the library's own grammar.",
                module: "form",
                api: "ChoiceGroup",
                lineage: Lineage::New,
                lineage_basis: "",
                lineage_note: "One choice from a set, and one switch between two states. Upstream's radio and checkbox are styled on their outer frame only - the box, its radius, its fill and its size are fixed inside render - so a wrapped one arrives with a look no styling can bring into line with the controls beside it.",
                usage: usage::CHOICE_GROUP,
                height: 300,
                width: StoryWidth::Column,
                overflow: Overflow::Vertical,
            })
        },
        StoryId::QuestionFlow => {
            Some(StoryMeta {
                category: "Human in the loop",
                summary: "A short sequence of questions an agent asks before it acts.",
                module: "question_flow",
                api: "QuestionFlow",
                lineage: Lineage::New,
                lineage_basis: "",
                lineage_note: "The short sequence an agent asks before it acts: one question at a time, the place in the sequence stated, and a way past a question that does not apply.",
                usage: usage::QUESTION_FLOW,
                height: 340,
                width: StoryWidth::Column,
                overflow: Overflow::Vertical,
            })
        },
    }
}

/// The name each story goes by in code: its variant's name.
pub open spec fn variant_name(id: StoryId) -> Seq<char> {
    match id {
        StoryId::All => "All"@,
        StoryId::Loading => "Loading"@,
        StoryId::Status => "Status"@,
        StoryId::ToolChips => "ToolChips"@,
        StoryId::ToolCalls => "ToolCalls"@,
        StoryId::Tasks => "Tasks"@,
        StoryId::Thinking => "Thinking"@,
        StoryId::Orbs => "Orbs"@,
        StoryId::Search => "Search"@,
        StoryId::Todos => "Todos"@,
        StoryId::ImageGeneration => "ImageGeneration"@,
        StoryId::StreamingText => "StreamingText"@,
        StoryId::Chat => "Chat"@,
        StoryId::Suggestions => "Suggestions"@,
        StoryId::Attachments => "Attachments"@,
        StoryId::Artifact => "Artifact"@,
        StoryId::ContextMeter => "ContextMeter"@,
        StoryId::CommandSearch => "CommandSearch"@,
        StoryId::SidebarNav => "SidebarNav"@,
        StoryId::ThreadList => "ThreadList"@,
        StoryId::FineTune => "FineTune"@,
        StoryId::RecordsTable => "RecordsTable"@,
        StoryId::DiffTable => "DiffTable"@,
        StoryId::FilterTable => "FilterTable"@,
        StoryId::ComparisonTable => "ComparisonTable"@,
        StoryId::CodeBlock => "CodeBlock"@,
        StoryId::CodeDiff => "CodeDiff"@,
        StoryId::Approval => "Approval"@,
        StoryId::Plan => "Plan"@,
        StoryId::Recommendation => "Recommendation"@,
        StoryId::Context => "Context"@,
        StoryId::Insights => "Insights"@,
        StoryId::PromptBar => "PromptBar"@,
        StoryId::Voice => "Voice"@,
        StoryId::Queue => "Queue"@,
        StoryId::SelectionActions => "SelectionActions"@,
        StoryId::Form => "Form"@,
        StoryId::QuestionFlow => "QuestionFlow"@,
        StoryId::GuidedDemo => "GuidedDemo"@,
        StoryId::Decorations => "Decorations"@,
        StoryId::MotionLab => "MotionLab"@,
        StoryId::ThemesTrio => "ThemesTrio"@,
        StoryId::DockComposition => "DockComposition"@,
    }
}

/// Whether `slug` is the kebab-case form of the CamelCase `name`: each
/// capital lowercased, and preceded by a hyphen unless it starts the name.
pub open spec fn kebab_of(name: Seq<char>, slug: Seq<char>, at_start: bool) -> bool
    decreases name.len(),
{
    if name.len() == 0 {
        slug.len() == 0
    } else if 'A' <= name[0] <= 'Z' {
        if at_start {
            &&& slug.len() >= 1
            &&& slug[0] as int == name[0] as int + 32
            &&& kebab_of(name.drop_first(), slug.drop_first(), false)
        } else {
            &&& slug.len() >= 2
            &&& slug[0] == '-'
            &&& slug[1] as int == name[0] as int + 32
            &&& kebab_of(name.drop_first(), slug.skip(2), false)
        }
    } else {
        &&& slug.len() >= 1
        &&& slug[0] == name[0]
        &&& kebab_of(name.drop_first(), slug.drop_first(), false)
    }
}

/// The story whose slug is `slug`, if any.
pub open spec fn story_for(slug: Seq<char>) -> Option<StoryId> {
    if exists|id: StoryId| slug_of(id) == slug {
        Some(choose|id: StoryId| slug_of(id) == slug)
    } else {
        None
    }
}

/// The stable URL slug of each story.
pub open spec fn slug_of(id: StoryId) -> Seq<char> {
    match id {
        StoryId::All => "all"@,
        StoryId::Loading => "loading"@,
        StoryId::Status => "status"@,
        StoryId::ToolChips => "tool-chips"@,
        StoryId::ToolCalls => "tool-calls"@,
        StoryId::Tasks => "tasks"@,
        StoryId::Thinking => "thinking"@,
        StoryId::Orbs => "orbs"@,
        StoryId::Search => "search"@,
        StoryId::Todos => "todos"@,
        StoryId::ImageGeneration => "image-generation"@,
        StoryId::StreamingText => "streaming-text"@,
        StoryId::Chat => "chat"@,
        StoryId::Suggestions => "suggestions"@,
        StoryId::Attachments => "attachments"@,
        StoryId::Artifact => "artifact"@,
        StoryId::ContextMeter => "context-meter"@,
        StoryId::CommandSearch => "command-search"@,
        StoryId::SidebarNav => "sidebar-nav"@,
        StoryId::ThreadList => "thread-list"@,
        StoryId::FineTune => "fine-tune"@,
        StoryId::RecordsTable => "records-table"@,
        StoryId::DiffTable => "diff-table"@,
        StoryId::FilterTable => "filter-table"@,
        StoryId::ComparisonTable => "comparison-table"@,
        StoryId::CodeBlock => "code-block"@,
        StoryId::CodeDiff => "code-diff"@,
        StoryId::Approval => "approval"@,
        StoryId::Plan => "plan"@,
        StoryId::Recommendation => "recommendation"@,
        StoryId::Context => "context"@,
        StoryId::Insights => "insights"@,
        StoryId::PromptBar => "prompt-bar"@,
        StoryId::Voice => "voice"@,
        StoryId::Queue => "queue"@,
        StoryId::SelectionActions => "selection-actions"@,
        StoryId::Form => "form-controls"@,
        StoryId::QuestionFlow => "question-flow"@,
        StoryId::GuidedDemo => "guided-demo"@,
        StoryId::Decorations => "decorations"@,
        StoryId::MotionLab => "motion-lab"@,
        StoryId::ThemesTrio => "themes-trio"@,
        StoryId::DockComposition => "dock-composition"@,
    }
}

/// The human-readable title of each story.
pub open spec fn title_of(id: StoryId) -> Seq<char> {
    match id {
        StoryId::All => "All components"@,
        StoryId::Loading => "Loading state"@,
        StoryId::Status => "Status badge"@,
        StoryId::ToolChips => "Tool chips"@,
        StoryId::ToolCalls => "Tool calls"@,
        StoryId::Tasks => "Task rows"@,
        StoryId::Thinking => "Thinking"@,
        StoryId::Orbs => "Orbs"@,
        StoryId::Search => "Web search"@,
        StoryId::Todos => "To-do list"@,
        StoryId::ImageGeneration => "Image generation"@,
        StoryId::StreamingText => "Streaming text"@,
        StoryId::Chat => "Chat"@,
        StoryId::Suggestions => "Suggestions"@,
        StoryId::Attachments => "Attachment previews"@,
        StoryId::Artifact => "Artifact panel"@,
        StoryId::ContextMeter => "Context meter"@,
        StoryId::CommandSearch => "Command search"@,
        StoryId::SidebarNav => "Sidebar navigation"@,
        StoryId::ThreadList => "Thread list"@,
        StoryId::FineTune => "Fine-tune card"@,
        StoryId::RecordsTable => "Records table"@,
        StoryId::DiffTable => "Diff table"@,
        StoryId::FilterTable => "Filter table"@,
        StoryId::ComparisonTable => "Comparison table"@,
        StoryId::CodeBlock => "Code block"@,
        StoryId::CodeDiff => "Code diff"@,
        StoryId::Approval => "Approval card"@,
        StoryId::Plan => "Plan card"@,
        StoryId::Recommendation => "Recommendation card"@,
        StoryId::Context => "Context cards"@,
        StoryId::Insights => "Insight card"@,
        StoryId::PromptBar => "Prompt bar"@,
        StoryId::Voice => "Voice controls"@,
        StoryId::Queue => "Message queue"@,
        StoryId::SelectionActions => "Selection actions"@,
        StoryId::Form => "Form controls"@,
        StoryId::QuestionFlow => "Question flow"@,
        StoryId::GuidedDemo => "Guided demo"@,
        StoryId::Decorations => "Decorations"@,
        StoryId::MotionLab => "Motion lab"@,
        StoryId::ThemesTrio => "Themes trio"@,
        StoryId::DockComposition => "Dock composition"@,
    }
}

/// Whether a story documents a component, and so belongs in the catalog:
/// every story but the whole-catalog view, the site hero, the themes-page
/// specimen, the decorations demonstration, the dock interoperability proof
/// and the motion instrument.
pub open spec fn is_component(id: StoryId) -> bool {
    match id {
        StoryId::All
        | StoryId::GuidedDemo
        | StoryId::Decorations
        | StoryId::ThemesTrio
        | StoryId::DockComposition
        | StoryId::MotionLab => false,
        _ => true,
    }
}

/// Whether `s` is a snake_case module stem: lowercase ASCII and underscores.
pub open spec fn is_snake_case(s: Seq<char>) -> bool {
    forall|i: int| 0 <= i < s.len() ==> ('a' <= #[trigger] s[i] <= 'z' || s[i] == '_')
}

/// Whether `s` is usable in a URL slug: lowercase ASCII, digits and hyphens.
pub open spec fn is_slug_text(s: Seq<char>) -> bool {
    forall|i: int| 0 <= i < s.len() ==> ('a' <= #[trigger] s[i] <= 'z' || '0' <= s[i] <= '9' || s[i] == '-')
}

/// What every catalog entry carries: a category, a real summary rather
/// than a label, a snake_case module, a named public type, a basis exactly
/// when it is built on an upstream component, and a height to reserve.
pub open spec fn meta_ok(m: StoryMeta) -> bool {
    &&& m.category@.len() > 0
    &&& m.summary@.len() > 20
    &&& m.module@.len() > 0
    &&& is_snake_case(m.module@)
    &&& m.api@.len() > 0
    &&& (m.lineage_basis@.len() == 0 <==> m.lineage == Lineage::New)
    &&& m.height > 0
}

/// The switcher states of each story.
pub open spec fn variants_of(id: StoryId) -> Seq<(&'static str, &'static str)> {
    match id {
        StoryId::Chat => CHAT_STORY_VARIANTS@,
        StoryId::PromptBar => PROMPT_BAR_STORY_VARIANTS@,
        StoryId::CommandSearch => COMMAND_SEARCH_STORY_VARIANTS@,
        StoryId::Decorations => DECORATION_STORY_VARIANTS@,
        StoryId::Form => FORM_STORY_VARIANTS@,
        StoryId::RecordsTable
        | StoryId::DiffTable
        | StoryId::FilterTable
        | StoryId::ComparisonTable => TABLE_STORY_VARIANTS@,
        _ => Seq::empty(),
    }
}

/// Whether a switcher's states have distinct slug ids and non-empty labels.
pub open spec fn variants_ok(v: Seq<(&'static str, &'static str)>) -> bool {
    &&& forall|i: int| 0 <= i < v.len() ==> is_slug_text((#[trigger] v[i]).0@)
    &&& forall|i: int| 0 <= i < v.len() ==> (#[trigger] v[i]).1@.len() > 0
    &&& forall|i: int, j: int| 0 <= i < j < v.len() ==> (#[trigger] v[i]).0@ != (#[trigger] v[j]).0@
}

impl StoryId {
    /// Every individually addressable component story, in catalog order.
    pub const ALL: [Self; 37] = [
        Self::Loading,
        Self::Status,
        Self::ToolChips,
        Self::ToolCalls,
        Self::Tasks,
        Self::Thinking,
        Self::Orbs,
        Self::Search,
        Self::Todos,
        Self::ImageGeneration,
        Self::StreamingText,
        Self::Chat,
        Self::Suggestions,
        Self::Attachments,
        Self::Artifact,
        Self::ContextMeter,
        Self::CommandSearch,
        Self::SidebarNav,
        Self::ThreadList,
        Self::FineTune,
        Self::RecordsTable,
        Self::DiffTable,
        Self::FilterTable,
        Self::ComparisonTable,
        Self::CodeBlock,
        Self::CodeDiff,
        Self::Approval,
        Self::Plan,
        Self::Recommendation,
        Self::Context,
        Self::Insights,
        Self::PromptBar,
        Self::Voice,
        Self::Queue,
        Self::SelectionActions,
        Self::Form,
        Self::QuestionFlow,
    ];

    /// Stable URL slug for this selection.
    pub fn slug(self) -> (r: &'static str)
        ensures
            r@ == slug_of(self),
    {
        match self {
            Self::All => "all",
            Self::Loading => "loading",
            Self::Status => "status",
            Self::ToolChips => "tool-chips",
            Self::ToolCalls => "tool-calls",
            Self::Tasks => "tasks",
            Self::Thinking => "thinking",
            Self::Orbs => "orbs",
            Self::Search => "search",
            Self::Todos => "todos",
            Self::ImageGeneration => "image-generation",
            Self::StreamingText => "streaming-text",
            Self::Chat => "chat",
            Self::Suggestions => "suggestions",
            Self::Attachments => "attachments",
            Self::Artifact => "artifact",
            Self::ContextMeter => "context-meter",
            Self::CommandSearch => "command-search",
            Self::SidebarNav => "sidebar-nav",
            Self::ThreadList => "thread-list",
            Self::FineTune => "fine-tune",
            Self::RecordsTable => "records-table",
            Self::DiffTable => "diff-table",
            Self::FilterTable => "filter-table",
            Self::ComparisonTable => "comparison-table",
            Self::CodeBlock => "code-block",
            Self::CodeDiff => "code-diff",
            Self::Approval => "approval",
            Self::Plan => "plan",
            Self::Recommendation => "recommendation",
            Self::Context => "context",
            Self::Insights => "insights",
            Self::PromptBar => "prompt-bar",
            Self::Voice => "voice",
            Self::Queue => "queue",
            Self::SelectionActions => "selection-actions",
            Self::Form => "form-controls",
            Self::QuestionFlow => "question-flow",
            Self::GuidedDemo => "guided-demo",
            Self::Decorations => "decorations",
            Self::MotionLab => "motion-lab",
            Self::ThemesTrio => "themes-trio",
            Self::DockComposition => "dock-composition",
        }
    }

    /// Human-readable story title.
    pub fn title(self) -> (r: &'static str)
        ensures
            r@ == title_of(self),
            r@.len() > 0,
    {
        match self {
            Self::All => {
                proof {
                    reveal_strlit("All components");
                }
                "All components"
            },
            Self::Loading => {
                proof {
                    reveal_strlit("Loading state");
                }
                "Loading state"
            },
            Self::Status => {
                proof {
                    reveal_strlit("Status badge");
                }
                "Status badge"
            },
            Self::ToolChips => {
                proof {
                    reveal_strlit("Tool chips");
                }
                "Tool chips"
            },
            Self::ToolCalls => {
                proof {
                    reveal_strlit("Tool calls");
                }
                "Tool calls"
            },
            Self::Tasks => {
                proof {
                    reveal_strlit("Task rows");
                }
                "Task rows"
            },
            Self::Thinking => {
                proof {
                    reveal_strlit("Thinking");
                }
                "Thinking"
            },
            Self::Orbs => {
                proof {
                    reveal_strlit("Orbs");
                }
                "Orbs"
            },
            Self::Search => {
                proof {
                    reveal_strlit("Web search");
                }
                "Web search"
            },
            Self::Todos => {
                proof {
                    reveal_strlit("To-do list");
                }
                "To-do list"
            },
            Self::ImageGeneration => {
                proof {
                    reveal_strlit("Image generation");
                }
                "Image generation"
            },
            Self::StreamingText => {
                proof {
                    reveal_strlit("Streaming text");
                }
                "Streaming text"
            },
            Self::Chat => {
                proof {
                    reveal_strlit("Chat");
                }
                "Chat"
            },
            Self::Suggestions => {
                proof {
                    reveal_strlit("Suggestions");
                }
                "Suggestions"
            },
            Self::Attachments => {
                proof {
                    reveal_strlit("Attachment previews");
                }
                "Attachment previews"
            },
            Self::Artifact => {
                proof {
                    reveal_strlit("Artifact panel");
                }
                "Artifact panel"
            },
            Self::ContextMeter => {
                proof {
                    reveal_strlit("Context meter");
                }
                "Context meter"
            },
            Self::CommandSearch => {
                proof {
                    reveal_strlit("Command search");
                }
                "Command search"
            },
            Self::SidebarNav => {
                proof {
                    reveal_strlit("Sidebar navigation");
                }
                "Sidebar navigation"
            },
            Self::ThreadList => {
                proof {
                    reveal_strlit("Thread list");
                }
                "Thread list"
            },
            Self::FineTune => {
                proof {
                    reveal_strlit("Fine-tune card");
                }
                "Fine-tune card"
            },
            Self::RecordsTable => {
                proof {
                    reveal_strlit("Records table");
                }
                "Records table"
            },
            Self::DiffTable => {
                proof {
                    reveal_strlit("Diff table");
                }
                "Diff table"
            },
            Self::FilterTable => {
                proof {
                    reveal_strlit("Filter table");
                }
                "Filter table"
            },
            Self::ComparisonTable => {
                proof {
                    reveal_strlit("Comparison table");
                }
                "Comparison table"
            },
            Self::CodeBlock => {
                proof {
                    reveal_strlit("Code block");
                }
                "Code block"
            },
            Self::CodeDiff => {
                proof {
                    reveal_strlit("Code diff");
                }
                "Code diff"
            },
            Self::Approval => {
                proof {
                    reveal_strlit("Approval card");
                }
                "Approval card"
            },
            Self::Plan => {
                proof {
                    reveal_strlit("Plan card");
                }
                "Plan card"
            },
            Self::Recommendation => {
                proof {
                    reveal_strlit("Recommendation card");
                }
                "Recommendation card"
            },
            Self::Context => {
                proof {
                    reveal_strlit("Context cards");
                }
                "Context cards"
            },
            Self::Insights => {
                proof {
                    reveal_strlit("Insight card");
                }
                "Insight card"
            },
            Self::PromptBar => {
                proof {
                    reveal_strlit("Prompt bar");
                }
                "Prompt bar"
            },
            Self::Voice => {
                proof {
                    reveal_strlit("Voice controls");
                }
                "Voice controls"
            },
            Self::Queue => {
                proof {
                    reveal_strlit("Message queue");
                }
                "Message queue"
            },
            Self::SelectionActions => {
                proof {
                    reveal_strlit("Selection actions");
                }
                "Selection actions"
            },
            Self::Form => {
                proof {
                    reveal_strlit("Form controls");
                }
                "Form controls"
            },
            Self::QuestionFlow => {
                proof {
                    reveal_strlit("Question flow");
                }
                "Question flow"
            },
            Self::GuidedDemo => {
                proof {
                    reveal_strlit("Guided demo");
                }
                "Guided demo"
            },
            Self::Decorations => {
                proof {
                    reveal_strlit("Decorations");
                }
                "Decorations"
            },
            Self::MotionLab => {
                proof {
                    reveal_strlit("Motion lab");
                }
                "Motion lab"
            },
            Self::ThemesTrio => {
                proof {
                    reveal_strlit("Themes trio");
                }
                "Themes trio"
            },
            Self::DockComposition => {
                proof {
                    reveal_strlit("Dock composition");
                }
                "Dock composition"
            },
        }
    }

    /// Catalog metadata for the website.
    ///
    /// [`StoryId::All`] is the whole-catalog view rather than a component, so
    /// it has no entry.
    pub fn meta(self) -> (r: Option<StoryMeta>)
        ensures
            r == meta_of(self),
            r is Some <==> is_component(self),
            r matches Some(m) ==> meta_ok(m),
    {
        match self {
            // Neither the catalog view, the site hero, the themes-page
            // specimen, the dock interoperability proof, nor the motion
            // instrument is a component.
            Self::All
            | Self::GuidedDemo
            | Self::Decorations
            | Self::ThemesTrio
            | Self::DockComposition
            | Self::MotionLab => None,
            Self::Loading => {
                proof {
                    reveal_strlit("Progress");
                    reveal_strlit("A token-driven pixel field for work whose duration is not yet known.");
                    reveal_strlit("loading");
                    reveal_strlit("LoadingState");
                    reveal_strlit("");
                }
                Some(StoryMeta {
                    category: "Progress",
                    summary: "A token-driven pixel field for work whose duration is not yet known.",
                    module: "loading",
                    api: "LoadingState",
                    lineage: Lineage::New,
                    lineage_basis: "",
                    lineage_note: "An animated pixel grid with elapsed time, for waits long enough that a spinner stops meaning anything.",
                    usage: usage::LOADING_STATE,
                    height: 52,
                    width: StoryWidth::Column,
                    overflow: Overflow::Wide,
                })
            },
            Self::Status => {
                proof {
                    reveal_strlit("Progress");
                    reveal_strlit("One status pill for every lifecycle, swapping states in a fixed slot.");
                    reveal_strlit("status");
                    reveal_strlit("StatusBadge");
                    reveal_strlit("");
                }
                Some(StoryMeta {
                    category: "Progress",
                    summary: "One status pill for every lifecycle, swapping states in a fixed slot.",
                    module: "status",
                    api: "StatusBadge",
                    lineage: Lineage::New,
                    lineage_basis: "",
                    lineage_note: "One status vocabulary - pending, running, completed, failed - mapped onto the theme's semantic colours once and shared by chips, task rows, tool calls and plan steps. Upstream's badge is a pill with no lifecycle in it.",
                    usage: usage::STATUS_BADGE,
                    height: 84,
                    width: StoryWidth::Column,
                    overflow: Overflow::Wide,
                })
            },
            Self::ToolChips => {
                proof {
                    reveal_strlit("Agent work");
                    reveal_strlit("Compact, typed status for tool calls without hiding their lifecycle.");
                    reveal_strlit("chip");
                    reveal_strlit("ToolChip");
                    reveal_strlit("");
                }
                Some(StoryMeta {
                    category: "Agent work",
                    summary: "Compact, typed status for tool calls without hiding their lifecycle.",
                    module: "chip",
                    api: "ToolChip",
                    lineage: Lineage::New,
                    lineage_basis: "",
                    lineage_note: "The compact form of the same thing, for a transcript that should not become a list of cards.",
                    usage: usage::TOOL_CHIP,
                    height: 84,
                    width: StoryWidth::Column,
                    overflow: Overflow::Wide,
                })
            },
            Self::ToolCalls => {
                proof {
                    reveal_strlit("Agent work");
                    reveal_strlit("Collapsible tool-call cards with input, output, approval, and a shimmering group.");
                    reveal_strlit("tool_call");
                    reveal_strlit("ToolCall");
                    reveal_strlit("");
                }
                Some(StoryMeta {
                    category: "Agent work",
                    summary: "Collapsible tool-call cards with input, output, approval, and a shimmering group.",
                    module: "tool_call",
                    api: "ToolCall",
                    lineage: Lineage::New,
                    lineage_basis: "",
                    lineage_note: "One invocation: name, summary, status, and on expansion the input sent, the output returned or the reason it failed, with Allow and Deny where a person has to decide. Groups fold a burst of them.",
                    usage: usage::TOOL_CALL,
                    height: 618,
                    width: StoryWidth::Column,
                    overflow: Overflow::Vertical,
                })
            },
            Self::Tasks => {
                proof {
                    reveal_strlit("Agent work");
                    reveal_strlit("Progressive task rows with stable identity and readable state.");
                    reveal_strlit("task");
                    reveal_strlit("TaskRow");
                    reveal_strlit("");
                }
                Some(StoryMeta {
                    category: "Agent work",
                    summary: "Progressive task rows with stable identity and readable state.",
                    module: "task",
                    api: "TaskRow",
                    lineage: Lineage::New,
                    lineage_basis: "",
                    lineage_note: "Live status for long-running agent work.",
                    usage: usage::TASK_ROW,
                    height: 144,
                    width: StoryWidth::Column,
                    overflow: Overflow::Wide,
                })
            },
            Self::Thinking => {
                proof {
                    reveal_strlit("Progress");
                    reveal_strlit("Expandable reasoning traces in structured step and prose forms.");
                    reveal_strlit("thinking");
                    reveal_strlit("Thinking");
                    reveal_strlit("");
                }
                Some(StoryMeta {
                    category: "Progress",
                    summary: "Expandable reasoning traces in structured step and prose forms.",
                    module: "thinking",
                    api: "Thinking",
                    lineage: Lineage::New,
                    lineage_basis: "",
                    lineage_note: "A reasoning trace that opens itself while it runs, follows the newest steps, holds the reader's place when they scroll back, and collapses to a single line when it settles.",
                    usage: usage::THINKING,
                    height: 260,
                    width: StoryWidth::Column,
                    overflow: Overflow::Wide,
                })
            },
            Self::Orbs => {
                proof {
                    reveal_strlit("Progress");
                    reveal_strlit("A reduced-motion-aware ambient signal for background AI activity.");
                    reveal_strlit("orbs");
                    reveal_strlit("Orbs");
                    reveal_strlit("");
                }
                Some(StoryMeta {
                    category: "Progress",
                    summary: "A reduced-motion-aware ambient signal for background AI activity.",
                    module: "orbs",
                    api: "Orbs",
                    lineage: Lineage::New,
                    lineage_basis: "",
                    lineage_note: "Ambient motion for the moments when a model is alive but has nothing to show yet: one dot lattice, several choreographed personalities.",
                    usage: usage::ORBS,
                    height: 195,
                    width: StoryWidth::Column,
                    overflow: Overflow::Wide,
                })
            },
            Self::Search => {
                proof {
                    reveal_strlit("Agent work");
                    reveal_strlit("Search results with readable citations, metadata, and progressive state.");
                    reveal_strlit("search_results");
                    reveal_strlit("SearchResults");
                    reveal_strlit("");
                }
                Some(StoryMeta {
                    category: "Agent work",
                    summary: "Search results with readable citations, metadata, and progressive state.",
                    module: "search_results",
                    api: "SearchResults",
                    lineage: Lineage::New,
                    lineage_basis: "",
                    lineage_note: "Web-search tool output: the query, its results, and the sources behind them.",
                    usage: usage::SEARCH_RESULTS,
                    height: 161,
                    width: StoryWidth::Column,
                    overflow: Overflow::Wide,
                })
            },
            Self::Todos => {
                proof {
                    reveal_strlit("Agent work");
                    reveal_strlit("A stable-ID checklist for plans that change while an agent works.");
                    reveal_strlit("todo_list");
                    reveal_strlit("TodoList");
                    reveal_strlit("");
                }
                Some(StoryMeta {
                    category: "Agent work",
                    summary: "A stable-ID checklist for plans that change while an agent works.",
                    module: "todo_list",
                    api: "TodoList",
                    lineage: Lineage::New,
                    lineage_basis: "",
                    lineage_note: "The plan an agent is working through, with completion arriving item by item.",
                    usage: usage::TODO_LIST,
                    height: 234,
                    width: StoryWidth::Column,
                    overflow: Overflow::Wide,
                })
            },
            Self::ImageGeneration => {
                proof {
                    reveal_strlit("Agent work");
                    reveal_strlit("Image generation progress, preview, and error states in one frame.");
                    reveal_strlit("image_generation");
                    reveal_strlit("ImageGeneration");
                    reveal_strlit("");
                }
                Some(StoryMeta {
                    category: "Agent work",
                    summary: "Image generation progress, preview, and error states in one frame.",
                    module: "image_generation",
                    api: "ImageGeneration",
                    lineage: Lineage::New,
                    lineage_basis: "",
                    lineage_note: "A picture revealed as it is produced rather than swapped in when it is done.",
                    usage: usage::IMAGE_GENERATION,
                    height: 212,
                    width: StoryWidth::Column,
                    overflow: Overflow::Wide,
                })
            },
            Self::StreamingText => {
                proof {
                    reveal_strlit("Readable output");
                    reveal_strlit("Selectable streaming Markdown with citations, sources, and follow-ups.");
                    reveal_strlit("streaming_text");
                    reveal_strlit("StreamingText");
                    reveal_strlit("TextView, HoverCard, Link");
                }
                Some(StoryMeta {
                    category: "Readable output",
                    summary: "Selectable streaming Markdown with citations, sources, and follow-ups.",
                    module: "streaming_text",
                    api: "StreamingText",
                    lineage: Lineage::Composes,
                    lineage_basis: "TextView, HoverCard, Link",
                    lineage_note: "Markdown that arrives a token at a time, with citations that resolve on hover and follow-up suggestions underneath. Upstream renders markdown it already has.",
                    usage: usage::STREAMING_TEXT,
                    height: 426,
                    width: StoryWidth::Column,
                    overflow: Overflow::Vertical,
                })
            },
            Self::Chat => {
                proof {
                    reveal_strlit("Composites");
                    reveal_strlit("A virtualized controlled conversation with tail-follow, unread behavior, in-place edit, and branch versions.");
                    reveal_strlit("chat");
                    reveal_strlit("Chat");
                    reveal_strlit("Textarea, list");
                }
                Some(StoryMeta {
                    category: "Composites",
                    summary: "A virtualized controlled conversation with tail-follow, unread behavior, in-place edit, and branch versions.",
                    module: "chat",
                    api: "Chat",
                    lineage: Lineage::Composes,
                    lineage_basis: "Textarea, list",
                    lineage_note: "A virtualized, controlled transcript: unread reconciliation, jump to latest, and an anchor that survives messages arriving off screen. Upstream now has a MessageScroller that follows the tail and holds the anchor too; what it leaves to the application is the meaning of unread, and what this adds above it is the transcript itself - streaming answers, tool calls, and the prompt bar under them.",
                    usage: usage::CHAT,
                    height: 595,
                    width: StoryWidth::Wide,
                    overflow: Overflow::Vertical,
                })
            },
            Self::Suggestions => {
                proof {
                    reveal_strlit("Composites");
                    reveal_strlit("Starter and follow-up prompt chips that ripple in and report stable IDs.");
                    reveal_strlit("suggestions");
                    reveal_strlit("Suggestions");
                    reveal_strlit("");
                }
                Some(StoryMeta {
                    category: "Composites",
                    summary: "Starter and follow-up prompt chips that ripple in and report stable IDs.",
                    module: "suggestions",
                    api: "Suggestions",
                    lineage: Lineage::New,
                    lineage_basis: "",
                    lineage_note: "The prompts an assistant offers before it has been asked anything.",
                    usage: usage::SUGGESTIONS,
                    height: 132,
                    width: StoryWidth::Column,
                    overflow: Overflow::Wide,
                })
            },
            Self::Attachments => {
                proof {
                    reveal_strlit("Composites");
                    reveal_strlit("Composer and message attachments with thumbnails, kinds, upload state, and typed open or remove events.");
                    reveal_strlit("attachment");
                    reveal_strlit("AttachmentStrip");
                    reveal_strlit("");
                }
                Some(StoryMeta {
                    category: "Composites",
                    summary: "Composer and message attachments with thumbnails, kinds, upload state, and typed open or remove events.",
                    module: "attachment",
                    api: "AttachmentStrip",
                    lineage: Lineage::New,
                    lineage_basis: "",
                    lineage_note: "Files on their way into a prompt, with upload progress and failure shown per item. Upstream ships an Attachment of its own now, and is explicit that it is a composition primitive: it lays out a preview, a title and actions, and leaves upload state, retry and selection to the application. This owns that lifecycle, which is the part an agent surface cannot avoid.",
                    usage: usage::ATTACHMENT_STRIP,
                    height: 486,
                    width: StoryWidth::Column,
                    overflow: Overflow::Vertical,
                })
            },
            Self::Artifact => {
                proof {
                    reveal_strlit("Composites");
                    reveal_strlit("A side panel for generated documents and code with preview and source views, versions, actions, and streaming state.");
                    reveal_strlit("artifact");
                    reveal_strlit("ArtifactPanel");
                    reveal_strlit("tab::TabBar");
                }
                Some(StoryMeta {
                    category: "Composites",
                    summary: "A side panel for generated documents and code with preview and source views, versions, actions, and streaming state.",
                    module: "artifact",
                    api: "ArtifactPanel",
                    lineage: Lineage::Composes,
                    lineage_basis: "tab::TabBar",
                    lineage_note: "A generated document beside the conversation, with preview and source, a version switcher, and streamed content so the panel renders while the agent is still writing.",
                    usage: usage::ARTIFACT_PANEL,
                    height: 504,
                    width: StoryWidth::Wide,
                    overflow: Overflow::Vertical,
                })
            },
            Self::ContextMeter => {
                proof {
                    reveal_strlit("Progress");
                    reveal_strlit("Context-window usage as a ring, bar, or text with severity tones and a breakdown.");
                    reveal_strlit("context_meter");
                    reveal_strlit("ContextMeter");
                    reveal_strlit("ProgressCircle, HoverCard");
                }
                Some(StoryMeta {
                    category: "Progress",
                    summary: "Context-window usage as a ring, bar, or text with severity tones and a breakdown.",
                    module: "context_meter",
                    api: "ContextMeter",
                    lineage: Lineage::Composes,
                    lineage_basis: "ProgressCircle, HoverCard",
                    lineage_note: "How much of the model's context window a conversation has spent, as a ring, a bar or plain text, with the tone changing as it fills and the numbers exposed semantically so the level never depends on colour alone.",
                    usage: usage::CONTEXT_METER,
                    height: 120,
                    width: StoryWidth::Column,
                    overflow: Overflow::Wide,
                })
            },
            Self::CommandSearch => {
                proof {
                    reveal_strlit("Navigation");
                    reveal_strlit("Keyboard-first command discovery backed by stable application IDs.");
                    reveal_strlit("command_search");
                    reveal_strlit("CommandSearch");
                    reveal_strlit("command::CommandState");
                }
                Some(StoryMeta {
                    category: "Navigation",
                    summary: "Keyboard-first command discovery backed by stable application IDs.",
                    module: "command_search",
                    api: "CommandSearch",
                    lineage: Lineage::Extends,
                    lineage_basis: "command::CommandState",
                    lineage_note: "Stable-ID items over the native palette, so a result keeps its identity as the ranking moves under it and the selection does not jump to whatever now sits at that index.",
                    usage: usage::COMMAND_SEARCH,
                    height: 387,
                    width: StoryWidth::Wide,
                    overflow: Overflow::Vertical,
                })
            },
            Self::SidebarNav => {
                proof {
                    reveal_strlit("Navigation");
                    reveal_strlit("Filterable, accessible navigation for growing AI workspaces.");
                    reveal_strlit("sidebar_nav");
                    reveal_strlit("SidebarNav");
                    reveal_strlit("sidebar::SidebarMenuItem");
                }
                Some(StoryMeta {
                    category: "Navigation",
                    summary: "Filterable, accessible navigation for growing AI workspaces.",
                    module: "sidebar_nav",
                    api: "SidebarNav",
                    lineage: Lineage::Extends,
                    lineage_basis: "sidebar::SidebarMenuItem",
                    lineage_note: "Flattens the tree into one virtualized list, so a section holding ten thousand items costs what the viewport shows rather than what the section holds. Adds a retained filter input, roving focus with tree semantics, and a rail that glides between its widths.",
                    usage: usage::SIDEBAR_NAV,
                    height: 476,
                    width: StoryWidth::Column,
                    overflow: Overflow::Vertical,
                })
            },
            Self::ThreadList => {
                proof {
                    reveal_strlit("Navigation");
                    reveal_strlit("A grouped conversation list with search, archived threads, and typed row actions.");
                    reveal_strlit("thread_list");
                    reveal_strlit("ThreadList");
                    reveal_strlit("Input, Popover, PopupMenu");
                }
                Some(StoryMeta {
                    category: "Navigation",
                    summary: "A grouped conversation list with search, archived threads, and typed row actions.",
                    module: "thread_list",
                    api: "ThreadList",
                    lineage: Lineage::Composes,
                    lineage_basis: "Input, Popover, PopupMenu",
                    lineage_note: "Conversations grouped into sections, with search, an archive toggle and a per-row overflow menu. Every intent goes back to the application rather than being acted on here.",
                    usage: usage::THREAD_LIST,
                    height: 436,
                    width: StoryWidth::Wide,
                    overflow: Overflow::Vertical,
                })
            },
            Self::FineTune => {
                proof {
                    reveal_strlit("Composites");
                    reveal_strlit("A controlled property inspector for precise model and design settings.");
                    reveal_strlit("fine_tune");
                    reveal_strlit("FineTuneCard");
                    reveal_strlit("ColorPicker, Slider, Input");
                }
                Some(StoryMeta {
                    category: "Composites",
                    summary: "A controlled property inspector for precise model and design settings.",
                    module: "fine_tune",
                    api: "FineTuneCard",
                    lineage: Lineage::Composes,
                    lineage_basis: "ColorPicker, Slider, Input",
                    lineage_note: "Upstream's own controls arranged as one controlled inspector that reports every change rather than owning it.",
                    usage: usage::FINE_TUNE_CARD,
                    height: 738,
                    width: StoryWidth::Wide,
                    overflow: Overflow::Vertical,
                })
            },
            Self::RecordsTable => {
                proof {
                    reveal_strlit("Data tables");
                    reveal_strlit("A controlled virtualized records grid for large, changing datasets.");
                    reveal_strlit("records_table");
                    reveal_strlit("RecordsTable");
                    reveal_strlit("table::DataTable");
                }
                Some(StoryMeta {
                    category: "Data tables",
                    summary: "A controlled virtualized records grid for large, changing datasets.",
                    module: "records_table",
                    api: "RecordsTable",
                    lineage: Lineage::Extends,
                    lineage_basis: "table::DataTable",
                    lineage_note: "Adds controlled snapshots with stable row IDs, so a row keeps its identity when the data is replaced; progressive states drawn inside the grid; columns that divide the table's width; and a footer. Upstream's grid draws data that has arrived, and an agent's grid has to draw while it is still arriving.",
                    usage: usage::RECORDS_TABLE,
                    height: 288,
                    width: StoryWidth::Wide,
                    overflow: Overflow::Wide,
                })
            },
            Self::DiffTable => {
                proof {
                    reveal_strlit("Data tables");
                    reveal_strlit("A virtualized before-and-after proposal grid with explicit change state.");
                    reveal_strlit("diff_table");
                    reveal_strlit("DiffTable");
                    reveal_strlit("RecordsTable");
                }
                Some(StoryMeta {
                    category: "Data tables",
                    summary: "A virtualized before-and-after proposal grid with explicit change state.",
                    module: "diff_table",
                    api: "DiffTable",
                    lineage: Lineage::Composes,
                    lineage_basis: "RecordsTable",
                    lineage_note: "Before and after values for one proposal, with accept and reject per row. Reviewing a change an agent wants to make is a different surface from browsing data, even though both are grids.",
                    usage: usage::DIFF_TABLE,
                    height: 288,
                    width: StoryWidth::Wide,
                    overflow: Overflow::Wide,
                })
            },
            Self::FilterTable => {
                proof {
                    reveal_strlit("Data tables");
                    reveal_strlit("A controlled task grid with typed filters and stable-row reorder motion.");
                    reveal_strlit("filter_table");
                    reveal_strlit("FilterTable");
                    reveal_strlit("RecordsTable");
                }
                Some(StoryMeta {
                    category: "Data tables",
                    summary: "A controlled task grid with typed filters and stable-row reorder motion.",
                    module: "filter_table",
                    api: "FilterTable",
                    lineage: Lineage::Composes,
                    lineage_basis: "RecordsTable",
                    lineage_note: "Filter chips over a grid whose rows animate to their new places rather than cutting, so a reader can see what the filter did to the set they were looking at.",
                    usage: usage::FILTER_TABLE,
                    height: 288,
                    width: StoryWidth::Wide,
                    overflow: Overflow::Wide,
                })
            },
            Self::ComparisonTable => {
                proof {
                    reveal_strlit("Data tables");
                    reveal_strlit("A bounded feature matrix with semantic values and sticky context.");
                    reveal_strlit("comparison_table");
                    reveal_strlit("ComparisonTable");
                    reveal_strlit("");
                }
                Some(StoryMeta {
                    category: "Data tables",
                    summary: "A bounded feature matrix with semantic values and sticky context.",
                    module: "comparison_table",
                    api: "ComparisonTable",
                    lineage: Lineage::New,
                    lineage_basis: "",
                    lineage_note: "A matrix rather than a data grid: rows are features, columns are the things compared, and every column header carries its own control. Bounded and virtualized, with columns that divide the width and titles that wrap.",
                    usage: usage::COMPARISON_TABLE,
                    height: 432,
                    width: StoryWidth::Wide,
                    overflow: Overflow::Wide,
                })
            },
            Self::CodeBlock => {
                proof {
                    reveal_strlit("Readable output");
                    reveal_strlit("Selectable code with language context and progressive reveal.");
                    reveal_strlit("code_block");
                    reveal_strlit("CodeBlock");
                    reveal_strlit("highlighter, Clipboard");
                }
                Some(StoryMeta {
                    category: "Readable output",
                    summary: "Selectable code with language context and progressive reveal.",
                    module: "code_block",
                    api: "CodeBlock",
                    lineage: Lineage::Composes,
                    lineage_basis: "highlighter, Clipboard",
                    lineage_note: "Upstream's highlighting with a streaming reveal, so a block can be syntax-coloured while the model is still writing it, and copied while it is.",
                    usage: usage::CODE_BLOCK,
                    height: 223,
                    width: StoryWidth::Column,
                    overflow: Overflow::Wide,
                })
            },
            Self::CodeDiff => {
                proof {
                    reveal_strlit("Readable output");
                    reveal_strlit("A unified patch with line gutters, change tints, per-hunk accept or reject, and a copyable source.");
                    reveal_strlit("code_diff");
                    reveal_strlit("CodeDiff");
                    reveal_strlit("highlighter, Clipboard");
                }
                Some(StoryMeta {
                    category: "Readable output",
                    summary: "A unified patch with line gutters, change tints, per-hunk accept or reject, and a copyable source.",
                    module: "code_diff",
                    api: "CodeDiff",
                    lineage: Lineage::Composes,
                    lineage_basis: "highlighter, Clipboard",
                    lineage_note: "The same, as a reviewable patch: accept and reject per hunk, with the decision handed back to the application.",
                    usage: usage::CODE_DIFF,
                    height: 477,
                    width: StoryWidth::Wide,
                    overflow: Overflow::Vertical,
                })
            },
            Self::Approval => {
                proof {
                    reveal_strlit("Decisions");
                    reveal_strlit("An explicit, keyboard-operable human gate with destructive and always-allow variants and resolved states.");
                    reveal_strlit("approval");
                    reveal_strlit("ApprovalCard");
                    reveal_strlit("");
                }
                Some(StoryMeta {
                    category: "Decisions",
                    summary: "An explicit, keyboard-operable human gate with destructive and always-allow variants and resolved states.",
                    module: "approval",
                    api: "ApprovalCard",
                    lineage: Lineage::New,
                    lineage_basis: "",
                    lineage_note: "One decision about something already proposed, with the consequence stated and the tone matched to how far it reaches.",
                    usage: usage::APPROVAL_CARD,
                    height: 457,
                    width: StoryWidth::Column,
                    overflow: Overflow::Wide,
                })
            },
            Self::Plan => {
                proof {
                    reveal_strlit("Decisions");
                    reveal_strlit("An agent's proposed steps with typed per-step status, approve or reject while proposed, and resolved states.");
                    reveal_strlit("plan");
                    reveal_strlit("PlanCard");
                    reveal_strlit("");
                }
                Some(StoryMeta {
                    category: "Decisions",
                    summary: "An agent's proposed steps with typed per-step status, approve or reject while proposed, and resolved states.",
                    module: "plan",
                    api: "PlanCard",
                    lineage: Lineage::New,
                    lineage_basis: "",
                    lineage_note: "The steps an agent intends, each carrying the shared status vocabulary as it runs.",
                    usage: usage::PLAN_CARD,
                    height: 406,
                    width: StoryWidth::Column,
                    overflow: Overflow::Vertical,
                })
            },
            Self::Recommendation => {
                proof {
                    reveal_strlit("Decisions");
                    reveal_strlit("A focused recommendation with rationale and typed actions.");
                    reveal_strlit("recommendation");
                    reveal_strlit("RecommendationCard");
                    reveal_strlit("");
                }
                Some(StoryMeta {
                    category: "Decisions",
                    summary: "A focused recommendation with rationale and typed actions.",
                    module: "recommendation",
                    api: "RecommendationCard",
                    lineage: Lineage::New,
                    lineage_basis: "",
                    lineage_note: "A suggested next step with its reasoning, which a reader accepts or dismisses.",
                    usage: usage::RECOMMENDATION_CARD,
                    height: 266,
                    width: StoryWidth::Column,
                    overflow: Overflow::Wide,
                })
            },
            Self::Context => {
                proof {
                    reveal_strlit("Evidence");
                    reveal_strlit("Compact source context that preserves provenance and readable detail.");
                    reveal_strlit("context_card");
                    reveal_strlit("ContextCard");
                    reveal_strlit("");
                }
                Some(StoryMeta {
                    category: "Evidence",
                    summary: "Compact source context that preserves provenance and readable detail.",
                    module: "context_card",
                    api: "ContextCard",
                    lineage: Lineage::New,
                    lineage_basis: "",
                    lineage_note: "The document, file or record an answer drew on, shown beside the answer.",
                    usage: usage::CONTEXT_CARD,
                    height: 216,
                    width: StoryWidth::Column,
                    overflow: Overflow::Wide,
                })
            },
            Self::Insights => {
                proof {
                    reveal_strlit("Evidence");
                    reveal_strlit("Paged analytical findings with chart-ready, semantic values.");
                    reveal_strlit("insight");
                    reveal_strlit("InsightCard");
                    reveal_strlit("chart::LineChart");
                }
                Some(StoryMeta {
                    category: "Evidence",
                    summary: "Paged analytical findings with chart-ready, semantic values.",
                    module: "insight",
                    api: "InsightCard",
                    lineage: Lineage::Composes,
                    lineage_basis: "chart::LineChart",
                    lineage_note: "Metrics and a time series in a paged card, so an analytical answer arrives as evidence rather than as a paragraph about numbers.",
                    usage: usage::INSIGHT_CARD,
                    height: 452,
                    width: StoryWidth::Column,
                    overflow: Overflow::Wide,
                })
            },
            Self::PromptBar => {
                proof {
                    reveal_strlit("Composites");
                    reveal_strlit("A hybrid-controlled composer with mentions, commands, models, and attachments.");
                    reveal_strlit("prompt_bar");
                    reveal_strlit("PromptBar");
                    reveal_strlit("Textarea, Positioner");
                }
                Some(StoryMeta {
                    category: "Composites",
                    summary: "A hybrid-controlled composer with mentions, commands, models, and attachments.",
                    module: "prompt_bar",
                    api: "PromptBar",
                    lineage: Lineage::Composes,
                    lineage_basis: "Textarea, Positioner",
                    lineage_note: "Native text editing with the apparatus around it that makes a prompt: attachments, a context meter, a slash-command popup and a queue.",
                    usage: usage::PROMPT_BAR,
                    height: 432,
                    width: StoryWidth::Column,
                    overflow: Overflow::Vertical,
                })
            },
            Self::Voice => {
                proof {
                    reveal_strlit("Composites");
                    reveal_strlit("Dictate and speak controls with a live level meter and interim transcript, as typed intent.");
                    reveal_strlit("voice");
                    reveal_strlit("VoiceControls");
                    reveal_strlit("");
                }
                Some(StoryMeta {
                    category: "Composites",
                    summary: "Dictate and speak controls with a live level meter and interim transcript, as typed intent.",
                    module: "voice",
                    api: "VoiceControls",
                    lineage: Lineage::New,
                    lineage_basis: "",
                    lineage_note: "Idle, listening, transcribing, speaking: a lifecycle no upstream control models.",
                    usage: usage::VOICE_CONTROLS,
                    height: 90,
                    width: StoryWidth::Column,
                    overflow: Overflow::Wide,
                })
            },
            Self::Queue => {
                proof {
                    reveal_strlit("Composites");
                    reveal_strlit("Prompts waiting while the agent runs, with reorder, edit, send-now, remove, and clear by stable ID.");
                    reveal_strlit("queue");
                    reveal_strlit("MessageQueue");
                    reveal_strlit("");
                }
                Some(StoryMeta {
                    category: "Composites",
                    summary: "Prompts waiting while the agent runs, with reorder, edit, send-now, remove, and clear by stable ID.",
                    module: "queue",
                    api: "MessageQueue",
                    lineage: Lineage::New,
                    lineage_basis: "",
                    lineage_note: "Messages typed while the model was busy, and the means to clear them.",
                    usage: usage::MESSAGE_QUEUE,
                    height: 242,
                    width: StoryWidth::Column,
                    overflow: Overflow::Wide,
                })
            },
            Self::SelectionActions => {
                proof {
                    reveal_strlit("Readable output");
                    reveal_strlit("Ask, explain, and rewrite actions anchored to selected Markdown.");
                    reveal_strlit("selection_actions");
                    reveal_strlit("SelectionActions");
                    reveal_strlit("TextViewState, Positioner");
                }
                Some(StoryMeta {
                    category: "Readable output",
                    summary: "Ask, explain, and rewrite actions anchored to selected Markdown.",
                    module: "selection_actions",
                    api: "SelectionActions",
                    lineage: Lineage::Composes,
                    lineage_basis: "TextViewState, Positioner",
                    lineage_note: "Actions anchored to a selection inside rendered Markdown, which needs the text view's own selection state rather than a copy of it.",
                    usage: usage::SELECTION_ACTIONS,
                    height: 288,
                    width: StoryWidth::Column,
                    overflow: Overflow::Wide,
                })
            },
            Self::Form => {
                proof {
                    reveal_strlit("Human in the loop");
                    reveal_strlit("Single-choice groups and toggles in the library's own grammar.");
                    reveal_strlit("form");
                    reveal_strlit("ChoiceGroup");
                    reveal_strlit("");
                }
                Some(StoryMeta {
                    category: "Human in the loop",
                    summary: "Single-choice groups and toggles in the library's own grammar.",
                    module: "form",
                    api: "ChoiceGroup",
                    lineage: Lineage::New,
                    lineage_basis: "",
                    lineage_note: "One choice from a set, and one switch between two states. Upstream's radio and checkbox are styled on their outer frame only - the box, its radius, its fill and its size are fixed inside render - so a wrapped one arrives with a look no styling can bring into line with the controls beside it.",
                    usage: usage::CHOICE_GROUP,
                    height: 300,
                    width: StoryWidth::Column,
                    overflow: Overflow::Vertical,
                })
            },
            Self::QuestionFlow => {
                proof {
                    reveal_strlit("Human in the loop");
                    reveal_strlit("A short sequence of questions an agent asks before it acts.");
                    reveal_strlit("question_flow");
                    reveal_strlit("QuestionFlow");
                    reveal_strlit("");
                }
                Some(StoryMeta {
                    category: "Human in the loop",
                    summary: "A short sequence of questions an agent asks before it acts.",
                    module: "question_flow",
                    api: "QuestionFlow",
                    lineage: Lineage::New,
                    lineage_basis: "",
                    lineage_note: "The short sequence an agent asks before it acts: one question at a time, the place in the sequence stated, and a way past a question that does not apply.",
                    usage: usage::QUESTION_FLOW,
                    height: 340,
                    width: StoryWidth::Column,
                    overflow: Overflow::Vertical,
                })
            },
        }
    }

    /// The states this story's switcher offers, as `(id, label)` pairs.
    ///
    /// Empty for stories that show one composition.
    pub fn variants(self) -> (r: &'static [(&'static str, &'static str)])
        ensures
            r@ == variants_of(self),
            variants_ok(r@),
    {
        match self {
            Self::Chat => {
                proof {
                    reveal_strlit("conversation");
                    reveal_strlit("Conversation");
                    reveal_strlit("welcome");
                    reveal_strlit("Welcome");
                    lemma_keys_distinct(CHAT_STORY_VARIANTS@);
                }
                &CHAT_STORY_VARIANTS
            },
            Self::PromptBar => {
                proof {
                    reveal_strlit("empty");
                    reveal_strlit("Empty");
                    reveal_strlit("ready");
                    reveal_strlit("Ready");
                    reveal_strlit("multiline");
                    reveal_strlit("Multiline");
                    reveal_strlit("running");
                    reveal_strlit("Running");
                    reveal_strlit("glyph");
                    reveal_strlit("Glyph submit");
                    reveal_strlit("gathered");
                    reveal_strlit("Gathered");
                    lemma_keys_distinct(PROMPT_BAR_STORY_VARIANTS@);
                }
                &PROMPT_BAR_STORY_VARIANTS
            },
            Self::CommandSearch => {
                proof {
                    reveal_strlit("populated");
                    reveal_strlit("Populated");
                    reveal_strlit("empty");
                    reveal_strlit("Empty catalog");
                    reveal_strlit("no-results");
                    reveal_strlit("No results");
                    lemma_keys_distinct(COMMAND_SEARCH_STORY_VARIANTS@);
                }
                &COMMAND_SEARCH_STORY_VARIANTS
            },
            Self::Decorations => {
                proof {
                    reveal_strlit("photo");
                    reveal_strlit("Photo");
                    reveal_strlit("frosted");
                    reveal_strlit("Frosted");
                    reveal_strlit("glass");
                    reveal_strlit("Glass");
                    reveal_strlit("tint");
                    reveal_strlit("Tint");
                    reveal_strlit("beam");
                    reveal_strlit("Border beam");
                    reveal_strlit("metal");
                    reveal_strlit("Liquid metal");
                    reveal_strlit("scrim");
                    reveal_strlit("Photo + scrim");
                    reveal_strlit("dither");
                    reveal_strlit("Dither");
                    reveal_strlit("pop-art");
                    reveal_strlit("Pop art");
                    reveal_strlit("engrave");
                    reveal_strlit("Cross-hatch");
                    reveal_strlit("halftone");
                    reveal_strlit("Halftone");
                    reveal_strlit("pulse");
                    reveal_strlit("Pulse");
                    reveal_strlit("veil");
                    reveal_strlit("Veil");
                    lemma_keys_distinct(DECORATION_STORY_VARIANTS@);
                }
                &DECORATION_STORY_VARIANTS
            },
            Self::Form => {
                proof {
                    reveal_strlit("choices");
                    reveal_strlit("Choices");
                    reveal_strlit("toggles");
                    reveal_strlit("Toggles");
                    lemma_keys_distinct(FORM_STORY_VARIANTS@);
                }
                &FORM_STORY_VARIANTS
            },
            Self::RecordsTable | Self::DiffTable | Self::FilterTable | Self::ComparisonTable => {
                proof {
                    reveal_strlit("populated");
                    reveal_strlit("Populated");
                    reveal_strlit("loading");
                    reveal_strlit("Loading");
                    reveal_strlit("error");
                    reveal_strlit("Error");
                    reveal_strlit("empty");
                    reveal_strlit("Empty");
                    reveal_strlit("disabled");
                    reveal_strlit("Disabled");
                    reveal_strlit("selected");
                    reveal_strlit("Selected");
                    reveal_strlit("constrained");
                    reveal_strlit("Constrained");
                    lemma_keys_distinct(TABLE_STORY_VARIANTS@);
                }
                &TABLE_STORY_VARIANTS
            },
            _ => {
                let none: &'static [(&'static str, &'static str)] = &[];
                none
            },
        }
    }

    /// The story a deep link names: `Ok` with the story whose slug is
    /// exactly `slug`, or an error carrying `slug` when no story has it.
    pub fn from_slug(slug: &str) -> (r: Result<StoryId, StoryLookupError>)
        ensures
            match r {
                Ok(id) => slug_of(id) == slug@,
                Err(e) => e@ == slug@ && forall|id: StoryId| slug_of(id) != slug@,
            },
            match r {
                Ok(id) => story_for(slug@) == Some(id),
                Err(_) => story_for(slug@) is None,
            },
    {
        let r = Self::find_slug(slug);
        proof {
            if let Ok(id) = r {
                let other = choose|o: StoryId| slug_of(o) == slug@;
                lemma_slugs_identify(id, other);
            }
        }
        r
    }

    /// Looks `slug` up among the stories' slugs.
    fn find_slug(slug: &str) -> (r: Result<StoryId, StoryLookupError>)
        ensures
            match r {
                Ok(id) => slug_of(id) == slug@,
                Err(e) => e@ == slug@ && forall|id: StoryId| slug_of(id) != slug@,
            },
    {
        let chars = chars_of(slug);
        if is_text(&chars, Self::All.slug()) {
            return Ok(Self::All);
        }
        if is_text(&chars, Self::GuidedDemo.slug()) {
            return Ok(Self::GuidedDemo);
        }
        if is_text(&chars, Self::Decorations.slug()) {
            return Ok(Self::Decorations);
        }
        if is_text(&chars, Self::ThemesTrio.slug()) {
            return Ok(Self::ThemesTrio);
        }
        if is_text(&chars, Self::DockComposition.slug()) {
            return Ok(Self::DockComposition);
        }
        if is_text(&chars, Self::MotionLab.slug()) {
            return Ok(Self::MotionLab);
        }
        if is_text(&chars, Self::Loading.slug()) {
            return Ok(Self::Loading);
        }
        if is_text(&chars, Self::Status.slug()) {
            return Ok(Self::Status);
        }
        if is_text(&chars, Self::ToolChips.slug()) {
            return Ok(Self::ToolChips);
        }
        if is_text(&chars, Self::ToolCalls.slug()) {
            return Ok(Self::ToolCalls);
        }
        if is_text(&chars, Self::Tasks.slug()) {
            return Ok(Self::Tasks);
        }
        if is_text(&chars, Self::Thinking.slug()) {
            return Ok(Self::Thinking);
        }
        if is_text(&chars, Self::Orbs.slug()) {
            return Ok(Self::Orbs);
        }
        if is_text(&chars, Self::Search.slug()) {
            return Ok(Self::Search);
        }
        if is_text(&chars, Self::Todos.slug()) {
            return Ok(Self::Todos);
        }
        if is_text(&chars, Self::ImageGeneration.slug()) {
            return Ok(Self::ImageGeneration);
        }
        if is_text(&chars, Self::StreamingText.slug()) {
            return Ok(Self::StreamingText);
        }
        if is_text(&chars, Self::Chat.slug()) {
            return Ok(Self::Chat);
        }
        if is_text(&chars, Self::Suggestions.slug()) {
            return Ok(Self::Suggestions);
        }
        if is_text(&chars, Self::Attachments.slug()) {
            return Ok(Self::Attachments);
        }
        if is_text(&chars, Self::Artifact.slug()) {
            return Ok(Self::Artifact);
        }
        if is_text(&chars, Self::ContextMeter.slug()) {
            return Ok(Self::ContextMeter);
        }
        if is_text(&chars, Self::CommandSearch.slug()) {
            return Ok(Self::CommandSearch);
        }
        if is_text(&chars, Self::SidebarNav.slug()) {
            return Ok(Self::SidebarNav);
        }
        if is_text(&chars, Self::ThreadList.slug()) {
            return Ok(Self::ThreadList);
        }
        if is_text(&chars, Self::FineTune.slug()) {
            return Ok(Self::FineTune);
        }
        if is_text(&chars, Self::RecordsTable.slug()) {
            return Ok(Self::RecordsTable);
        }
        if is_text(&chars, Self::DiffTable.slug()) {
            return Ok(Self::DiffTable);
        }
        if is_text(&chars, Self::FilterTable.slug()) {
            return Ok(Self::FilterTable);
        }
        if is_text(&chars, Self::ComparisonTable.slug()) {
            return Ok(Self::ComparisonTable);
        }
        if is_text(&chars, Self::CodeBlock.slug()) {
            return Ok(Self::CodeBlock);
        }
        if is_text(&chars, Self::CodeDiff.slug()) {
            return Ok(Self::CodeDiff);
        }
        if is_text(&chars, Self::Approval.slug()) {
            return Ok(Self::Approval);
        }
        if is_text(&chars, Self::Plan.slug()) {
            return Ok(Self::Plan);
        }
        if is_text(&chars, Self::Recommendation.slug()) {
            return Ok(Self::Recommendation);
        }
        if is_text(&chars, Self::Context.slug()) {
            return Ok(Self::Context);
        }
        if is_text(&chars, Self::Insights.slug()) {
            return Ok(Self::Insights);
        }
        if is_text(&chars, Self::PromptBar.slug()) {
            return Ok(Self::PromptBar);
        }
        if is_text(&chars, Self::Voice.slug()) {
            return Ok(Self::Voice);
        }
        if is_text(&chars, Self::Queue.slug()) {
            return Ok(Self::Queue);
        }
        if is_text(&chars, Self::SelectionActions.slug()) {
            return Ok(Self::SelectionActions);
        }
        if is_text(&chars, Self::Form.slug()) {
            return Ok(Self::Form);
        }
        if is_text(&chars, Self::QuestionFlow.slug()) {
            return Ok(Self::QuestionFlow);
        }
        StoryLookupError::new(slug)
    }
}

/// Error returned when a deep link names no registered story.
#[derive(Debug, Clone, PartialEq, Eq)]
pub struct StoryLookupError {
    slug: String,
}

impl View for StoryLookupError {
    type V = Seq<char>;

    closed spec fn view(&self) -> Seq<char> {
        self.slug@
    }
}

impl StoryLookupError {
    /// The error for a slug that names no story.
    fn new(slug: &str) -> (r: Result<StoryId, StoryLookupError>)
        requires
            forall|id: StoryId| slug_of(id) != slug@,
        ensures
            r matches Err(e) && e@ == slug@,
    {
        Err(StoryLookupError { slug: slug.to_owned() })
    }

    /// The unrecognized slug supplied by the host.
    pub fn slug(&self) -> (r: &str)
        ensures
            r@ == self@,
    {
        self.slug.as_str()
    }

    /// The message shown for this error: `unknown story: ` and the slug.
    pub fn message(&self) -> (r: String)
        ensures
            r@ == "unknown story: "@ + self@,
    {
        let mut out = "unknown story: ".to_owned();
        out.append(self.slug.as_str());
        out
    }
}

/// A short fingerprint of a text: its length and its first and last
/// characters.
pub open spec fn fingerprint(s: Seq<char>) -> (nat, char, char) {
    (s.len(), s[0], s[s.len() - 1])
}

/// Switcher ids with distinct fingerprints are distinct.
proof fn lemma_keys_distinct(v: Seq<(&'static str, &'static str)>)
    requires
        forall|i: int, j: int|
            0 <= i < j < v.len() ==> fingerprint((#[trigger] v[i]).0@) != fingerprint(
                (#[trigger] v[j]).0@,
            ),
    ensures
        forall|i: int, j: int| 0 <= i < j < v.len() ==> (#[trigger] v[i]).0@ != (#[trigger] v[j]).0@,
{
}

} // verus!

verus! {

/// A finer fingerprint of a text: its length, its first character and its
/// last two.
pub open spec fn slug_fingerprint(s: Seq<char>) -> (nat, char, char, char) {
    (s.len(), s[0], s[s.len() - 1], s[s.len() - 2])
}

/// Whether `s` is made of lowercase ASCII letters and hyphens alone.
pub open spec fn is_route_text(s: Seq<char>) -> bool {
    forall|i: int| 0 <= i < s.len() ==> ('a' <= #[trigger] s[i] <= 'z' || s[i] == '-')
}

/// Every story has a URL slug of its own: non-empty, made of lowercase
/// ASCII letters and hyphens, and shared with no other story.
pub proof fn lemma_slug_shape(a: StoryId, b: StoryId)
    ensures
        slug_of(a).len() > 0,
        is_route_text(slug_of(a)),
        slug_of(a) == slug_of(b) ==> a == b,
{
    reveal_strlit("all");
    reveal_strlit("loading");
    reveal_strlit("status");
    reveal_strlit("tool-chips");
    reveal_strlit("tool-calls");
    reveal_strlit("tasks");
    reveal_strlit("thinking");
    reveal_strlit("orbs");
    reveal_strlit("search");
    reveal_strlit("todos");
    reveal_strlit("image-generation");
    reveal_strlit("streaming-text");
    reveal_strlit("chat");
    reveal_strlit("suggestions");
    reveal_strlit("attachments");
    reveal_strlit("artifact");
    reveal_strlit("context-meter");
    reveal_strlit("command-search");
    reveal_strlit("sidebar-nav");
    reveal_strlit("thread-list");
    reveal_strlit("fine-tune");
    reveal_strlit("records-table");
    reveal_strlit("diff-table");
    reveal_strlit("filter-table");
    reveal_strlit("comparison-table");
    reveal_strlit("code-block");
    reveal_strlit("code-diff");
    reveal_strlit("approval");
    reveal_strlit("plan");
    reveal_strlit("recommendation");
    reveal_strlit("context");
    reveal_strlit("insights");
    reveal_strlit("prompt-bar");
    reveal_strlit("voice");
    reveal_strlit("queue");
    reveal_strlit("selection-actions");
    reveal_strlit("form-controls");
    reveal_strlit("question-flow");
    reveal_strlit("guided-demo");
    reveal_strlit("decorations");
    reveal_strlit("motion-lab");
    reveal_strlit("themes-trio");
    reveal_strlit("dock-composition");
    lemma_slugs_identify(a, b);
}

/// Each story's slug is the kebab-case form of its name in code
/// (`CodeDiff` is `code-diff`, `ToolChips` is `tool-chips`); the form
/// controls story, named `Form`, is reached at `form-controls`.
pub proof fn lemma_slug_is_kebab_name(id: StoryId)
    ensures
        id != StoryId::Form ==> kebab_of(variant_name(id), slug_of(id), true),
        slug_of(StoryId::Form) == "form-controls"@,
{
    reveal_with_fuel(kebab_of, 18);
    match id {
        StoryId::All => {
            reveal_strlit("All");
            reveal_strlit("all");
        },
        StoryId::Loading => {
            reveal_strlit("Loading");
            reveal_strlit("loading");
        },
        StoryId::Status => {
            reveal_strlit("Status");
            reveal_strlit("status");
        },
        StoryId::ToolChips => {
            reveal_strlit("ToolChips");
            reveal_strlit("tool-chips");
        },
        StoryId::ToolCalls => {
            reveal_strlit("ToolCalls");
            reveal_strlit("tool-calls");
        },
        StoryId::Tasks => {
            reveal_strlit("Tasks");
            reveal_strlit("tasks");
        },
        StoryId::Thinking => {
            reveal_strlit("Thinking");
            reveal_strlit("thinking");
        },
        StoryId::Orbs => {
            reveal_strlit("Orbs");
            reveal_strlit("orbs");
        },
        StoryId::Search => {
            reveal_strlit("Search");
            reveal_strlit("search");
        },
        StoryId::Todos => {
            reveal_strlit("Todos");
            reveal_strlit("todos");
        },
        StoryId::ImageGeneration => {
            reveal_strlit("ImageGeneration");
            reveal_strlit("image-generation");
        },
        StoryId::StreamingText => {
            reveal_strlit("StreamingText");
            reveal_strlit("streaming-text");
        },
        StoryId::Chat => {
            reveal_strlit("Chat");
            reveal_strlit("chat");
        },
        StoryId::Suggestions => {
            reveal_strlit("Suggestions");
            reveal_strlit("suggestions");
        },
        StoryId::Attachments => {
            reveal_strlit("Attachments");
            reveal_strlit("attachments");
        },
        StoryId::Artifact => {
            reveal_strlit("Artifact");
            reveal_strlit("artifact");
        },
        StoryId::ContextMeter => {
            reveal_strlit("ContextMeter");
            reveal_strlit("context-meter");
        },
        StoryId::CommandSearch => {
            reveal_strlit("CommandSearch");
            reveal_strlit("command-search");
        },
        StoryId::SidebarNav => {
            reveal_strlit("SidebarNav");
            reveal_strlit("sidebar-nav");
        },
        StoryId::ThreadList => {
            reveal_strlit("ThreadList");
            reveal_strlit("thread-list");
        },
        StoryId::FineTune => {
            reveal_strlit("FineTune");
            reveal_strlit("fine-tune");
        },
        StoryId::RecordsTable => {
            reveal_strlit("RecordsTable");
            reveal_strlit("records-table");
        },
        StoryId::DiffTable => {
            reveal_strlit("DiffTable");
            reveal_strlit("diff-table");
        },
        StoryId::FilterTable => {
            reveal_strlit("FilterTable");
            reveal_strlit("filter-table");
        },
        StoryId::ComparisonTable => {
            reveal_strlit("ComparisonTable");
            reveal_strlit("comparison-table");
        },
        StoryId::CodeBlock => {
            reveal_strlit("CodeBlock");
            reveal_strlit("code-block");
        },
        StoryId::CodeDiff => {
            reveal_strlit("CodeDiff");
            reveal_strlit("code-diff");
        },
        StoryId::Approval => {
            reveal_strlit("Approval");
            reveal_strlit("approval");
        },
        StoryId::Plan => {
            reveal_strlit("Plan");
            reveal_strlit("plan");
        },
        StoryId::Recommendation => {
            reveal_strlit("Recommendation");
            reveal_strlit("recommendation");
        },
        StoryId::Context => {
            reveal_strlit("Context");
            reveal_strlit("context");
        },
        StoryId::Insights => {
            reveal_strlit("Insights");
            reveal_strlit("insights");
        },
        StoryId::PromptBar => {
            reveal_strlit("PromptBar");
            reveal_strlit("prompt-bar");
        },
        StoryId::Voice => {
            reveal_strlit("Voice");
            reveal_strlit("voice");
        },
        StoryId::Queue => {
            reveal_strlit("Queue");
            reveal_strlit("queue");
        },
        StoryId::SelectionActions => {
            reveal_strlit("SelectionActions");
            reveal_strlit("selection-actions");
        },
        StoryId::Form => {
            reveal_strlit("Form");
            reveal_strlit("form-controls");
        },
        StoryId::QuestionFlow => {
            reveal_strlit("QuestionFlow");
            reveal_strlit("question-flow");
        },
        StoryId::GuidedDemo => {
            reveal_strlit("GuidedDemo");
            reveal_strlit("guided-demo");
        },
        StoryId::Decorations => {
            reveal_strlit("Decorations");
            reveal_strlit("decorations");
        },
        StoryId::MotionLab => {
            reveal_strlit("MotionLab");
            reveal_strlit("motion-lab");
        },
        StoryId::ThemesTrio => {
            reveal_strlit("ThemesTrio");
            reveal_strlit("themes-trio");
        },
        StoryId::DockComposition => {
            reveal_strlit("DockComposition");
            reveal_strlit("dock-composition");
        },
    }
    reveal_strlit("form-controls");
}

/// Slugs are stable routes: no two stories share one, so a slug names at
/// most one story and [`StoryId::from_slug`] gives back the story whose slug
/// it was handed.
pub proof fn lemma_slugs_identify(a: StoryId, b: StoryId)
    ensures
        slug_of(a) == slug_of(b) ==> a == b,
{
    reveal_strlit("all");
    reveal_strlit("loading");
    reveal_strlit("status");
    reveal_strlit("tool-chips");
    reveal_strlit("tool-calls");
    reveal_strlit("tasks");
    reveal_strlit("thinking");
    reveal_strlit("orbs");
    reveal_strlit("search");
    reveal_strlit("todos");
    reveal_strlit("image-generation");
    reveal_strlit("streaming-text");
    reveal_strlit("chat");
    reveal_strlit("suggestions");
    reveal_strlit("attachments");
    reveal_strlit("artifact");
    reveal_strlit("context-meter");
    reveal_strlit("command-search");
    reveal_strlit("sidebar-nav");
    reveal_strlit("thread-list");
    reveal_strlit("fine-tune");
    reveal_strlit("records-table");
    reveal_strlit("diff-table");
    reveal_strlit("filter-table");
    reveal_strlit("comparison-table");
    reveal_strlit("code-block");
    reveal_strlit("code-diff");
    reveal_strlit("approval");
    reveal_strlit("plan");
    reveal_strlit("recommendation");
    reveal_strlit("context");
    reveal_strlit("insights");
    reveal_strlit("prompt-bar");
    reveal_strlit("voice");
    reveal_strlit("queue");
    reveal_strlit("selection-actions");
    reveal_strlit("form-controls");
    reveal_strlit("question-flow");
    reveal_strlit("guided-demo");
    reveal_strlit("decorations");
    reveal_strlit("motion-lab");
    reveal_strlit("themes-trio");
    reveal_strlit("dock-composition");
    assert(slug_fingerprint(slug_of(a)) == slug_fingerprint(slug_of(b)) ==> a == b);
}

/// Every story's slug leads back to that story.
pub proof fn lemma_slug_round_trip(id: StoryId)
    ensures
        story_for(slug_of(id)) == Some(id),
{
    let other = choose|o: StoryId| slug_of(o) == slug_of(id);
    lemma_slugs_identify(id, other);
}

/// The catalog lists exactly the component stories, each once: the
/// whole-catalog view and the addressable non-components are absent.
pub proof fn lemma_catalog_is_the_components()
    ensures
        forall|id: StoryId| StoryId::ALL@.contains(id) <==> is_component(id),
        StoryId::ALL@.no_duplicates(),
{
    assert(StoryId::ALL@[0] == StoryId::Loading);
    assert(StoryId::ALL@[1] == StoryId::Status);
    assert(StoryId::ALL@[2] == StoryId::ToolChips);
    assert(StoryId::ALL@[3] == StoryId::ToolCalls);
    assert(StoryId::ALL@[4] == StoryId::Tasks);
    assert(StoryId::ALL@[5] == StoryId::Thinking);
    assert(StoryId::ALL@[6] == StoryId::Orbs);
    assert(StoryId::ALL@[7] == StoryId::Search);
    assert(StoryId::ALL@[8] == StoryId::Todos);
    assert(StoryId::ALL@[9] == StoryId::ImageGeneration);
    assert(StoryId::ALL@[10] == StoryId::StreamingText);
    assert(StoryId::ALL@[11] == StoryId::Chat);
    assert(StoryId::ALL@[12] == StoryId::Suggestions);
    assert(StoryId::ALL@[13] == StoryId::Attachments);
    assert(StoryId::ALL@[14] == StoryId::Artifact);
    assert(StoryId::ALL@[15] == StoryId::ContextMeter);
    assert(StoryId::ALL@[16] == StoryId::CommandSearch);
    assert(StoryId::ALL@[17] == StoryId::SidebarNav);
    assert(StoryId::ALL@[18] == StoryId::ThreadList);
    assert(StoryId::ALL@[19] == StoryId::FineTune);
    assert(StoryId::ALL@[20] == StoryId::RecordsTable);
    assert(StoryId::ALL@[21] == StoryId::DiffTable);
    assert(StoryId::ALL@[22] == StoryId::FilterTable);
    assert(StoryId::ALL@[23] == StoryId::ComparisonTable);
    assert(StoryId::ALL@[24] == StoryId::CodeBlock);
    assert(StoryId::ALL@[25] == StoryId::CodeDiff);
    assert(StoryId::ALL@[26] == StoryId::Approval);
    assert(StoryId::ALL@[27] == StoryId::Plan);
    assert(StoryId::ALL@[28] == StoryId::Recommendation);
    assert(StoryId::ALL@[29] == StoryId::Context);
    assert(StoryId::ALL@[30] == StoryId::Insights);
    assert(StoryId::ALL@[31] == StoryId::PromptBar);
    assert(StoryId::ALL@[32] == StoryId::Voice);
    assert(StoryId::ALL@[33] == StoryId::Queue);
    assert(StoryId::ALL@[34] == StoryId::SelectionActions);
    assert(StoryId::ALL@[35] == StoryId::Form);
    assert(StoryId::ALL@[36] == StoryId::QuestionFlow);
    assert forall|id: StoryId| is_component(id) implies StoryId::ALL@.contains(id) by {
        match id {
            StoryId::Loading => assert(StoryId::ALL@[0] == id),
            StoryId::Status => assert(StoryId::ALL@[1] == id),
            StoryId::ToolChips => assert(StoryId::ALL@[2] == id),
            StoryId::ToolCalls => assert(StoryId::ALL@[3] == id),
            StoryId::Tasks => assert(StoryId::ALL@[4] == id),
            StoryId::Thinking => assert(StoryId::ALL@[5] == id),
            StoryId::Orbs => assert(StoryId::ALL@[6] == id),
            StoryId::Search => assert(StoryId::ALL@[7] == id),
            StoryId::Todos => assert(StoryId::ALL@[8] == id),
            StoryId::ImageGeneration => assert(StoryId::ALL@[9] == id),
            StoryId::StreamingText => assert(StoryId::ALL@[10] == id),
            StoryId::Chat => assert(StoryId::ALL@[11] == id),
            StoryId::Suggestions => assert(StoryId::ALL@[12] == id),
            StoryId::Attachments => assert(StoryId::ALL@[13] == id),
            StoryId::Artifact => assert(StoryId::ALL@[14] == id),
            StoryId::ContextMeter => assert(StoryId::ALL@[15] == id),
            StoryId::CommandSearch => assert(StoryId::ALL@[16] == id),
            StoryId::SidebarNav => assert(StoryId::ALL@[17] == id),
            StoryId::ThreadList => assert(StoryId::ALL@[18] == id),
            StoryId::FineTune => assert(StoryId::ALL@[19] == id),
            StoryId::RecordsTable => assert(StoryId::ALL@[20] == id),
            StoryId::DiffTable => assert(StoryId::ALL@[21] == id),
            StoryId::FilterTable => assert(StoryId::ALL@[22] == id),
            StoryId::ComparisonTable => assert(StoryId::ALL@[23] == id),
            StoryId::CodeBlock => assert(StoryId::ALL@[24] == id),
            StoryId::CodeDiff => assert(StoryId::ALL@[25] == id),
            StoryId::Approval => assert(StoryId::ALL@[26] == id),
            StoryId::Plan => assert(StoryId::ALL@[27] == id),
            StoryId::Recommendation => assert(StoryId::ALL@[28] == id),
            StoryId::Context => assert(StoryId::ALL@[29] == id),
            StoryId::Insights => assert(StoryId::ALL@[30] == id),
            StoryId::PromptBar => assert(StoryId::ALL@[31] == id),
            StoryId::Voice => assert(StoryId::ALL@[32] == id),
            StoryId::Queue => assert(StoryId::ALL@[33] == id),
            StoryId::SelectionActions => assert(StoryId::ALL@[34] == id),
            StoryId::Form => assert(StoryId::ALL@[35] == id),
            StoryId::QuestionFlow => assert(StoryId::ALL@[36] == id),
            _ => {},
        }
    }
}

impl core::str::FromStr for StoryId {
    type Err = StoryLookupError;

    fn from_str(slug: &str) -> (r: Result<Self, Self::Err>)
        ensures
            match r {
                Ok(id) => slug_of(id) == slug@ && story_for(slug@) == Some(id),
                Err(e) => e@ == slug@ && story_for(slug@) is None,
            },
    {
        Self::from_slug(slug)
    }
}

} // verus!
