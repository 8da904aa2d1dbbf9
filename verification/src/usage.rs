//! The constructor call each catalog entry shows as its usage.

use vstd::prelude::*;

verus! {

/// How the index shows `LoadingState` being made.
pub const LOADING_STATE: &'static str = "LoadingState::new(..)";

/// How the index shows `StatusBadge` being made.
pub const STATUS_BADGE: &'static str = "StatusBadge::new(..)";

/// How the index shows `ToolChip` being made.
pub const TOOL_CHIP: &'static str = "ToolChip::new(..)";

/// How the index shows `ToolCall` being made.
pub const TOOL_CALL: &'static str = "ToolCall::new(..)";

/// How the index shows `TaskRow` being made.
pub const TASK_ROW: &'static str = "TaskRow::new(..)";

/// How the index shows `Thinking` being made.
pub const THINKING: &'static str = "Thinking::new(..)";

/// How the index shows `Orbs` being made.
pub const ORBS: &'static str = "Orbs::new(..)";

/// How the index shows `SearchResults` being made.
pub const SEARCH_RESULTS: &'static str = "SearchResults::new(..)";

/// How the index shows `TodoList` being made.
pub const TODO_LIST: &'static str = "TodoList::new(..)";

/// How the index shows `ImageGeneration` being made.
pub const IMAGE_GENERATION: &'static str = "ImageGeneration::new(..)";

/// How the index shows `StreamingText` being made.
pub const STREAMING_TEXT: &'static str = "StreamingText::new(..)";

/// How the index shows `Chat` being made.
pub const CHAT: &'static str = "Chat::new(..)";

/// How the index shows `Suggestions` being made.
pub const SUGGESTIONS: &'static str = "Suggestions::new(..)";

/// How the index shows `AttachmentStrip` being made.
pub const ATTACHMENT_STRIP: &'static str = "AttachmentStrip::new(..)";

/// How the index shows `ArtifactPanel` being made.
pub const ARTIFACT_PANEL: &'static str = "ArtifactPanel::new(..)";

/// How the index shows `ContextMeter` being made.
pub const CONTEXT_METER: &'static str = "ContextMeter::new(..)";

/// How the index shows `CommandSearch` being made.
pub const COMMAND_SEARCH: &'static str = "CommandSearch::new(..)";

/// How the index shows `SidebarNav` being made.
pub const SIDEBAR_NAV: &'static str = "SidebarNav::new(..)";

/// How the index shows `ThreadList` being made.
pub const THREAD_LIST: &'static str = "ThreadList::new(..)";

/// How the index shows `FineTuneCard` being made.
pub const FINE_TUNE_CARD: &'static str = "FineTuneCard::new(..)";

/// How the index shows `RecordsTable` being made.
pub const RECORDS_TABLE: &'static str = "RecordsTable::new(..)";

/// How the index shows `DiffTable` being made.
pub const DIFF_TABLE: &'static str = "DiffTable::new(..)";

/// How the index shows `FilterTable` being made.
pub const FILTER_TABLE: &'static str = "FilterTable::new(..)";

/// How the index shows `ComparisonTable` being made.
pub const COMPARISON_TABLE: &'static str = "ComparisonTable::new(..)";

/// How the index shows `CodeBlock` being made.
pub const CODE_BLOCK: &'static str = "CodeBlock::new(..)";

/// How the index shows `CodeDiff` being made.
pub const CODE_DIFF: &'static str = "CodeDiff::new(..)";

/// How the index shows `ApprovalCard` being made.
pub const APPROVAL_CARD: &'static str = "ApprovalCard::new(..)";

/// How the index shows `PlanCard` being made.
pub const PLAN_CARD: &'static str = "PlanCard::new(..)";

/// How the index shows `RecommendationCard` being made.
pub const RECOMMENDATION_CARD: &'static str = "RecommendationCard::new(..)";

/// How the index shows `ContextCard` being made.
pub const CONTEXT_CARD: &'static str = "ContextCard::new(..)";

/// How the index shows `InsightCard` being made.
pub const INSIGHT_CARD: &'static str = "InsightCard::new(..)";

/// How the index shows `PromptBar` being made.
pub const PROMPT_BAR: &'static str = "PromptBar::new(..)";

/// How the index shows `VoiceControls` being made.
pub const VOICE_CONTROLS: &'static str = "VoiceControls::new(..)";

/// How the index shows `MessageQueue` being made.
pub const MESSAGE_QUEUE: &'static str = "MessageQueue::new(..)";

/// How the index shows `SelectionActions` being made.
pub const SELECTION_ACTIONS: &'static str = "SelectionActions::new(..)";

/// How the index shows `ChoiceGroup` being made.
pub const CHOICE_GROUP: &'static str = "ChoiceGroup::new(..)";

/// How the index shows `QuestionFlow` being made.
pub const QUESTION_FLOW: &'static str = "QuestionFlow::new(..)";

} // verus!
