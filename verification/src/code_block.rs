//! Code blocks: the content a block shows, its language label, and the
//! fenced markdown it hands to the highlighter.

use vstd::prelude::*;
use vstd::string::*;
use crate::fence::backticks;
use crate::fence::fence_for;
use crate::fence::fence_width;
use crate::text::chars_of;
use crate::thinking::opt_text;

verus! {

/// What a code block holds: its identity, the code, an optional language,
/// whether the code is still streaming in, an optional failure reason, and
/// whether it offers a copy control.
pub struct CodeBlockModel {
    pub id: Seq<char>,
    pub code: Seq<char>,
    pub language: Option<Seq<char>>,
    pub streaming: bool,
    pub failed: Option<Seq<char>>,
    pub copyable: bool,
}

/// A code block with a language header, a copy control, and syntax
/// highlighting through a fenced markdown block.
#[derive(Debug, Clone, PartialEq, Eq)]
pub struct CodeBlock {
    id: String,
    code: String,
    language: Option<String>,
    streaming: bool,
    failed: Option<String>,
    copyable: bool,
}

impl View for CodeBlock {
    type V = CodeBlockModel;

    closed spec fn view(&self) -> CodeBlockModel {
        CodeBlockModel {
            id: self.id@,
            code: self.code@,
            language: opt_text(self.language),
            streaming: self.streaming,
            failed: opt_text(self.failed),
            copyable: self.copyable,
        }
    }
}

/// The language a block is labelled with: its own, or `text`.
pub open spec fn language_label(m: CodeBlockModel) -> Seq<char> {
    match m.language {
        Some(l) => l,
        None => seq!['t', 'e', 'x', 't'],
    }
}

/// The insertion-point glyph a streaming block ends with.
pub open spec fn cursor(streaming: bool) -> Seq<char> {
    if streaming {
        seq!['▌']
    } else {
        Seq::empty()
    }
}

/// The fenced markdown a block renders: the fence and the language, the
/// code and, while streaming, the cursor, then the closing fence on a line
/// of its own.
pub open spec fn block_source(m: CodeBlockModel) -> Seq<char> {
    let fence = backticks(fence_width(m.code));
    fence + language_label(m) + seq!['\n'] + m.code + cursor(m.streaming) + seq!['\n'] + fence
}

impl CodeBlock {
    /// Creates a block from complete code: copyable, not streaming, with no
    /// language and no failure.
    pub fn new(id: &str, code: &str) -> (r: Self)
        ensures
            r@ == (CodeBlockModel {
                id: id@,
                code: code@,
                language: None,
                streaming: false,
                failed: None,
                copyable: true,
            }),
    {
        CodeBlock {
            id: id.to_owned(),
            code: code.to_owned(),
            language: None,
            streaming: false,
            failed: None,
            copyable: true,
        }
    }

    /// Creates a block from streamed content: `running` gives the streaming
    /// presentation, and a `failure` reason is shown under the code.
    pub fn streamed(id: &str, text: &str, running: bool, failure: Option<&str>) -> (r: Self)
        ensures
            r@ == (CodeBlockModel {
                id: id@,
                code: text@,
                language: None,
                streaming: running,
                failed: match failure {
                    Some(reason) => Some(reason@),
                    None => None,
                },
                copyable: true,
            }),
    {
        let failed = match failure {
            Some(reason) => Some(reason.to_owned()),
            None => None,
        };
        CodeBlock {
            id: id.to_owned(),
            code: text.to_owned(),
            language: None,
            streaming: running,
            failed,
            copyable: true,
        }
    }

    /// Sets the language used for the header label and syntax highlighting.
    pub fn language(self, language: &str) -> (r: Self)
        ensures
            r@ == (CodeBlockModel { language: Some(language@), ..self@ }),
    {
        CodeBlock { language: Some(language.to_owned()), ..self }
    }

    /// Hides the copy control.
    pub fn not_copyable(self) -> (r: Self)
        ensures
            r@ == (CodeBlockModel { copyable: false, ..self@ }),
    {
        CodeBlock { copyable: false, ..self }
    }

    /// The block's identity.
    pub fn id(&self) -> (r: &str)
        ensures
            r@ == self@.id,
    {
        self.id.as_str()
    }

    /// The code.
    pub fn code(&self) -> (r: &str)
        ensures
            r@ == self@.code,
    {
        self.code.as_str()
    }

    /// Whether the code is still streaming in.
    pub fn is_streaming(&self) -> (r: bool)
        ensures
            r == self@.streaming,
    {
        self.streaming
    }

    /// The failure reason, if the stream failed.
    pub fn failure(&self) -> (r: Option<&str>)
        ensures
            match r {
                Some(t) => self@.failed == Some(t@),
                None => self@.failed.is_none(),
            },
    {
        match &self.failed {
            Some(reason) => Some(reason.as_str()),
            None => None,
        }
    }

    /// Whether the block offers a copy control.
    pub fn is_copyable(&self) -> (r: bool)
        ensures
            r == self@.copyable,
    {
        self.copyable
    }

    /// The language the header shows: the block's own, or `text`.
    pub fn language_name(&self) -> (r: &str)
        ensures
            r@ == language_label(self@),
    {
        proof {
            reveal_strlit("text");
            assert("text"@ =~= seq!['t', 'e', 'x', 't']);
        }
        match &self.language {
            Some(language) => language.as_str(),
            None => "text",
        }
    }

    /// How the block is announced: its language, then `code`.
    pub fn accessibility_label(&self) -> (r: String)
        ensures
            r@ == language_label(self@) + seq![' ', 'c', 'o', 'd', 'e'],
    {
        let mut label = self.language_name().to_owned();
        label.append(" code");
        proof {
            reveal_strlit(" code");
            assert(" code"@ =~= seq![' ', 'c', 'o', 'd', 'e']);
        }
        label
    }

    /// The fenced markdown the highlighter renders. The fence is one
    /// backtick longer than the longest run inside the code, and at least
    /// three, so the code cannot break out of it.
    pub fn markdown_source(&self) -> (r: String)
        requires
            self@.code.len() < usize::MAX,
        ensures
            r@ == block_source(self@),
    {
        let chars = chars_of(self.code.as_str());
        let fence = fence_for(&chars);
        let mut out = fence.clone();
        out.append(self.language_name());
        out.append("\n");
        out.append(self.code.as_str());
        if self.streaming {
            out.append("▌");
        }
        out.append("\n");
        out.append(fence.as_str());
        proof {
            reveal_strlit("\n");
            reveal_strlit("▌");
            assert("\n"@ =~= seq!['\n']);
            assert("▌"@ =~= seq!['▌']);
            assert(out@ =~= block_source(self@));
        }
        out
    }
}

} // verus!
