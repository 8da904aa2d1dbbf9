//! A unified patch as reviewable hunks: the data behind the code diff
//! viewer, its parser for `git diff` / `diff -u` output, and its printer.

use vstd::prelude::*;
use vstd::string::*;
use crate::diff_model::{
    after_first_token, apply_range, before_ws, count_kind, first_token, hunk_code, hunk_lines,
    hunk_ranges, join_lines, language_of, last_index_of, line_text, sign_char,
    stats_label, strip_path, HunkModel, LineModel, FileModel, new_file, total_kind,
    lemma_total_prefix, diff_label, unified_text, source_path, hunks_lines, lemma_join_concat,
    ParseState, initial_state, parse_step, body_step, classify, numbered_line, with_line,
    parse_from, unified,
};
use crate::fence::{backticks, fence_for, fence_width};
use crate::text::{
    chars_before, is_text, is_whitespace, lemma_trim_start_step, parse_u32_chars, push_char,
    push_decimal, slice_of, starts_with_text, string_of, trim_chars, trim_start, chars_of,
    split_scan, strip_cr, decimal,
};

verus! {

/// Whether a line was kept, added, or removed.
#[derive(Debug, Clone, Copy, PartialEq, Eq, Hash, Structural)]
pub enum DiffLineKind {
    /// Present on both sides.
    Context,
    /// Present only after the change.
    Added,
    /// Present only before the change.
    Removed,
}

/// The review decision recorded for a hunk.
#[derive(Debug, Clone, Copy, PartialEq, Eq, Hash, Structural)]
pub enum HunkReview {
    /// Not yet decided.
    Pending,
    /// The change was accepted.
    Accepted,
    /// The change was rejected.
    Rejected,
}

} // verus!

verus! {

impl DiffLineKind {
    /// The sign column a patch writes for this kind.
    pub fn sign(self) -> (r: &'static str)
        ensures
            r@ == seq![sign_char(self)],
    {
        proof {
            reveal_strlit(" ");
            reveal_strlit("+");
            reveal_strlit("-");
        }
        match self {
            DiffLineKind::Context => " ",
            DiffLineKind::Added => "+",
            DiffLineKind::Removed => "-",
        }
    }
}

/// One line of a hunk with its position on either side.
#[derive(Debug, Clone, PartialEq, Eq)]
pub struct DiffLine {
    kind: DiffLineKind,
    old_number: Option<u32>,
    new_number: Option<u32>,
    text: String,
}

impl View for DiffLine {
    type V = LineModel;

    closed spec fn view(&self) -> LineModel {
        LineModel {
            kind: self.kind,
            old_number: self.old_number,
            new_number: self.new_number,
            text: self.text@,
        }
    }
}

impl DiffLine {
    /// Creates a line without positions.
    pub fn new(kind: DiffLineKind, text: String) -> (r: Self)
        ensures
            r@ == (LineModel { kind, old_number: None, new_number: None, text: text@ }),
    {
        DiffLine { kind, old_number: None, new_number: None, text }
    }

    /// Sets the line number before the change.
    pub fn old_number(self, number: u32) -> (r: Self)
        ensures
            r@ == (LineModel { old_number: Some(number), ..self@ }),
    {
        DiffLine { old_number: Some(number), ..self }
    }

    /// Sets the line number after the change.
    pub fn new_number(self, number: u32) -> (r: Self)
        ensures
            r@ == (LineModel { new_number: Some(number), ..self@ }),
    {
        DiffLine { new_number: Some(number), ..self }
    }

    /// Returns the line kind.
    pub fn kind(&self) -> (r: DiffLineKind)
        ensures
            r == self@.kind,
    {
        self.kind
    }

    /// Returns the line text without its leading sign.
    pub fn text(&self) -> (r: &str)
        ensures
            r@ == self@.text,
    {
        self.text.as_str()
    }

    /// Returns the line number before the change.
    pub fn old_line(&self) -> (r: Option<u32>)
        ensures
            r == self@.old_number,
    {
        self.old_number
    }

    /// Returns the line number after the change.
    pub fn new_line(&self) -> (r: Option<u32>)
        ensures
            r == self@.new_number,
    {
        self.new_number
    }
}

/// The models of a sequence of lines.
pub open spec fn lines_view(v: Seq<DiffLine>) -> Seq<LineModel> {
    v.map_values(|l: DiffLine| l@)
}

} // verus!

verus! {

/// A contiguous group of changed lines.
#[derive(Debug, Clone, PartialEq, Eq)]
pub struct DiffHunk {
    header: String,
    lines: Vec<DiffLine>,
    review: HunkReview,
}

impl View for DiffHunk {
    type V = HunkModel;

    closed spec fn view(&self) -> HunkModel {
        HunkModel { header: self.header@, lines: lines_view(self.lines@), review: self.review }
    }
}

/// Added and removed line counts.
#[derive(Debug, Clone, Copy, PartialEq, Eq)]
pub struct DiffStats {
    /// Lines added.
    pub added: usize,
    /// Lines removed.
    pub removed: usize,
}

impl Default for DiffStats {
    fn default() -> (r: Self)
        ensures
            r.added == 0 && r.removed == 0,
    {
        DiffStats { added: 0, removed: 0 }
    }
}

impl DiffStats {
    /// The conventional `+a −r` summary.
    pub fn label(self) -> (r: String)
        ensures
            r@ == stats_label(self.added as nat, self.removed as nat),
    {
        let mut out = String::new();
        out.append("+");
        push_decimal(&mut out, self.added as u64);
        out.append(" \u{2212}");
        push_decimal(&mut out, self.removed as u64);
        assert(out@ =~= stats_label(self.added as nat, self.removed as nat));
        out
    }
}

impl DiffHunk {
    /// Creates a hunk with its `@@ … @@` header (or any short caption).
    pub fn new(header: String) -> (r: Self)
        ensures
            r@ == (HunkModel {
                header: header@,
                lines: Seq::empty(),
                review: HunkReview::Pending,
            }),
    {
        let r = DiffHunk { header, lines: Vec::new(), review: HunkReview::Pending };
        assert(lines_view(r.lines@) =~= Seq::<LineModel>::empty());
        r
    }

    /// Sets the lines, in order.
    pub fn lines(self, lines: Vec<DiffLine>) -> (r: Self)
        ensures
            r@ == (HunkModel { lines: lines_view(lines@), ..self@ }),
    {
        DiffHunk { lines, ..self }
    }

    /// Records the review decision.
    pub fn review(self, review: HunkReview) -> (r: Self)
        ensures
            r@ == (HunkModel { review, ..self@ }),
    {
        DiffHunk { review, ..self }
    }

    /// Returns the hunk header.
    pub fn header(&self) -> (r: &str)
        ensures
            r@ == self@.header,
    {
        self.header.as_str()
    }

    /// Returns the lines.
    pub fn line_refs(&self) -> (r: &[DiffLine])
        ensures
            lines_view(r@) == self@.lines,
    {
        self.lines.as_slice()
    }

    /// Returns the review decision.
    pub fn review_state(&self) -> (r: HunkReview)
        ensures
            r == self@.review,
    {
        self.review
    }

    /// Counts added and removed lines.
    pub fn stats(&self) -> (r: DiffStats)
        ensures
            r.added == count_kind(self@.lines, DiffLineKind::Added),
            r.removed == count_kind(self@.lines, DiffLineKind::Removed),
    {
        let mut added: usize = 0;
        let mut removed: usize = 0;
        let mut i: usize = 0;
        while i < self.lines.len()
            invariant
                i <= self.lines.len(),
                added == count_kind(lines_view(self.lines@.take(i as int)), DiffLineKind::Added),
                removed == count_kind(
                    lines_view(self.lines@.take(i as int)),
                    DiffLineKind::Removed,
                ),
                added + removed <= i,
            decreases self.lines.len() - i,
        {
            assert(lines_view(self.lines@.take(i + 1)).drop_last() =~= lines_view(
                self.lines@.take(i as int),
            ));
            match self.lines[i].kind {
                DiffLineKind::Added => added += 1,
                DiffLineKind::Removed => removed += 1,
                DiffLineKind::Context => {},
            }
            i += 1;
        }
        assert(self.lines@.take(i as int) =~= self.lines@);
        DiffStats { added, removed }
    }

    /// The hunk's text without signs, one line per line.
    pub fn code(&self) -> (r: String)
        ensures
            r@ == hunk_code(self@),
    {
        let mut out = String::new();
        let mut i: usize = 0;
        while i < self.lines.len()
            invariant
                i <= self.lines.len(),
                out@ == join_lines(
                    lines_view(self.lines@.take(i as int)).map_values(|l: LineModel| l.text),
                ),
            decreases self.lines.len() - i,
        {
            let ghost before = lines_view(self.lines@.take(i as int)).map_values(
                |l: LineModel| l.text,
            );
            let ghost after = lines_view(self.lines@.take(i + 1)).map_values(|l: LineModel| l.text);
            assert(after =~= before.push(self.lines@[i as int]@.text));
            assert(after.drop_last() =~= before);
            out.append(self.lines[i].text.as_str());
            push_char(&mut out, '\n');
            assert(out@ =~= join_lines(before) + self.lines@[i as int]@.text + seq!['\n']);
            i += 1;
        }
        assert(self.lines@.take(i as int) =~= self.lines@);
        out
    }

    /// The hunk as patch text: its header, then each line with its sign.
    pub fn patch_text(&self) -> (r: String)
        ensures
            r@ == join_lines(hunk_lines(self@)),
    {
        let mut out = String::new();
        out.append(self.header.as_str());
        push_char(&mut out, '\n');
        let mut i: usize = 0;
        assert(seq![self@.header] + lines_view(self.lines@.take(0)).map_values(
            |l: LineModel| line_text(l),
        ) =~= seq![self@.header]);
        assert(join_lines(seq![self@.header]) =~= self@.header + seq!['\n']) by {
            assert(seq![self@.header].drop_last() =~= Seq::<Seq<char>>::empty());
            assert(join_lines(Seq::<Seq<char>>::empty()) == Seq::<char>::empty());
        }
        while i < self.lines.len()
            invariant
                i <= self.lines.len(),
                out@ == join_lines(
                    seq![self@.header] + lines_view(self.lines@.take(i as int)).map_values(
                        |l: LineModel| line_text(l),
                    ),
                ),
            decreases self.lines.len() - i,
        {
            let ghost before = seq![self@.header] + lines_view(self.lines@.take(i as int)).map_values(
                |l: LineModel| line_text(l),
            );
            let ghost after = seq![self@.header] + lines_view(self.lines@.take(i + 1)).map_values(
                |l: LineModel| line_text(l),
            );
            assert(after =~= before.push(line_text(self.lines@[i as int]@)));
            assert(after.drop_last() =~= before);
            out.append(self.lines[i].kind.sign());
            out.append(self.lines[i].text.as_str());
            push_char(&mut out, '\n');
            assert(out@ =~= join_lines(before) + line_text(self.lines@[i as int]@) + seq!['\n']);
            i += 1;
        }
        assert(self.lines@.take(i as int) =~= self.lines@);
        out
    }
}

} // verus!

verus! {

/// The path a `---` or `+++` header line names after its marker.
fn strip_prefix_path(rest: &Vec<char>) -> (r: String)
    ensures
        r@ == strip_path(rest@),
{
    let before = chars_before(rest, '\t');
    let path = trim_chars(&before);
    if starts_with_text(&path, "a/") || starts_with_text(&path, "b/") {
        proof {
            reveal_strlit("a/");
            reveal_strlit("b/");
        }
        string_of(&slice_of(&path, 2, path.len()))
    } else {
        string_of(&path)
    }
}

/// The first whitespace-separated token of `s`, and what follows it.
fn split_first_token(s: &Vec<char>) -> (r: (Vec<char>, Vec<char>))
    ensures
        r.0@ == first_token(s@),
        r.1@ == after_first_token(s@),
{
    let n = s.len();
    let mut i: usize = 0;
    assert(s@.subrange(0, n as int) =~= s@);
    while i < n && is_whitespace(s[i])
        invariant
            i <= n == s.len(),
            trim_start(s@) == trim_start(s@.subrange(i as int, n as int)),
        decreases n - i,
    {
        proof {
            lemma_trim_start_step(s@, i as int);
        }
        i += 1;
    }
    assert(trim_start(s@) == s@.subrange(i as int, n as int));
    let mut j: usize = i;
    assert(s@.subrange(i as int, i as int) + before_ws(s@.subrange(i as int, n as int))
        =~= before_ws(s@.subrange(i as int, n as int)));
    while j < n && !is_whitespace(s[j])
        invariant
            i <= j <= n == s.len(),
            before_ws(s@.subrange(i as int, n as int)) == s@.subrange(i as int, j as int)
                + before_ws(s@.subrange(j as int, n as int)),
        decreases n - j,
    {
        assert(s@.subrange(j as int, n as int).drop_first() =~= s@.subrange(j + 1, n as int));
        assert(s@.subrange(i as int, j as int) + (seq![s@[j as int]] + before_ws(
            s@.subrange(j + 1, n as int),
        )) =~= s@.subrange(i as int, j + 1) + before_ws(s@.subrange(j + 1, n as int)));
        j += 1;
    }
    assert(before_ws(s@.subrange(j as int, n as int)) =~= Seq::<char>::empty());
    assert(s@.subrange(i as int, j as int) + Seq::<char>::empty() =~= s@.subrange(
        i as int,
        j as int,
    ));
    assert(s@.subrange(i as int, n as int).skip(j - i) =~= s@.subrange(j as int, n as int));
    (slice_of(s, i, j), slice_of(s, j, n))
}

/// The (old, new) starts after reading one range token.
fn apply_range_token(starts: (u32, u32), token: &Vec<char>) -> (r: (u32, u32))
    ensures
        r == apply_range(starts, token@),
{
    if token.len() == 0 {
        return starts;
    }
    let rest = slice_of(token, 1, token.len());
    assert(rest@ =~= token@.drop_first());
    let number = chars_before(&rest, ',');
    let start = match parse_u32_chars(&number) {
        Some(v) => v,
        None => 1,
    };
    if token[0] == '-' {
        (start, starts.1)
    } else if token[0] == '+' {
        (starts.0, start)
    } else {
        starts
    }
}

/// The old and new start lines a hunk header names after its `@@`.
fn parse_hunk_ranges(rest: &Vec<char>) -> (r: (u32, u32))
    ensures
        r == hunk_ranges(rest@),
{
    let (first, after) = split_first_token(rest);
    let (second, _) = split_first_token(&after);
    let starts = apply_range_token((1, 1), &first);
    apply_range_token(starts, &second)
}

/// The highlighting language a path's extension implies.
fn language_for(path: &Vec<char>) -> (r: Option<&'static str>)
    ensures
        match r {
            Some(name) => language_of(path@) == Some(name@),
            None => language_of(path@) is None,
        },
{
    let n = path.len();
    let mut k: usize = n;
    assert(path@.subrange(0, n as int) =~= path@);
    while k > 0 && path[k - 1] != '.'
        invariant
            k <= n == path.len(),
            last_index_of(path@, '.') == last_index_of(path@.subrange(0, k as int), '.'),
        decreases k,
    {
        assert(path@.subrange(0, k as int).drop_last() =~= path@.subrange(0, k - 1));
        k -= 1;
    }
    if k == 0 {
        assert(path@.subrange(0, 0) =~= Seq::<char>::empty());
        return None;
    }
    assert(last_index_of(path@, '.') == k - 1);
    let ext = slice_of(path, k, n);
    assert(ext@ =~= path@.skip(k as int));
    if is_text(&ext, "rs") {
        Some("rust")
    } else if is_text(&ext, "ts") || is_text(&ext, "tsx") {
        Some("typescript")
    } else if is_text(&ext, "js") || is_text(&ext, "jsx") || is_text(&ext, "mjs") {
        Some("javascript")
    } else if is_text(&ext, "py") {
        Some("python")
    } else if is_text(&ext, "go") {
        Some("go")
    } else if is_text(&ext, "toml") {
        Some("toml")
    } else if is_text(&ext, "json") {
        Some("json")
    } else if is_text(&ext, "md") {
        Some("markdown")
    } else if is_text(&ext, "sh") || is_text(&ext, "zsh") || is_text(&ext, "bash") {
        Some("bash")
    } else if is_text(&ext, "css") {
        Some("css")
    } else if is_text(&ext, "html") {
        Some("html")
    } else if is_text(&ext, "yaml") || is_text(&ext, "yml") {
        Some("yaml")
    } else if is_text(&ext, "sql") {
        Some("sql")
    } else if is_text(&ext, "c") || is_text(&ext, "h") {
        Some("c")
    } else if is_text(&ext, "cpp") || is_text(&ext, "hpp") || is_text(&ext, "cc") {
        Some("cpp")
    } else if is_text(&ext, "java") {
        Some("java")
    } else if is_text(&ext, "kt") {
        Some("kotlin")
    } else if is_text(&ext, "swift") {
        Some("swift")
    } else if is_text(&ext, "rb") {
        Some("ruby")
    } else {
        None
    }
}

} // verus!

verus! {

/// One file's patch.
#[derive(Debug, Clone, PartialEq, Eq)]
pub struct DiffFile {
    path: String,
    old_path: Option<String>,
    language: Option<String>,
    hunks: Vec<DiffHunk>,
}

/// The model of an optional text.
pub open spec fn text_view(t: Option<String>) -> Option<Seq<char>> {
    match t {
        Some(s) => Some(s@),
        None => None,
    }
}

/// The models of a sequence of hunks.
pub open spec fn hunks_view(v: Seq<DiffHunk>) -> Seq<HunkModel> {
    v.map_values(|h: DiffHunk| h@)
}

/// The models of a sequence of files.
pub open spec fn files_view(v: Seq<DiffFile>) -> Seq<FileModel> {
    v.map_values(|f: DiffFile| f@)
}

impl View for DiffFile {
    type V = FileModel;

    closed spec fn view(&self) -> FileModel {
        FileModel {
            path: self.path@,
            old_path: text_view(self.old_path),
            language: text_view(self.language),
            hunks: hunks_view(self.hunks@),
        }
    }
}

/// A `String` with the characters of a static text.
fn owned(s: &'static str) -> (r: String)
    ensures
        r@ == s@,
{
    s.to_owned()
}

impl DiffFile {
    /// Creates a patch for `path`; the language is inferred from its extension.
    pub fn new(path: String) -> (r: Self)
        ensures
            r@ == new_file(path@),
    {
        let chars = chars_of(path.as_str());
        let language = match language_for(&chars) {
            Some(name) => Some(owned(name)),
            None => None,
        };
        let r = DiffFile { path, old_path: None, language, hunks: Vec::new() };
        assert(hunks_view(r.hunks@) =~= Seq::<HunkModel>::empty());
        r
    }

    /// Records the path before a rename.
    pub fn renamed_from(self, old_path: String) -> (r: Self)
        ensures
            r@ == (FileModel { old_path: Some(old_path@), ..self@ }),
    {
        DiffFile { old_path: Some(old_path), ..self }
    }

    /// Overrides the highlighting language.
    pub fn language(self, language: String) -> (r: Self)
        ensures
            r@ == (FileModel { language: Some(language@), ..self@ }),
    {
        DiffFile { language: Some(language), ..self }
    }

    /// Sets the hunks, in order.
    pub fn hunks(self, hunks: Vec<DiffHunk>) -> (r: Self)
        ensures
            r@ == (FileModel { hunks: hunks_view(hunks@), ..self@ }),
    {
        DiffFile { hunks, ..self }
    }

    /// Returns the file path after the change.
    pub fn path(&self) -> (r: &str)
        ensures
            r@ == self@.path,
    {
        self.path.as_str()
    }

    /// Returns the path before a rename, if any.
    pub fn old_path(&self) -> (r: Option<&str>)
        ensures
            match r {
                Some(p) => self@.old_path == Some(p@),
                None => self@.old_path is None,
            },
    {
        match &self.old_path {
            Some(p) => Some(p.as_str()),
            None => None,
        }
    }

    /// Returns the highlighting language, if known.
    pub fn language_name(&self) -> (r: Option<&str>)
        ensures
            match r {
                Some(p) => self@.language == Some(p@),
                None => self@.language is None,
            },
    {
        match &self.language {
            Some(p) => Some(p.as_str()),
            None => None,
        }
    }

    /// Returns the hunks.
    pub fn hunk_refs(&self) -> (r: &[DiffHunk])
        ensures
            hunks_view(r@) == self@.hunks,
    {
        self.hunks.as_slice()
    }

    /// Sums the hunk statistics.
    pub fn stats(&self) -> (r: DiffStats)
        requires
            total_kind(self@.hunks, DiffLineKind::Added) <= usize::MAX,
            total_kind(self@.hunks, DiffLineKind::Removed) <= usize::MAX,
        ensures
            r.added == total_kind(self@.hunks, DiffLineKind::Added),
            r.removed == total_kind(self@.hunks, DiffLineKind::Removed),
    {
        let mut acc = DiffStats { added: 0, removed: 0 };
        let mut i: usize = 0;
        while i < self.hunks.len()
            invariant
                i <= self.hunks.len(),
                total_kind(hunks_view(self.hunks@), DiffLineKind::Added) <= usize::MAX,
                total_kind(hunks_view(self.hunks@), DiffLineKind::Removed) <= usize::MAX,
                acc.added == total_kind(hunks_view(self.hunks@.take(i as int)), DiffLineKind::Added),
                acc.removed == total_kind(
                    hunks_view(self.hunks@.take(i as int)),
                    DiffLineKind::Removed,
                ),
            decreases self.hunks.len() - i,
        {
            assert(hunks_view(self.hunks@.take(i + 1)).drop_last() =~= hunks_view(
                self.hunks@.take(i as int),
            ));
            proof {
                lemma_total_prefix(hunks_view(self.hunks@), i as int + 1, DiffLineKind::Added);
                lemma_total_prefix(hunks_view(self.hunks@), i as int + 1, DiffLineKind::Removed);
                assert(hunks_view(self.hunks@.take(i + 1)) =~= hunks_view(self.hunks@).take(
                    i + 1,
                ));
            }
            let stats = self.hunks[i].stats();
            acc = DiffStats { added: acc.added + stats.added, removed: acc.removed + stats.removed };
            i += 1;
        }
        assert(self.hunks@.take(i as int) =~= self.hunks@);
        acc
    }

    /// The accessible name: path and statistics.
    pub fn accessibility_label(&self) -> (r: String)
        requires
            total_kind(self@.hunks, DiffLineKind::Added) <= usize::MAX,
            total_kind(self@.hunks, DiffLineKind::Removed) <= usize::MAX,
        ensures
            r@ == diff_label(self@),
    {
        let mut out = String::new();
        out.append("Diff of ");
        out.append(self.path.as_str());
        out.append(", ");
        let label = self.stats().label();
        out.append(label.as_str());
        assert(out@ =~= diff_label(self@));
        out
    }

    /// Rebuilds a unified patch for this file (what the copy button exports).
    pub fn to_unified(&self) -> (r: String)
        ensures
            r@ == unified_text(self@),
    {
        let mut out = String::new();
        out.append("--- a/");
        match &self.old_path {
            Some(old) => out.append(old.as_str()),
            None => out.append(self.path.as_str()),
        }
        let ghost first = "--- a/"@ + source_path(self@);
        assert(out@ =~= first);
        push_char(&mut out, '\n');
        let ghost mark = out@;
        out.append("+++ b/");
        out.append(self.path.as_str());
        push_char(&mut out, '\n');
        let ghost second = "+++ b/"@ + self@.path;
        assert(out@ =~= first + seq!['\n'] + second + seq!['\n']);
        let ghost head = seq![first, second];
        assert(join_lines(head) =~= out@) by {
            let e = Seq::<Seq<char>>::empty();
            assert(head.drop_last() =~= seq![first]);
            assert(seq![first].drop_last() =~= e);
            assert(join_lines(e) == Seq::<char>::empty());
            assert(join_lines(seq![first]) =~= first + seq!['\n']);
            assert(join_lines(head) =~= join_lines(seq![first]) + second + seq!['\n']);
        }
        let mut i: usize = 0;
        assert(head + hunks_lines(hunks_view(self.hunks@.take(0))) =~= head);
        while i < self.hunks.len()
            invariant
                i <= self.hunks.len(),
                out@ == join_lines(head + hunks_lines(hunks_view(self.hunks@.take(i as int)))),
            decreases self.hunks.len() - i,
        {
            let ghost before = head + hunks_lines(hunks_view(self.hunks@.take(i as int)));
            let text = self.hunks[i].patch_text();
            out.append(text.as_str());
            proof {
                assert(hunks_view(self.hunks@.take(i + 1)).drop_last() =~= hunks_view(
                    self.hunks@.take(i as int),
                ));
                assert(head + hunks_lines(hunks_view(self.hunks@.take(i + 1))) =~= before
                    + hunk_lines(self.hunks@[i as int]@));
                lemma_join_concat(before, hunk_lines(self.hunks@[i as int]@));
            }
            i += 1;
        }
        assert(self.hunks@.take(i as int) =~= self.hunks@);
        out
    }
}

} // verus!

verus! {

/// A parse in progress: the files read so far, an old path waiting for its
/// `+++`, and the next line number on either side.
struct Reader {
    files: Vec<DiffFile>,
    pending_old: Option<String>,
    old_line: u32,
    new_line: u32,
    fault: bool,
}

impl Reader {
    spec fn state(&self) -> ParseState {
        ParseState {
            files: files_view(self.files@),
            pending_old: text_view(self.pending_old),
            old_line: self.old_line,
            new_line: self.new_line,
            fault: self.fault,
        }
    }

    fn new() -> (r: Self)
        ensures
            r.state() == initial_state(),
    {
        let r = Reader {
            files: Vec::new(),
            pending_old: None,
            old_line: 0,
            new_line: 0,
            fault: false,
        };
        assert(files_view(r.files@) =~= Seq::<FileModel>::empty());
        r
    }

    /// Reads one line of the patch.
    fn read(&mut self, raw: &Vec<char>)
        ensures
            final(self).state() == parse_step(old(self).state(), raw@),
    {
        if self.fault {
            return;
        }
        proof {
            reveal_strlit("--- ");
            reveal_strlit("+++ ");
            reveal_strlit("@@");
        }
        if starts_with_text(raw, "--- ") {
            let rest = slice_of(raw, 4, raw.len());
            self.pending_old = Some(strip_prefix_path(&rest));
            return;
        }
        if starts_with_text(raw, "+++ ") {
            let rest = slice_of(raw, 4, raw.len());
            let path = strip_prefix_path(&rest);
            let pending = self.pending_old.take();
            let file = DiffFile::new(path.clone());
            let file = match pending {
                Some(old) => {
                    if !(old == path) && !is_text(&chars_of(old.as_str()), "/dev/null") {
                        file.renamed_from(old)
                    } else {
                        file
                    }
                },
                None => file,
            };
            let ghost before = files_view(self.files@);
            self.files.push(file);
            assert(files_view(self.files@) =~= before.push(file@));
            return;
        }
        if starts_with_text(raw, "@@") {
            if self.files.len() == 0 {
                return;
            }
            let rest = slice_of(raw, 2, raw.len());
            let (old_start, new_start) = parse_hunk_ranges(&rest);
            let hunk = DiffHunk::new(string_of(raw));
            let ghost before = files_view(self.files@);
            let mut file = self.files.pop().unwrap();
            let ghost hunks_before = hunks_view(file.hunks@);
            file.hunks.push(hunk);
            assert(hunks_view(file.hunks@) =~= hunks_before.push(hunk@));
            self.files.push(file);
            assert(files_view(self.files@) =~= before.update(
                before.len() - 1,
                FileModel { hunks: before.last().hunks.push(hunk@), ..before.last() },
            ));
            self.old_line = old_start;
            self.new_line = new_start;
            return;
        }
        self.read_body(raw);
    }

    /// Reads one line that is neither a file header nor a hunk header.
    fn read_body(&mut self, raw: &Vec<char>)
        requires
            !old(self).fault,
        ensures
            final(self).state() == body_step(old(self).state(), raw@),
    {
        if self.files.len() == 0 {
            return;
        }
        let last = self.files.len() - 1;
        if self.files[last].hunks.len() == 0 {
            return;
        }
        let (kind, text) = if raw.len() == 0 {
            (DiffLineKind::Context, Vec::new())
        } else if raw[0] == '+' {
            (DiffLineKind::Added, slice_of(raw, 1, raw.len()))
        } else if raw[0] == '-' {
            (DiffLineKind::Removed, slice_of(raw, 1, raw.len()))
        } else if raw[0] == ' ' {
            (DiffLineKind::Context, slice_of(raw, 1, raw.len()))
        } else if raw[0] == '\\' {
            (DiffLineKind::Context, slice_of(raw, 0, raw.len()))
        } else {
            return;
        };
        assert(raw@.len() > 0 ==> raw@.drop_first() =~= raw@.subrange(1, raw@.len() as int));
        assert(raw@.subrange(0, raw@.len() as int) =~= raw@);
        assert(classify(raw@) == Some((kind, text@)));
        let counts_old = match kind {
            DiffLineKind::Added => false,
            _ => true,
        };
        let counts_new = match kind {
            DiffLineKind::Removed => false,
            _ => true,
        };
        if (counts_old && self.old_line == u32::MAX) || (counts_new && self.new_line == u32::MAX) {
            self.fault = true;
            return;
        }
        let ghost old_state = self.state();
        let mut line = DiffLine::new(kind, string_of(&text));
        if counts_old {
            line = line.old_number(self.old_line);
            self.old_line = self.old_line + 1;
        }
        if counts_new {
            line = line.new_number(self.new_line);
            self.new_line = self.new_line + 1;
        }
        assert(line@ == numbered_line(kind, text@, old_state.old_line, old_state.new_line));
        let ghost before = files_view(self.files@);
        let mut file = self.files.pop().unwrap();
        let ghost hunks_before = hunks_view(file.hunks@);
        let mut hunk = file.hunks.pop().unwrap();
        let ghost lines_before = lines_view(hunk.lines@);
        hunk.lines.push(line);
        assert(lines_view(hunk.lines@) =~= lines_before.push(line@));
        file.hunks.push(hunk);
        assert(hunks_view(file.hunks@) =~= hunks_before.update(
            hunks_before.len() - 1,
            HunkModel { lines: hunks_before.last().lines.push(line@), ..hunks_before.last() },
        ));
        self.files.push(file);
        assert(files_view(self.files@) =~= with_line(before, line@));
    }
}

impl DiffFile {
    /// Parses a unified diff as [`from_unified`](Self::from_unified) does,
    /// or gives `None` for a patch whose line numbers would pass `u32::MAX`.
    pub fn try_from_unified(patch: &str) -> (r: Option<Vec<DiffFile>>)
        ensures
            r is None <==> unified(patch@).fault,
            r matches Some(files) ==> files_view(files@) == unified(patch@).files,
    {
        let chars = chars_of(patch);
        let mut reader = Reader::new();
        let mut cur: Vec<char> = Vec::new();
        let ghost mut done: Seq<Seq<char>> = Seq::empty();
        let mut k: usize = 0;
        assert(chars@.take(0) =~= Seq::<char>::empty());
        while k < chars.len()
            invariant
                k <= chars.len(),
                chars@ == patch@,
                split_scan(chars@.take(k as int)) == (done, cur@),
                reader.state() == parse_from(initial_state(), done),
            decreases chars.len() - k,
        {
            let c = chars[k];
            assert(chars@.take(k + 1).drop_last() =~= chars@.take(k as int));
            if c == '\n' {
                let line = if cur.len() > 0 && cur[cur.len() - 1] == '\r' {
                    slice_of(&cur, 0, cur.len() - 1)
                } else {
                    slice_of(&cur, 0, cur.len())
                };
                assert(line@ =~= strip_cr(cur@));
                let ghost prior = parse_from(initial_state(), done);
                reader.read(&line);
                proof {
                    assert(done.push(line@).drop_last() =~= done);
                    done = done.push(line@);
                }
                cur = Vec::new();
                assert(cur@ =~= Seq::<char>::empty());
            } else {
                cur.push(c);
            }
            k += 1;
        }
        assert(chars@.take(k as int) =~= patch@);
        if cur.len() > 0 {
            reader.read(&cur);
            proof {
                assert(done.push(cur@).drop_last() =~= done);
                done = done.push(cur@);
            }
        }
        if reader.fault {
            None
        } else {
            Some(reader.files)
        }
    }

    /// Parses a unified diff (as produced by `git diff` or `diff -u`) into
    /// one file per `---`/`+++` pair. Unknown lines are ignored so partial
    /// tool output still renders.
    pub fn from_unified(patch: &str) -> (r: Vec<DiffFile>)
        requires
            !unified(patch@).fault,
        ensures
            files_view(r@) == unified(patch@).files,
    {
        match DiffFile::try_from_unified(patch) {
            Some(files) => files,
            None => Vec::new(),
        }
    }
}

} // verus!

verus! {

impl Default for HunkReview {
    fn default() -> (r: Self)
        ensures
            r == HunkReview::Pending,
    {
        HunkReview::Pending
    }
}

/// What a hunk's header shows of its review.
#[derive(Debug, Clone, Copy, PartialEq, Eq, Structural)]
pub enum ReviewDisplay {
    /// An "Accepted" badge.
    AcceptedBadge,
    /// A "Rejected" badge.
    RejectedBadge,
    /// Accept and reject controls.
    Controls,
    /// Nothing.
    Nothing,
}

/// What a hunk shows of its review: a settled decision as a badge; a
/// pending one as controls, only where the viewer is reviewable and someone
/// handles the decision; else nothing.
pub fn review_display(review: HunkReview, reviewable: bool, handled: bool) -> (r: ReviewDisplay)
    ensures
        r == match review {
            HunkReview::Accepted => ReviewDisplay::AcceptedBadge,
            HunkReview::Rejected => ReviewDisplay::RejectedBadge,
            HunkReview::Pending => if reviewable && handled {
                ReviewDisplay::Controls
            } else {
                ReviewDisplay::Nothing
            },
        },
{
    match review {
        HunkReview::Accepted => ReviewDisplay::AcceptedBadge,
        HunkReview::Rejected => ReviewDisplay::RejectedBadge,
        HunkReview::Pending => if reviewable && handled {
            ReviewDisplay::Controls
        } else {
            ReviewDisplay::Nothing
        },
    }
}

/// The fenced markdown a hunk's code renders as in `language`.
pub open spec fn hunk_source(h: HunkModel, language: Seq<char>) -> Seq<char> {
    let fence = backticks(fence_width(hunk_code(h)));
    fence + language + seq!['\n'] + hunk_code(h) + fence
}

/// The accessible name of the hunk at position `index` of its file.
pub open spec fn hunk_label(h: HunkModel, index: nat) -> Seq<char> {
    "Hunk "@ + decimal(index + 1) + " of "@ + h.header + ": "@ + stats_label(
        count_kind(h.lines, DiffLineKind::Added),
        count_kind(h.lines, DiffLineKind::Removed),
    )
}

impl DiffHunk {
    /// The hunk's code as a fenced markdown block in `language`, with a
    /// fence that no backtick run inside the code can close.
    pub fn markdown_source(&self, language: &str) -> (r: String)
        requires
            hunk_code(self@).len() < usize::MAX,
        ensures
            r@ == hunk_source(self@, language@),
    {
        let code = self.code();
        let chars = chars_of(code.as_str());
        let fence = fence_for(&chars);
        let mut out = fence.clone();
        out.append(language);
        out.append("\n");
        out.append(code.as_str());
        out.append(fence.as_str());
        proof {
            reveal_strlit("\n");
            assert("\n"@ =~= seq!['\n']);
            assert(out@ =~= hunk_source(self@, language@));
        }
        out
    }

    /// How the hunk at position `index` of its file is announced: its
    /// ordinal from one, its header, and its `+a −r` summary.
    pub fn accessibility_label(&self, index: usize) -> (r: String)
        requires
            index < u64::MAX,
        ensures
            r@ == hunk_label(self@, index as nat),
    {
        let stats = self.stats();
        let mut out = String::new();
        out.append("Hunk ");
        push_decimal(&mut out, index as u64 + 1);
        out.append(" of ");
        out.append(self.header.as_str());
        out.append(": ");
        let summary = stats.label();
        out.append(summary.as_str());
        assert(out@ =~= hunk_label(self@, index as nat));
        out
    }
}

} // verus!

verus! {

/// An interaction emitted by a code diff viewer.
#[derive(Debug, Clone, PartialEq, Eq)]
pub enum CodeDiffEvent {
    /// The file header was toggled open or closed.
    Toggled {
        /// File path after the change.
        path: String,
    },
    /// A hunk was accepted.
    HunkAccepted {
        /// File path after the change.
        path: String,
        /// Zero-based hunk index.
        hunk: usize,
    },
    /// A hunk was rejected.
    HunkRejected {
        /// File path after the change.
        path: String,
        /// Zero-based hunk index.
        hunk: usize,
    },
}

/// The accessible name of a diff's disclosure toggle while it is `open` or
/// closed.
pub fn toggle_label(open: bool) -> (r: &'static str)
    ensures
        r@ == if open {
            "Collapse diff"@
        } else {
            "Expand diff"@
        },
{
    if open {
        "Collapse diff"
    } else {
        "Expand diff"
    }
}

impl DiffFile {
    /// The note a renamed file's header shows: `renamed from` and the old
    /// path; none for a file that was not renamed.
    pub fn rename_note(&self) -> (r: Option<String>)
        ensures
            match self@.old_path {
                Some(old) => r matches Some(note) && note@ == "renamed from "@ + old,
                None => r is None,
            },
    {
        match &self.old_path {
            Some(old) => {
                let mut note = "renamed from ".to_owned();
                note.append(old.as_str());
                Some(note)
            },
            None => None,
        }
    }
}

} // verus!
