//! The mathematical model of a unified diff: what a patch's text parses
//! into, and what text a file's patch prints as.

use vstd::prelude::*;
use crate::code_diff::{DiffLineKind, HunkReview};
use crate::text::{
    before_char, decimal, has_prefix, is_ws, lines_of, parse_u32, trim, trim_start,
};

verus! {

/// One line of a hunk: its kind, its number on either side, its text.
pub struct LineModel {
    pub kind: DiffLineKind,
    pub old_number: Option<u32>,
    pub new_number: Option<u32>,
    pub text: Seq<char>,
}

/// A hunk: its `@@` header, its lines in order, and its review decision.
pub struct HunkModel {
    pub header: Seq<char>,
    pub lines: Seq<LineModel>,
    pub review: HunkReview,
}

/// One file's patch.
pub struct FileModel {
    pub path: Seq<char>,
    pub old_path: Option<Seq<char>>,
    pub language: Option<Seq<char>>,
    pub hunks: Seq<HunkModel>,
}

// ---------------------------------------------------------------------
// Paths and languages

/// A path as a `---`/`+++` header names it: up to the first tab, trimmed,
/// and without one leading `a/` or `b/`.
pub open spec fn strip_path(rest: Seq<char>) -> Seq<char> {
    let p = trim(before_char(rest, '\t'));
    if has_prefix(p, "a/"@) || has_prefix(p, "b/"@) {
        p.skip(2)
    } else {
        p
    }
}

/// Index of the last `c` in `s`, or -1.
pub open spec fn last_index_of(s: Seq<char>, c: char) -> int
    decreases s.len(),
{
    if s.len() == 0 {
        -1
    } else if s.last() == c {
        s.len() - 1
    } else {
        last_index_of(s.drop_last(), c)
    }
}

/// The text after the last `.` of `path`, if it has one.
pub open spec fn extension(path: Seq<char>) -> Option<Seq<char>> {
    let i = last_index_of(path, '.');
    if i < 0 {
        None
    } else {
        Some(path.skip(i + 1))
    }
}

/// The highlighting language for a file extension.
pub open spec fn language_for_extension(e: Seq<char>) -> Option<Seq<char>> {
    if e == "rs"@ {
        Some("rust"@)
    } else if e == "ts"@ || e == "tsx"@ {
        Some("typescript"@)
    } else if e == "js"@ || e == "jsx"@ || e == "mjs"@ {
        Some("javascript"@)
    } else if e == "py"@ {
        Some("python"@)
    } else if e == "go"@ {
        Some("go"@)
    } else if e == "toml"@ {
        Some("toml"@)
    } else if e == "json"@ {
        Some("json"@)
    } else if e == "md"@ {
        Some("markdown"@)
    } else if e == "sh"@ || e == "zsh"@ || e == "bash"@ {
        Some("bash"@)
    } else if e == "css"@ {
        Some("css"@)
    } else if e == "html"@ {
        Some("html"@)
    } else if e == "yaml"@ || e == "yml"@ {
        Some("yaml"@)
    } else if e == "sql"@ {
        Some("sql"@)
    } else if e == "c"@ || e == "h"@ {
        Some("c"@)
    } else if e == "cpp"@ || e == "hpp"@ || e == "cc"@ {
        Some("cpp"@)
    } else if e == "java"@ {
        Some("java"@)
    } else if e == "kt"@ {
        Some("kotlin"@)
    } else if e == "swift"@ {
        Some("swift"@)
    } else if e == "rb"@ {
        Some("ruby"@)
    } else {
        None
    }
}

/// The language a path's extension implies.
pub open spec fn language_of(path: Seq<char>) -> Option<Seq<char>> {
    match extension(path) {
        Some(e) => language_for_extension(e),
        None => None,
    }
}

/// A file as `DiffFile::new` makes it for `path`.
pub open spec fn new_file(path: Seq<char>) -> FileModel {
    FileModel { path, old_path: None, language: language_of(path), hunks: Seq::empty() }
}

// ---------------------------------------------------------------------
// Hunk headers

/// The run of non-whitespace characters `s` starts with.
pub open spec fn before_ws(s: Seq<char>) -> Seq<char>
    decreases s.len(),
{
    if s.len() == 0 || is_ws(s[0]) {
        Seq::empty()
    } else {
        seq![s[0]] + before_ws(s.drop_first())
    }
}

/// The first whitespace-separated token of `s` (empty when there is none).
pub open spec fn first_token(s: Seq<char>) -> Seq<char> {
    before_ws(trim_start(s))
}

/// What follows the first token of `s`.
pub open spec fn after_first_token(s: Seq<char>) -> Seq<char> {
    trim_start(s).skip(first_token(s).len() as int)
}

/// The second whitespace-separated token of `s` (empty when there is none).
pub open spec fn second_token(s: Seq<char>) -> Seq<char> {
    first_token(after_first_token(s))
}

/// The start a range token such as `-12,4` names: the number after its
/// sign and before any comma, or 1 where that is not a number.
pub open spec fn range_start(token: Seq<char>) -> u32 {
    match parse_u32(before_char(token.drop_first(), ',')) {
        Some(v) => v,
        None => 1,
    }
}

/// The (old, new) starts after reading one range token.
pub open spec fn apply_range(starts: (u32, u32), token: Seq<char>) -> (u32, u32) {
    if token.len() == 0 {
        starts
    } else if token[0] == '-' {
        (range_start(token), starts.1)
    } else if token[0] == '+' {
        (starts.0, range_start(token))
    } else {
        starts
    }
}

/// The old and new start lines a hunk header names after its `@@`; 1 for
/// either side it does not name.
pub open spec fn hunk_ranges(rest: Seq<char>) -> (u32, u32) {
    apply_range(apply_range((1, 1), first_token(rest)), second_token(rest))
}

// ---------------------------------------------------------------------
// Parsing

/// Where a parse stands after some lines: the files so far, an old path
/// waiting for its `+++`, the next line number on either side, and whether
/// a line number would have passed `u32::MAX`.
pub struct ParseState {
    pub files: Seq<FileModel>,
    pub pending_old: Option<Seq<char>>,
    pub old_line: u32,
    pub new_line: u32,
    pub fault: bool,
}

/// The state a parse starts from.
pub open spec fn initial_state() -> ParseState {
    ParseState {
        files: Seq::empty(),
        pending_old: None,
        old_line: 0,
        new_line: 0,
        fault: false,
    }
}

/// The kind and text of a body line, or `None` for a line the parser skips.
pub open spec fn classify(raw: Seq<char>) -> Option<(DiffLineKind, Seq<char>)> {
    if raw.len() == 0 {
        Some((DiffLineKind::Context, Seq::empty()))
    } else if raw[0] == '+' {
        Some((DiffLineKind::Added, raw.drop_first()))
    } else if raw[0] == '-' {
        Some((DiffLineKind::Removed, raw.drop_first()))
    } else if raw[0] == ' ' {
        Some((DiffLineKind::Context, raw.drop_first()))
    } else if raw[0] == '\\' {
        Some((DiffLineKind::Context, raw))
    } else {
        None
    }
}

/// Whether a line of `kind` advances the old-side numbering.
pub open spec fn counts_old(kind: DiffLineKind) -> bool {
    kind != DiffLineKind::Added
}

/// Whether a line of `kind` advances the new-side numbering.
pub open spec fn counts_new(kind: DiffLineKind) -> bool {
    kind != DiffLineKind::Removed
}

/// The file `+++ path` opens, given the old path a `---` left waiting.
pub open spec fn opened_file(pending: Option<Seq<char>>, path: Seq<char>) -> FileModel {
    match pending {
        Some(old) => if old != path && old != "/dev/null"@ {
            FileModel { old_path: Some(old), ..new_file(path) }
        } else {
            new_file(path)
        },
        None => new_file(path),
    }
}

/// `files` with `h` appended to the hunks of its last file.
pub open spec fn with_hunk(files: Seq<FileModel>, h: HunkModel) -> Seq<FileModel> {
    let f = files.last();
    files.update(files.len() - 1, FileModel { hunks: f.hunks.push(h), ..f })
}

/// `files` with `l` appended to the last hunk of its last file.
pub open spec fn with_line(files: Seq<FileModel>, l: LineModel) -> Seq<FileModel> {
    let f = files.last();
    let h = f.hunks.last();
    files.update(
        files.len() - 1,
        FileModel {
            hunks: f.hunks.update(f.hunks.len() - 1, HunkModel { lines: h.lines.push(l), ..h }),
            ..f
        },
    )
}

/// The line a body line of `kind` and `text` becomes at the current numbers.
pub open spec fn numbered_line(
    kind: DiffLineKind,
    text: Seq<char>,
    old_line: u32,
    new_line: u32,
) -> LineModel {
    LineModel {
        kind,
        old_number: if counts_old(kind) {
            Some(old_line)
        } else {
            None
        },
        new_number: if counts_new(kind) {
            Some(new_line)
        } else {
            None
        },
        text,
    }
}

/// Whether numbering a line of `kind` would step a number past `u32::MAX`.
pub open spec fn numbering_overflows(kind: DiffLineKind, old_line: u32, new_line: u32) -> bool {
    (counts_old(kind) && old_line == u32::MAX) || (counts_new(kind) && new_line == u32::MAX)
}

/// Reading one body line.
pub open spec fn body_step(st: ParseState, raw: Seq<char>) -> ParseState {
    if st.files.len() == 0 || st.files.last().hunks.len() == 0 {
        st
    } else {
        match classify(raw) {
            None => st,
            Some((kind, text)) => if numbering_overflows(kind, st.old_line, st.new_line) {
                ParseState { fault: true, ..st }
            } else {
                ParseState {
                    files: with_line(st.files, numbered_line(kind, text, st.old_line, st.new_line)),
                    old_line: if counts_old(kind) {
                        (st.old_line + 1) as u32
                    } else {
                        st.old_line
                    },
                    new_line: if counts_new(kind) {
                        (st.new_line + 1) as u32
                    } else {
                        st.new_line
                    },
                    ..st
                }
            },
        }
    }
}

/// Reading one `@@` header line.
pub open spec fn header_step(st: ParseState, raw: Seq<char>) -> ParseState {
    if st.files.len() == 0 {
        st
    } else {
        let starts = hunk_ranges(raw.skip(2));
        ParseState {
            files: with_hunk(
                st.files,
                HunkModel { header: raw, lines: Seq::empty(), review: HunkReview::Pending },
            ),
            old_line: starts.0,
            new_line: starts.1,
            ..st
        }
    }
}

/// Reading one line of a patch.
pub open spec fn parse_step(st: ParseState, raw: Seq<char>) -> ParseState {
    if st.fault {
        st
    } else if has_prefix(raw, "--- "@) {
        ParseState { pending_old: Some(strip_path(raw.skip(4))), ..st }
    } else if has_prefix(raw, "+++ "@) {
        ParseState {
            files: st.files.push(opened_file(st.pending_old, strip_path(raw.skip(4)))),
            pending_old: None,
            ..st
        }
    } else if has_prefix(raw, "@@"@) {
        header_step(st, raw)
    } else {
        body_step(st, raw)
    }
}

/// Reading the lines `ls` in order, from `st`.
pub open spec fn parse_from(st: ParseState, ls: Seq<Seq<char>>) -> ParseState
    decreases ls.len(),
{
    if ls.len() == 0 {
        st
    } else {
        parse_step(parse_from(st, ls.drop_last()), ls.last())
    }
}

/// The parse of a whole patch.
pub open spec fn unified(patch: Seq<char>) -> ParseState {
    parse_from(initial_state(), lines_of(patch))
}

// ---------------------------------------------------------------------
// Printing

/// The one-character sign column of a line.
pub open spec fn sign_char(kind: DiffLineKind) -> char {
    match kind {
        DiffLineKind::Context => ' ',
        DiffLineKind::Added => '+',
        DiffLineKind::Removed => '-',
    }
}

/// A line as a patch writes it: sign, then text.
pub open spec fn line_text(l: LineModel) -> Seq<char> {
    seq![sign_char(l.kind)] + l.text
}

/// The lines of a hunk's patch text: its header, then each line.
pub open spec fn hunk_lines(h: HunkModel) -> Seq<Seq<char>> {
    seq![h.header] + h.lines.map_values(|l: LineModel| line_text(l))
}

/// The patch lines of several hunks, in order.
pub open spec fn hunks_lines(hs: Seq<HunkModel>) -> Seq<Seq<char>>
    decreases hs.len(),
{
    if hs.len() == 0 {
        Seq::empty()
    } else {
        hunks_lines(hs.drop_last()) + hunk_lines(hs.last())
    }
}

/// The path a file's `---` line names.
pub open spec fn source_path(f: FileModel) -> Seq<char> {
    match f.old_path {
        Some(old) => old,
        None => f.path,
    }
}

/// The lines of a file's unified patch.
pub open spec fn file_lines(f: FileModel) -> Seq<Seq<char>> {
    seq!["--- a/"@ + source_path(f), "+++ b/"@ + f.path] + hunks_lines(f.hunks)
}

/// Lines joined, each ended by a line feed.
pub open spec fn join_lines(ls: Seq<Seq<char>>) -> Seq<char>
    decreases ls.len(),
{
    if ls.len() == 0 {
        Seq::empty()
    } else {
        join_lines(ls.drop_last()) + ls.last() + seq!['\n']
    }
}

/// A file's unified patch text.
pub open spec fn unified_text(f: FileModel) -> Seq<char> {
    join_lines(file_lines(f))
}

/// The text of a hunk's lines without signs, each ended by a line feed.
pub open spec fn hunk_code(h: HunkModel) -> Seq<char> {
    join_lines(h.lines.map_values(|l: LineModel| l.text))
}

// ---------------------------------------------------------------------
// Statistics

/// How many of `lines` are of `kind`.
pub open spec fn count_kind(lines: Seq<LineModel>, kind: DiffLineKind) -> nat
    decreases lines.len(),
{
    if lines.len() == 0 {
        0
    } else {
        count_kind(lines.drop_last(), kind) + if lines.last().kind == kind {
            1nat
        } else {
            0nat
        }
    }
}

/// How many lines of `kind` the hunks hold together.
pub open spec fn total_kind(hs: Seq<HunkModel>, kind: DiffLineKind) -> nat
    decreases hs.len(),
{
    if hs.len() == 0 {
        0
    } else {
        total_kind(hs.drop_last(), kind) + count_kind(hs.last().lines, kind)
    }
}

/// The `+a −r` summary.
pub open spec fn stats_label(added: nat, removed: nat) -> Seq<char> {
    "+"@ + decimal(added) + " \u{2212}"@ + decimal(removed)
}

/// The accessible name of a file's diff.
pub open spec fn diff_label(f: FileModel) -> Seq<char> {
    "Diff of "@ + f.path + ", "@ + stats_label(
        total_kind(f.hunks, DiffLineKind::Added),
        total_kind(f.hunks, DiffLineKind::Removed),
    )
}

} // verus!

verus! {

/// Joining two runs of lines is joining each and concatenating.
pub proof fn lemma_join_concat(a: Seq<Seq<char>>, b: Seq<Seq<char>>)
    ensures
        join_lines(a + b) == join_lines(a) + join_lines(b),
    decreases b.len(),
{
    if b.len() == 0 {
        assert(a + b =~= a);
        assert(join_lines(a) + join_lines(b) =~= join_lines(a));
    } else {
        assert((a + b).drop_last() =~= a + b.drop_last());
        lemma_join_concat(a, b.drop_last());
        assert((a + b).last() == b.last());
        assert(join_lines(a + b) =~= join_lines(a) + join_lines(b));
    }
}

/// There are no more lines of one kind than lines.
pub proof fn lemma_count_bounded(lines: Seq<LineModel>, kind: DiffLineKind)
    ensures
        count_kind(lines, kind) <= lines.len(),
    decreases lines.len(),
{
    if lines.len() > 0 {
        lemma_count_bounded(lines.drop_last(), kind);
    }
}

} // verus!

verus! {

/// The total over a prefix grows by the next hunk's count.
pub proof fn lemma_total_prefix(hs: Seq<HunkModel>, i: int, kind: DiffLineKind)
    requires
        0 < i <= hs.len(),
    ensures
        total_kind(hs.take(i), kind) == total_kind(hs.take(i - 1), kind) + count_kind(
            hs[i - 1].lines,
            kind,
        ),
        total_kind(hs.take(i), kind) <= total_kind(hs, kind),
    decreases hs.len() - i,
{
    assert(hs.take(i).drop_last() =~= hs.take(i - 1));
    if i < hs.len() {
        lemma_total_prefix(hs, i + 1, kind);
    } else {
        assert(hs.take(i) =~= hs);
    }
}

} // verus!

verus! {

/// How many lines the hunks hold together.
pub open spec fn total_lines(hs: Seq<HunkModel>) -> nat
    decreases hs.len(),
{
    if hs.len() == 0 {
        0
    } else {
        total_lines(hs.drop_last()) + hs.last().lines.len()
    }
}

/// Every line is of exactly one kind: added, removed and context lines
/// together are all the lines.
pub proof fn lemma_kinds_partition(lines: Seq<LineModel>)
    ensures
        count_kind(lines, DiffLineKind::Added) + count_kind(lines, DiffLineKind::Removed)
            + count_kind(lines, DiffLineKind::Context) == lines.len(),
    decreases lines.len(),
{
    if lines.len() > 0 {
        lemma_kinds_partition(lines.drop_last());
    }
}

/// A file's statistics are the sum of its hunks' statistics: the totals of
/// hunks `a` then `b` are the totals of `a` plus those of `b`, the totals of
/// one hunk `h` are its own counts, and context lines count as neither added
/// nor removed, so added, removed and context lines together are all the
/// lines.
pub proof fn lemma_stats_sum_hunks(
    a: Seq<HunkModel>,
    b: Seq<HunkModel>,
    h: HunkModel,
    kind: DiffLineKind,
)
    ensures
        total_kind(a + b, kind) == total_kind(a, kind) + total_kind(b, kind),
        total_kind(seq![h], kind) == count_kind(h.lines, kind),
        total_kind(a, DiffLineKind::Added) + total_kind(a, DiffLineKind::Removed) + total_kind(
            a,
            DiffLineKind::Context,
        ) == total_lines(a),
    decreases b.len(),
{
    if b.len() == 0 {
        assert(a + b =~= a);
    } else {
        assert((a + b).drop_last() =~= a + b.drop_last());
        lemma_stats_sum_hunks(a, b.drop_last(), h, kind);
        assert((a + b).last() == b.last());
    }
    lemma_totals_partition(a);
    assert(seq![h].drop_last() =~= Seq::<HunkModel>::empty());
    assert(seq![h].last() == h);
    assert(total_kind(Seq::<HunkModel>::empty(), kind) == 0);
    assert(total_kind(seq![h], kind) == total_kind(seq![h].drop_last(), kind) + count_kind(
        seq![h].last().lines,
        kind,
    ));
}

/// Added, removed and context lines over all hunks are all their lines.
proof fn lemma_totals_partition(hs: Seq<HunkModel>)
    ensures
        total_kind(hs, DiffLineKind::Added) + total_kind(hs, DiffLineKind::Removed) + total_kind(
            hs,
            DiffLineKind::Context,
        ) == total_lines(hs),
    decreases hs.len(),
{
    if hs.len() > 0 {
        lemma_totals_partition(hs.drop_last());
        lemma_kinds_partition(hs.last().lines);
    }
}

} // verus!

verus! {

/// The last `c` of `p`, `c`, then text without `c`, is the `c` after `p`.
proof fn lemma_last_index_after(p: Seq<char>, c: char, e: Seq<char>)
    requires
        forall|i: int| 0 <= i < e.len() ==> e[i] != c,
    ensures
        last_index_of(p.push(c) + e, c) == p.len(),
    decreases e.len(),
{
    let s = p.push(c) + e;
    if e.len() == 0 {
        assert(s =~= p.push(c));
    } else {
        assert(s.drop_last() =~= p.push(c) + e.drop_last());
        assert(s.last() == e.last());
        lemma_last_index_after(p, c, e.drop_last());
    }
}

/// A path ending in `.` and a dot-free `e` has the extension `e`.
pub proof fn lemma_extension_after_dot(stem: Seq<char>, e: Seq<char>)
    requires
        forall|i: int| 0 <= i < e.len() ==> e[i] != '.',
    ensures
        extension(stem.push('.') + e) == Some(e),
{
    lemma_last_index_after(stem, '.', e);
    assert((stem.push('.') + e).skip(stem.len() as int + 1) =~= e);
}

/// Entries of the extension table.
#[verifier::rlimit(100)]
proof fn lemma_extension_entries_0()
    ensures
        language_for_extension("rs"@) == Some("rust"@),
        language_for_extension("ts"@) == Some("typescript"@),
        language_for_extension("tsx"@) == Some("typescript"@),
        language_for_extension("js"@) == Some("javascript"@),
        language_for_extension("jsx"@) == Some("javascript"@),
        language_for_extension("mjs"@) == Some("javascript"@),
        language_for_extension("py"@) == Some("python"@),
{
    reveal_strlit("javascript");
    reveal_strlit("js");
    reveal_strlit("jsx");
    reveal_strlit("mjs");
    reveal_strlit("py");
    reveal_strlit("python");
    reveal_strlit("rs");
    reveal_strlit("rust");
    reveal_strlit("ts");
    reveal_strlit("tsx");
    reveal_strlit("typescript");
    assert("ts"@[0] != "rs"@[0]);
    assert("tsx"@.len() != "rs"@.len());
    assert("tsx"@.len() != "ts"@.len());
    assert("js"@[0] != "rs"@[0]);
    assert("js"@[0] != "ts"@[0]);
    assert("js"@.len() != "tsx"@.len());
    assert("jsx"@.len() != "rs"@.len());
    assert("jsx"@.len() != "ts"@.len());
    assert("jsx"@[0] != "tsx"@[0]);
    assert("jsx"@.len() != "js"@.len());
    assert("mjs"@.len() != "rs"@.len());
    assert("mjs"@.len() != "ts"@.len());
    assert("mjs"@[0] != "tsx"@[0]);
    assert("mjs"@.len() != "js"@.len());
    assert("mjs"@[0] != "jsx"@[0]);
    assert("py"@[0] != "rs"@[0]);
    assert("py"@[0] != "ts"@[0]);
    assert("py"@.len() != "tsx"@.len());
    assert("py"@[0] != "js"@[0]);
    assert("py"@.len() != "jsx"@.len());
    assert("py"@.len() != "mjs"@.len());
}

/// Entries of the extension table.
#[verifier::rlimit(100)]
proof fn lemma_extension_entries_1()
    ensures
        language_for_extension("go"@) == Some("go"@),
        language_for_extension("toml"@) == Some("toml"@),
        language_for_extension("json"@) == Some("json"@),
        language_for_extension("md"@) == Some("markdown"@),
        language_for_extension("sh"@) == Some("bash"@),
        language_for_extension("zsh"@) == Some("bash"@),
        language_for_extension("bash"@) == Some("bash"@),
{
    reveal_strlit("bash");
    reveal_strlit("go");
    reveal_strlit("js");
    reveal_strlit("json");
    reveal_strlit("jsx");
    reveal_strlit("markdown");
    reveal_strlit("md");
    reveal_strlit("mjs");
    reveal_strlit("py");
    reveal_strlit("rs");
    reveal_strlit("sh");
    reveal_strlit("toml");
    reveal_strlit("ts");
    reveal_strlit("tsx");
    reveal_strlit("zsh");
    assert("go"@[0] != "rs"@[0]);
    assert("go"@[0] != "ts"@[0]);
    assert("go"@.len() != "tsx"@.len());
    assert("go"@[0] != "js"@[0]);
    assert("go"@.len() != "jsx"@.len());
    assert("go"@.len() != "mjs"@.len());
    assert("go"@[0] != "py"@[0]);
    assert("toml"@.len() != "rs"@.len());
    assert("toml"@.len() != "ts"@.len());
    assert("toml"@.len() != "tsx"@.len());
    assert("toml"@.len() != "js"@.len());
    assert("toml"@.len() != "jsx"@.len());
    assert("toml"@.len() != "mjs"@.len());
    assert("toml"@.len() != "py"@.len());
    assert("toml"@.len() != "go"@.len());
    assert("json"@.len() != "rs"@.len());
    assert("json"@.len() != "ts"@.len());
    assert("json"@.len() != "tsx"@.len());
    assert("json"@.len() != "js"@.len());
    assert("json"@.len() != "jsx"@.len());
    assert("json"@.len() != "mjs"@.len());
    assert("json"@.len() != "py"@.len());
    assert("json"@.len() != "go"@.len());
    assert("json"@[0] != "toml"@[0]);
    assert("md"@[0] != "rs"@[0]);
    assert("md"@[0] != "ts"@[0]);
    assert("md"@.len() != "tsx"@.len());
    assert("md"@[0] != "js"@[0]);
    assert("md"@.len() != "jsx"@.len());
    assert("md"@.len() != "mjs"@.len());
    assert("md"@[0] != "py"@[0]);
    assert("md"@[0] != "go"@[0]);
    assert("md"@.len() != "toml"@.len());
    assert("md"@.len() != "json"@.len());
    assert("sh"@[0] != "rs"@[0]);
    assert("sh"@[0] != "ts"@[0]);
    assert("sh"@.len() != "tsx"@.len());
    assert("sh"@[0] != "js"@[0]);
    assert("sh"@.len() != "jsx"@.len());
    assert("sh"@.len() != "mjs"@.len());
    assert("sh"@[0] != "py"@[0]);
    assert("sh"@[0] != "go"@[0]);
    assert("sh"@.len() != "toml"@.len());
    assert("sh"@.len() != "json"@.len());
    assert("sh"@[0] != "md"@[0]);
    assert("zsh"@.len() != "rs"@.len());
    assert("zsh"@.len() != "ts"@.len());
    assert("zsh"@[0] != "tsx"@[0]);
    assert("zsh"@.len() != "js"@.len());
    assert("zsh"@[0] != "jsx"@[0]);
    assert("zsh"@[0] != "mjs"@[0]);
    assert("zsh"@.len() != "py"@.len());
    assert("zsh"@.len() != "go"@.len());
    assert("zsh"@.len() != "toml"@.len());
    assert("zsh"@.len() != "json"@.len());
    assert("zsh"@.len() != "md"@.len());
    assert("zsh"@.len() != "sh"@.len());
    assert("bash"@.len() != "rs"@.len());
    assert("bash"@.len() != "ts"@.len());
    assert("bash"@.len() != "tsx"@.len());
    assert("bash"@.len() != "js"@.len());
    assert("bash"@.len() != "jsx"@.len());
    assert("bash"@.len() != "mjs"@.len());
    assert("bash"@.len() != "py"@.len());
    assert("bash"@.len() != "go"@.len());
    assert("bash"@[0] != "toml"@[0]);
    assert("bash"@[0] != "json"@[0]);
    assert("bash"@.len() != "md"@.len());
    assert("bash"@.len() != "sh"@.len());
    assert("bash"@.len() != "zsh"@.len());
}

/// Entries of the extension table.
#[verifier::rlimit(100)]
proof fn lemma_extension_entries_2()
    ensures
        language_for_extension("css"@) == Some("css"@),
        language_for_extension("html"@) == Some("html"@),
        language_for_extension("yaml"@) == Some("yaml"@),
        language_for_extension("yml"@) == Some("yaml"@),
        language_for_extension("sql"@) == Some("sql"@),
        language_for_extension("c"@) == Some("c"@),
        language_for_extension("h"@) == Some("c"@),
{
    reveal_strlit("bash");
    reveal_strlit("c");
    reveal_strlit("css");
    reveal_strlit("go");
    reveal_strlit("h");
    reveal_strlit("html");
    reveal_strlit("js");
    reveal_strlit("json");
    reveal_strlit("jsx");
    reveal_strlit("md");
    reveal_strlit("mjs");
    reveal_strlit("py");
    reveal_strlit("rs");
    reveal_strlit("sh");
    reveal_strlit("sql");
    reveal_strlit("toml");
    reveal_strlit("ts");
    reveal_strlit("tsx");
    reveal_strlit("yaml");
    reveal_strlit("yml");
    reveal_strlit("zsh");
    assert("css"@.len() != "rs"@.len());
    assert("css"@.len() != "ts"@.len());
    assert("css"@[0] != "tsx"@[0]);
    assert("css"@.len() != "js"@.len());
    assert("css"@[0] != "jsx"@[0]);
    assert("css"@[0] != "mjs"@[0]);
    assert("css"@.len() != "py"@.len());
    assert("css"@.len() != "go"@.len());
    assert("css"@.len() != "toml"@.len());
    assert("css"@.len() != "json"@.len());
    assert("css"@.len() != "md"@.len());
    assert("css"@.len() != "sh"@.len());
    assert("css"@[0] != "zsh"@[0]);
    assert("css"@.len() != "bash"@.len());
    assert("html"@.len() != "rs"@.len());
    assert("html"@.len() != "ts"@.len());
    assert("html"@.len() != "tsx"@.len());
    assert("html"@.len() != "js"@.len());
    assert("html"@.len() != "jsx"@.len());
    assert("html"@.len() != "mjs"@.len());
    assert("html"@.len() != "py"@.len());
    assert("html"@.len() != "go"@.len());
    assert("html"@[0] != "toml"@[0]);
    assert("html"@[0] != "json"@[0]);
    assert("html"@.len() != "md"@.len());
    assert("html"@.len() != "sh"@.len());
    assert("html"@.len() != "zsh"@.len());
    assert("html"@[0] != "bash"@[0]);
    assert("html"@.len() != "css"@.len());
    assert("yaml"@.len() != "rs"@.len());
    assert("yaml"@.len() != "ts"@.len());
    assert("yaml"@.len() != "tsx"@.len());
    assert("yaml"@.len() != "js"@.len());
    assert("yaml"@.len() != "jsx"@.len());
    assert("yaml"@.len() != "mjs"@.len());
    assert("yaml"@.len() != "py"@.len());
    assert("yaml"@.len() != "go"@.len());
    assert("yaml"@[0] != "toml"@[0]);
    assert("yaml"@[0] != "json"@[0]);
    assert("yaml"@.len() != "md"@.len());
    assert("yaml"@.len() != "sh"@.len());
    assert("yaml"@.len() != "zsh"@.len());
    assert("yaml"@[0] != "bash"@[0]);
    assert("yaml"@.len() != "css"@.len());
    assert("yaml"@[0] != "html"@[0]);
    assert("yml"@.len() != "rs"@.len());
    assert("yml"@.len() != "ts"@.len());
    assert("yml"@[0] != "tsx"@[0]);
    assert("yml"@.len() != "js"@.len());
    assert("yml"@[0] != "jsx"@[0]);
    assert("yml"@[0] != "mjs"@[0]);
    assert("yml"@.len() != "py"@.len());
    assert("yml"@.len() != "go"@.len());
    assert("yml"@.len() != "toml"@.len());
    assert("yml"@.len() != "json"@.len());
    assert("yml"@.len() != "md"@.len());
    assert("yml"@.len() != "sh"@.len());
    assert("yml"@[0] != "zsh"@[0]);
    assert("yml"@.len() != "bash"@.len());
    assert("yml"@[0] != "css"@[0]);
    assert("yml"@.len() != "html"@.len());
    assert("yml"@.len() != "yaml"@.len());
    assert("sql"@.len() != "rs"@.len());
    assert("sql"@.len() != "ts"@.len());
    assert("sql"@[0] != "tsx"@[0]);
    assert("sql"@.len() != "js"@.len());
    assert("sql"@[0] != "jsx"@[0]);
    assert("sql"@[0] != "mjs"@[0]);
    assert("sql"@.len() != "py"@.len());
    assert("sql"@.len() != "go"@.len());
    assert("sql"@.len() != "toml"@.len());
    assert("sql"@.len() != "json"@.len());
    assert("sql"@.len() != "md"@.len());
    assert("sql"@.len() != "sh"@.len());
    assert("sql"@[0] != "zsh"@[0]);
    assert("sql"@.len() != "bash"@.len());
    assert("sql"@[0] != "css"@[0]);
    assert("sql"@.len() != "html"@.len());
    assert("sql"@.len() != "yaml"@.len());
    assert("sql"@[0] != "yml"@[0]);
    assert("c"@.len() != "rs"@.len());
    assert("c"@.len() != "ts"@.len());
    assert("c"@.len() != "tsx"@.len());
    assert("c"@.len() != "js"@.len());
    assert("c"@.len() != "jsx"@.len());
    assert("c"@.len() != "mjs"@.len());
    assert("c"@.len() != "py"@.len());
    assert("c"@.len() != "go"@.len());
    assert("c"@.len() != "toml"@.len());
    assert("c"@.len() != "json"@.len());
    assert("c"@.len() != "md"@.len());
    assert("c"@.len() != "sh"@.len());
    assert("c"@.len() != "zsh"@.len());
    assert("c"@.len() != "bash"@.len());
    assert("c"@.len() != "css"@.len());
    assert("c"@.len() != "html"@.len());
    assert("c"@.len() != "yaml"@.len());
    assert("c"@.len() != "yml"@.len());
    assert("c"@.len() != "sql"@.len());
    assert("h"@.len() != "rs"@.len());
    assert("h"@.len() != "ts"@.len());
    assert("h"@.len() != "tsx"@.len());
    assert("h"@.len() != "js"@.len());
    assert("h"@.len() != "jsx"@.len());
    assert("h"@.len() != "mjs"@.len());
    assert("h"@.len() != "py"@.len());
    assert("h"@.len() != "go"@.len());
    assert("h"@.len() != "toml"@.len());
    assert("h"@.len() != "json"@.len());
    assert("h"@.len() != "md"@.len());
    assert("h"@.len() != "sh"@.len());
    assert("h"@.len() != "zsh"@.len());
    assert("h"@.len() != "bash"@.len());
    assert("h"@.len() != "css"@.len());
    assert("h"@.len() != "html"@.len());
    assert("h"@.len() != "yaml"@.len());
    assert("h"@.len() != "yml"@.len());
    assert("h"@.len() != "sql"@.len());
    assert("h"@[0] != "c"@[0]);
}

/// Entries of the extension table.
#[verifier::rlimit(100)]
proof fn lemma_extension_entries_3()
    ensures
        language_for_extension("cpp"@) == Some("cpp"@),
        language_for_extension("hpp"@) == Some("cpp"@),
        language_for_extension("cc"@) == Some("cpp"@),
        language_for_extension("java"@) == Some("java"@),
        language_for_extension("kt"@) == Some("kotlin"@),
        language_for_extension("swift"@) == Some("swift"@),
        language_for_extension("rb"@) == Some("ruby"@),
{
    reveal_strlit("bash");
    reveal_strlit("c");
    reveal_strlit("cc");
    reveal_strlit("cpp");
    reveal_strlit("css");
    reveal_strlit("go");
    reveal_strlit("h");
    reveal_strlit("hpp");
    reveal_strlit("html");
    reveal_strlit("java");
    reveal_strlit("js");
    reveal_strlit("json");
    reveal_strlit("jsx");
    reveal_strlit("kotlin");
    reveal_strlit("kt");
    reveal_strlit("md");
    reveal_strlit("mjs");
    reveal_strlit("py");
    reveal_strlit("rb");
    reveal_strlit("rs");
    reveal_strlit("ruby");
    reveal_strlit("sh");
    reveal_strlit("sql");
    reveal_strlit("swift");
    reveal_strlit("toml");
    reveal_strlit("ts");
    reveal_strlit("tsx");
    reveal_strlit("yaml");
    reveal_strlit("yml");
    reveal_strlit("zsh");
    assert("cpp"@.len() != "rs"@.len());
    assert("cpp"@.len() != "ts"@.len());
    assert("cpp"@[0] != "tsx"@[0]);
    assert("cpp"@.len() != "js"@.len());
    assert("cpp"@[0] != "jsx"@[0]);
    assert("cpp"@[0] != "mjs"@[0]);
    assert("cpp"@.len() != "py"@.len());
    assert("cpp"@.len() != "go"@.len());
    assert("cpp"@.len() != "toml"@.len());
    assert("cpp"@.len() != "json"@.len());
    assert("cpp"@.len() != "md"@.len());
    assert("cpp"@.len() != "sh"@.len());
    assert("cpp"@[0] != "zsh"@[0]);
    assert("cpp"@.len() != "bash"@.len());
    assert("cpp"@[1] != "css"@[1]);
    assert("cpp"@.len() != "html"@.len());
    assert("cpp"@.len() != "yaml"@.len());
    assert("cpp"@[0] != "yml"@[0]);
    assert("cpp"@[0] != "sql"@[0]);
    assert("cpp"@.len() != "c"@.len());
    assert("cpp"@.len() != "h"@.len());
    assert("hpp"@.len() != "rs"@.len());
    assert("hpp"@.len() != "ts"@.len());
    assert("hpp"@[0] != "tsx"@[0]);
    assert("hpp"@.len() != "js"@.len());
    assert("hpp"@[0] != "jsx"@[0]);
    assert("hpp"@[0] != "mjs"@[0]);
    assert("hpp"@.len() != "py"@.len());
    assert("hpp"@.len() != "go"@.len());
    assert("hpp"@.len() != "toml"@.len());
    assert("hpp"@.len() != "json"@.len());
    assert("hpp"@.len() != "md"@.len());
    assert("hpp"@.len() != "sh"@.len());
    assert("hpp"@[0] != "zsh"@[0]);
    assert("hpp"@.len() != "bash"@.len());
    assert("hpp"@[0] != "css"@[0]);
    assert("hpp"@.len() != "html"@.len());
    assert("hpp"@.len() != "yaml"@.len());
    assert("hpp"@[0] != "yml"@[0]);
    assert("hpp"@[0] != "sql"@[0]);
    assert("hpp"@.len() != "c"@.len());
    assert("hpp"@.len() != "h"@.len());
    assert("hpp"@[0] != "cpp"@[0]);
    assert("cc"@[0] != "rs"@[0]);
    assert("cc"@[0] != "ts"@[0]);
    assert("cc"@.len() != "tsx"@.len());
    assert("cc"@[0] != "js"@[0]);
    assert("cc"@.len() != "jsx"@.len());
    assert("cc"@.len() != "mjs"@.len());
    assert("cc"@[0] != "py"@[0]);
    assert("cc"@[0] != "go"@[0]);
    assert("cc"@.len() != "toml"@.len());
    assert("cc"@.len() != "json"@.len());
    assert("cc"@[0] != "md"@[0]);
    assert("cc"@[0] != "sh"@[0]);
    assert("cc"@.len() != "zsh"@.len());
    assert("cc"@.len() != "bash"@.len());
    assert("cc"@.len() != "css"@.len());
    assert("cc"@.len() != "html"@.len());
    assert("cc"@.len() != "yaml"@.len());
    assert("cc"@.len() != "yml"@.len());
    assert("cc"@.len() != "sql"@.len());
    assert("cc"@.len() != "c"@.len());
    assert("cc"@.len() != "h"@.len());
    assert("cc"@.len() != "cpp"@.len());
    assert("cc"@.len() != "hpp"@.len());
    assert("java"@.len() != "rs"@.len());
    assert("java"@.len() != "ts"@.len());
    assert("java"@.len() != "tsx"@.len());
    assert("java"@.len() != "js"@.len());
    assert("java"@.len() != "jsx"@.len());
    assert("java"@.len() != "mjs"@.len());
    assert("java"@.len() != "py"@.len());
    assert("java"@.len() != "go"@.len());
    assert("java"@[0] != "toml"@[0]);
    assert("java"@[1] != "json"@[1]);
    assert("java"@.len() != "md"@.len());
    assert("java"@.len() != "sh"@.len());
    assert("java"@.len() != "zsh"@.len());
    assert("java"@[0] != "bash"@[0]);
    assert("java"@.len() != "css"@.len());
    assert("java"@[0] != "html"@[0]);
    assert("java"@[0] != "yaml"@[0]);
    assert("java"@.len() != "yml"@.len());
    assert("java"@.len() != "sql"@.len());
    assert("java"@.len() != "c"@.len());
    assert("java"@.len() != "h"@.len());
    assert("java"@.len() != "cpp"@.len());
    assert("java"@.len() != "hpp"@.len());
    assert("java"@.len() != "cc"@.len());
    assert("kt"@[0] != "rs"@[0]);
    assert("kt"@[0] != "ts"@[0]);
    assert("kt"@.len() != "tsx"@.len());
    assert("kt"@[0] != "js"@[0]);
    assert("kt"@.len() != "jsx"@.len());
    assert("kt"@.len() != "mjs"@.len());
    assert("kt"@[0] != "py"@[0]);
    assert("kt"@[0] != "go"@[0]);
    assert("kt"@.len() != "toml"@.len());
    assert("kt"@.len() != "json"@.len());
    assert("kt"@[0] != "md"@[0]);
    assert("kt"@[0] != "sh"@[0]);
    assert("kt"@.len() != "zsh"@.len());
    assert("kt"@.len() != "bash"@.len());
    assert("kt"@.len() != "css"@.len());
    assert("kt"@.len() != "html"@.len());
    assert("kt"@.len() != "yaml"@.len());
    assert("kt"@.len() != "yml"@.len());
    assert("kt"@.len() != "sql"@.len());
    assert("kt"@.len() != "c"@.len());
    assert("kt"@.len() != "h"@.len());
    assert("kt"@.len() != "cpp"@.len());
    assert("kt"@.len() != "hpp"@.len());
    assert("kt"@[0] != "cc"@[0]);
    assert("kt"@.len() != "java"@.len());
    assert("swift"@.len() != "rs"@.len());
    assert("swift"@.len() != "ts"@.len());
    assert("swift"@.len() != "tsx"@.len());
    assert("swift"@.len() != "js"@.len());
    assert("swift"@.len() != "jsx"@.len());
    assert("swift"@.len() != "mjs"@.len());
    assert("swift"@.len() != "py"@.len());
    assert("swift"@.len() != "go"@.len());
    assert("swift"@.len() != "toml"@.len());
    assert("swift"@.len() != "json"@.len());
    assert("swift"@.len() != "md"@.len());
    assert("swift"@.len() != "sh"@.len());
    assert("swift"@.len() != "zsh"@.len());
    assert("swift"@.len() != "bash"@.len());
    assert("swift"@.len() != "css"@.len());
    assert("swift"@.len() != "html"@.len());
    assert("swift"@.len() != "yaml"@.len());
    assert("swift"@.len() != "yml"@.len());
    assert("swift"@.len() != "sql"@.len());
    assert("swift"@.len() != "c"@.len());
    assert("swift"@.len() != "h"@.len());
    assert("swift"@.len() != "cpp"@.len());
    assert("swift"@.len() != "hpp"@.len());
    assert("swift"@.len() != "cc"@.len());
    assert("swift"@.len() != "java"@.len());
    assert("swift"@.len() != "kt"@.len());
    assert("rb"@[1] != "rs"@[1]);
    assert("rb"@[0] != "ts"@[0]);
    assert("rb"@.len() != "tsx"@.len());
    assert("rb"@[0] != "js"@[0]);
    assert("rb"@.len() != "jsx"@.len());
    assert("rb"@.len() != "mjs"@.len());
    assert("rb"@[0] != "py"@[0]);
    assert("rb"@[0] != "go"@[0]);
    assert("rb"@.len() != "toml"@.len());
    assert("rb"@.len() != "json"@.len());
    assert("rb"@[0] != "md"@[0]);
    assert("rb"@[0] != "sh"@[0]);
    assert("rb"@.len() != "zsh"@.len());
    assert("rb"@.len() != "bash"@.len());
    assert("rb"@.len() != "css"@.len());
    assert("rb"@.len() != "html"@.len());
    assert("rb"@.len() != "yaml"@.len());
    assert("rb"@.len() != "yml"@.len());
    assert("rb"@.len() != "sql"@.len());
    assert("rb"@.len() != "c"@.len());
    assert("rb"@.len() != "h"@.len());
    assert("rb"@.len() != "cpp"@.len());
    assert("rb"@.len() != "hpp"@.len());
    assert("rb"@[0] != "cc"@[0]);
    assert("rb"@.len() != "java"@.len());
    assert("rb"@[0] != "kt"@[0]);
    assert("rb"@.len() != "swift"@.len());
}

/// Every extension the highlighter knows names its language, whatever the
/// path before it: `<stem>.rs` is Rust, `<stem>.ts` and `<stem>.tsx` are
/// TypeScript, and so on through the table.
pub proof fn lemma_language_table(stem: Seq<char>)
    ensures
        language_of(stem.push('.') + "rs"@) == Some("rust"@),
        language_of(stem.push('.') + "ts"@) == Some("typescript"@),
        language_of(stem.push('.') + "tsx"@) == Some("typescript"@),
        language_of(stem.push('.') + "js"@) == Some("javascript"@),
        language_of(stem.push('.') + "jsx"@) == Some("javascript"@),
        language_of(stem.push('.') + "mjs"@) == Some("javascript"@),
        language_of(stem.push('.') + "py"@) == Some("python"@),
        language_of(stem.push('.') + "go"@) == Some("go"@),
        language_of(stem.push('.') + "toml"@) == Some("toml"@),
        language_of(stem.push('.') + "json"@) == Some("json"@),
        language_of(stem.push('.') + "md"@) == Some("markdown"@),
        language_of(stem.push('.') + "sh"@) == Some("bash"@),
        language_of(stem.push('.') + "zsh"@) == Some("bash"@),
        language_of(stem.push('.') + "bash"@) == Some("bash"@),
        language_of(stem.push('.') + "css"@) == Some("css"@),
        language_of(stem.push('.') + "html"@) == Some("html"@),
        language_of(stem.push('.') + "yaml"@) == Some("yaml"@),
        language_of(stem.push('.') + "yml"@) == Some("yaml"@),
        language_of(stem.push('.') + "sql"@) == Some("sql"@),
        language_of(stem.push('.') + "c"@) == Some("c"@),
        language_of(stem.push('.') + "h"@) == Some("c"@),
        language_of(stem.push('.') + "cpp"@) == Some("cpp"@),
        language_of(stem.push('.') + "hpp"@) == Some("cpp"@),
        language_of(stem.push('.') + "cc"@) == Some("cpp"@),
        language_of(stem.push('.') + "java"@) == Some("java"@),
        language_of(stem.push('.') + "kt"@) == Some("kotlin"@),
        language_of(stem.push('.') + "swift"@) == Some("swift"@),
        language_of(stem.push('.') + "rb"@) == Some("ruby"@),
{
    reveal_strlit("rs");
    reveal_strlit("ts");
    reveal_strlit("tsx");
    reveal_strlit("js");
    reveal_strlit("jsx");
    reveal_strlit("mjs");
    reveal_strlit("py");
    reveal_strlit("go");
    reveal_strlit("toml");
    reveal_strlit("json");
    reveal_strlit("md");
    reveal_strlit("sh");
    reveal_strlit("zsh");
    reveal_strlit("bash");
    reveal_strlit("css");
    reveal_strlit("html");
    reveal_strlit("yaml");
    reveal_strlit("yml");
    reveal_strlit("sql");
    reveal_strlit("c");
    reveal_strlit("h");
    reveal_strlit("cpp");
    reveal_strlit("hpp");
    reveal_strlit("cc");
    reveal_strlit("java");
    reveal_strlit("kt");
    reveal_strlit("swift");
    reveal_strlit("rb");
    lemma_extension_entries_0();
    lemma_extension_entries_1();
    lemma_extension_entries_2();
    lemma_extension_entries_3();
    lemma_extension_after_dot(stem, "rs"@);
    lemma_extension_after_dot(stem, "ts"@);
    lemma_extension_after_dot(stem, "tsx"@);
    lemma_extension_after_dot(stem, "js"@);
    lemma_extension_after_dot(stem, "jsx"@);
    lemma_extension_after_dot(stem, "mjs"@);
    lemma_extension_after_dot(stem, "py"@);
    lemma_extension_after_dot(stem, "go"@);
    lemma_extension_after_dot(stem, "toml"@);
    lemma_extension_after_dot(stem, "json"@);
    lemma_extension_after_dot(stem, "md"@);
    lemma_extension_after_dot(stem, "sh"@);
    lemma_extension_after_dot(stem, "zsh"@);
    lemma_extension_after_dot(stem, "bash"@);
    lemma_extension_after_dot(stem, "css"@);
    lemma_extension_after_dot(stem, "html"@);
    lemma_extension_after_dot(stem, "yaml"@);
    lemma_extension_after_dot(stem, "yml"@);
    lemma_extension_after_dot(stem, "sql"@);
    lemma_extension_after_dot(stem, "c"@);
    lemma_extension_after_dot(stem, "h"@);
    lemma_extension_after_dot(stem, "cpp"@);
    lemma_extension_after_dot(stem, "hpp"@);
    lemma_extension_after_dot(stem, "cc"@);
    lemma_extension_after_dot(stem, "java"@);
    lemma_extension_after_dot(stem, "kt"@);
    lemma_extension_after_dot(stem, "swift"@);
    lemma_extension_after_dot(stem, "rb"@);
}

/// A text without `c` has no last `c`.
proof fn lemma_no_index(s: Seq<char>, c: char)
    requires
        forall|i: int| 0 <= i < s.len() ==> s[i] != c,
    ensures
        last_index_of(s, c) == -1,
    decreases s.len(),
{
    if s.len() > 0 {
        assert(s.last() == s[s.len() - 1]);
        lemma_no_index(s.drop_last(), c);
    }
}

/// A path without a `.` has no extension and so no language.
pub proof fn lemma_no_dot_no_language(path: Seq<char>)
    requires
        forall|i: int| 0 <= i < path.len() ==> path[i] != '.',
    ensures
        language_of(path) is None,
{
    lemma_no_index(path, '.');
}

} // verus!
