//! Laws of the unified-diff format as this library reads and writes it:
//! what the parser always produces, and that printing a parsed file and
//! parsing the text again gives the same file back.

use vstd::prelude::*;
use crate::code_diff::{DiffLineKind, HunkReview};
use crate::diff_model::{
    body_step, classify, counts_new, counts_old, file_lines, header_step, hunk_lines,
    hunk_ranges, hunks_lines, initial_state, join_lines, language_of, line_text, new_file,
    numbered_line, numbering_overflows, opened_file, parse_from, parse_step,
    sign_char, source_path, strip_path, unified, unified_text, with_hunk, with_line, FileModel,
    HunkModel, LineModel, ParseState,
};
use crate::text::{
    before_char, has_prefix, is_ws, lines_of, split_scan, strip_cr, trim, trim_end, trim_start,
};

verus! {

// ---------------------------------------------------------------------
// Shapes

/// Whether `s` has no character `c`.
pub open spec fn lacks(s: Seq<char>, c: char) -> bool {
    forall|i: int| 0 <= i < s.len() ==> s[i] != c
}

/// Whether `s` ends with a carriage return.
pub open spec fn ends_cr(s: Seq<char>) -> bool {
    s.len() > 0 && s.last() == '\r'
}

/// A path as a `---`/`+++` header line can carry it: on one line, without
/// tabs, and not ending in whitespace.
pub open spec fn path_ok(p: Seq<char>) -> bool {
    lacks(p, '\n') && lacks(p, '\t') && (p.len() == 0 || !is_ws(p.last()))
}

/// The (old, new) line numbers after a line of `kind` at `at`.
pub open spec fn advance(kind: DiffLineKind, at: (int, int)) -> (int, int) {
    (
        if counts_old(kind) {
            at.0 + 1
        } else {
            at.0
        },
        if counts_new(kind) {
            at.1 + 1
        } else {
            at.1
        },
    )
}

/// The (old, new) line numbers after `lines`, starting at `start`.
pub open spec fn numbers_after(lines: Seq<LineModel>, start: (int, int)) -> (int, int)
    decreases lines.len(),
{
    if lines.len() == 0 {
        start
    } else {
        advance(lines.last().kind, numbers_after(lines.drop_last(), start))
    }
}

/// Whether a line's text can be written after its sign and read back as
/// the same kind of line.
pub open spec fn text_ok(l: LineModel) -> bool {
    &&& lacks(l.text, '\n')
    &&& l.kind == DiffLineKind::Added ==> !has_prefix(l.text, "++ "@)
    &&& l.kind == DiffLineKind::Removed ==> !has_prefix(l.text, "-- "@)
}

/// Whether `lines` are numbered in order from `start`, each number within a
/// `u32`, with texts that survive printing.
pub open spec fn lines_ok(lines: Seq<LineModel>, start: (int, int)) -> bool
    decreases lines.len(),
{
    if lines.len() == 0 {
        0 <= start.0 <= u32::MAX && 0 <= start.1 <= u32::MAX
    } else {
        let at = numbers_after(lines.drop_last(), start);
        let l = lines.last();
        &&& lines_ok(lines.drop_last(), start)
        &&& text_ok(l)
        &&& counts_old(l.kind) ==> at.0 < u32::MAX
        &&& counts_new(l.kind) ==> at.1 < u32::MAX
        &&& l == numbered_line(l.kind, l.text, at.0 as u32, at.1 as u32)
    }
}

/// The line numbers a hunk header starts from.
pub open spec fn header_start(header: Seq<char>) -> (int, int) {
    let r = hunk_ranges(header.skip(2));
    (r.0 as int, r.1 as int)
}

/// A hunk as the parser leaves it: a one-line `@@` header it can read,
/// consistently numbered lines, and no decision yet.
pub open spec fn hunk_ok(h: HunkModel) -> bool {
    &&& has_prefix(h.header, "@@"@)
    &&& lacks(h.header, '\n')
    &&& h.review == HunkReview::Pending
    &&& lines_ok(h.lines, header_start(h.header))
}

/// A file as the parser leaves it.
pub open spec fn file_ok(f: FileModel) -> bool {
    &&& path_ok(f.path)
    &&& f.language == language_of(f.path)
    &&& match f.old_path {
        Some(old) => path_ok(old) && old != f.path && old != "/dev/null"@,
        None => true,
    }
    &&& forall|i: int| 0 <= i < f.hunks.len() ==> hunk_ok(#[trigger] f.hunks[i])
}

/// Whether no header or line text of `f` ends in a carriage return, which
/// a line reader takes for part of the line ending.
pub open spec fn no_trailing_cr(f: FileModel) -> bool {
    forall|i: int|
        0 <= i < f.hunks.len() ==> {
            &&& !ends_cr(#[trigger] f.hunks[i].header)
            &&& forall|j: int|
                0 <= j < f.hunks[i].lines.len() ==> !ends_cr(#[trigger] f.hunks[i].lines[j].text)
        }
}

// ---------------------------------------------------------------------
// Reading lines back

/// Whether every line in `ls` is one line that keeps its last character.
pub open spec fn printable(ls: Seq<Seq<char>>) -> bool {
    forall|i: int| 0 <= i < ls.len() ==> lacks(#[trigger] ls[i], '\n') && !ends_cr(ls[i])
}

/// Scanning more characters without a line feed only extends the open line.
proof fn lemma_scan_extend(s: Seq<char>, x: Seq<char>)
    requires
        lacks(x, '\n'),
    ensures
        split_scan(s + x) == (split_scan(s).0, split_scan(s).1 + x),
    decreases x.len(),
{
    if x.len() == 0 {
        assert(s + x =~= s);
        assert(split_scan(s).1 + x =~= split_scan(s).1);
    } else {
        assert((s + x).drop_last() =~= s + x.drop_last());
        lemma_scan_extend(s, x.drop_last());
        assert((s + x).last() == x.last());
        assert(split_scan(s).1 + x.drop_last() + seq![x.last()] =~= split_scan(s).1 + x);
    }
}

/// The scan of joined lines has every line ended and none open.
proof fn lemma_scan_join(ls: Seq<Seq<char>>)
    requires
        printable(ls),
    ensures
        split_scan(join_lines(ls)) == (ls, Seq::<char>::empty()),
    decreases ls.len(),
{
    if ls.len() == 0 {
        assert(ls =~= Seq::<Seq<char>>::empty());
    } else {
        let init = ls.drop_last();
        assert(printable(init)) by {
            assert forall|i: int| 0 <= i < init.len() implies lacks(#[trigger] init[i], '\n')
                && !ends_cr(init[i]) by {
                assert(init[i] == ls[i]);
            }
        }
        lemma_scan_join(init);
        let x = ls.last();
        assert(lacks(x, '\n') && !ends_cr(x)) by {
            assert(x == ls[ls.len() - 1]);
        }
        lemma_scan_extend(join_lines(init), x);
        let s = join_lines(init) + x + seq!['\n'];
        assert(s == join_lines(ls));
        assert(s.drop_last() =~= join_lines(init) + x);
        assert(Seq::<char>::empty() + x =~= x);
        assert(strip_cr(x) == x);
        assert(init.push(x) =~= ls);
    }
}

/// Reading back the lines of joined text gives the lines.
pub proof fn lemma_lines_of_join(ls: Seq<Seq<char>>)
    requires
        printable(ls),
    ensures
        lines_of(join_lines(ls)) == ls,
{
    lemma_scan_join(ls);
}

/// Reading `a + b` is reading `a`, then `b`.
pub proof fn lemma_parse_concat(st: ParseState, a: Seq<Seq<char>>, b: Seq<Seq<char>>)
    ensures
        parse_from(st, a + b) == parse_from(parse_from(st, a), b),
    decreases b.len(),
{
    if b.len() == 0 {
        assert(a + b =~= a);
    } else {
        assert((a + b).drop_last() =~= a + b.drop_last());
        lemma_parse_concat(st, a, b.drop_last());
        assert((a + b).last() == b.last());
    }
}

} // verus!

verus! {

// ---------------------------------------------------------------------
// Printing then parsing

/// A text without `c` is all of itself before the first `c`.
proof fn lemma_before_absent(s: Seq<char>, c: char)
    requires
        lacks(s, c),
    ensures
        before_char(s, c) == s,
    decreases s.len(),
{
    if s.len() > 0 {
        lemma_before_absent(s.drop_first(), c);
        assert(seq![s[0]] + s.drop_first() =~= s);
    }
}

/// A header line's path reads back as the path it was written with.
proof fn lemma_strip_written_path(p: Seq<char>, marker: Seq<char>)
    requires
        path_ok(p),
        marker == "a/"@ || marker == "b/"@,
    ensures
        strip_path(marker + p) == p,
{
    reveal_strlit("a/");
    reveal_strlit("b/");
    let s = marker + p;
    assert(lacks(s, '\t')) by {
        assert forall|i: int| 0 <= i < s.len() implies s[i] != '\t' by {
            if i >= 2 {
                assert(s[i] == p[i - 2]);
            }
        }
    }
    lemma_before_absent(s, '\t');
    assert(!is_ws(s[0]));
    assert(trim_start(s) == s);
    assert(s.last() == if p.len() == 0 {
        '/'
    } else {
        p.last()
    });
    assert(trim_end(s) == s);
    assert(trim(s) == s);
    assert(s.take(2) =~= marker);
    assert(s.skip(2) =~= p);
    if marker == "b/"@ {
        assert(s.take(2) != "a/"@) by {
            assert(s.take(2)[0] != "a/"@[0]);
        }
    }
}

/// A signed text starts with the sign and `q` exactly when the text
/// starts with `q`.
proof fn lemma_signed_prefix(c: char, text: Seq<char>, q: Seq<char>)
    ensures
        has_prefix(seq![c] + text, seq![c] + q) == has_prefix(text, q),
{
    let t = seq![c] + text;
    if has_prefix(text, q) {
        assert(t.take(q.len() as int + 1) =~= seq![c] + text.take(q.len() as int));
    }
    if has_prefix(t, seq![c] + q) {
        assert((seq![c] + q).drop_first() =~= q);
        assert(text.take(q.len() as int) =~= t.take(q.len() as int + 1).drop_first());
    }
}

/// The numbers after well-numbered lines stay within a `u32`.
proof fn lemma_numbers_bounded(lines: Seq<LineModel>, start: (int, int))
    requires
        lines_ok(lines, start),
    ensures
        0 <= numbers_after(lines, start).0 <= u32::MAX,
        0 <= numbers_after(lines, start).1 <= u32::MAX,
    decreases lines.len(),
{
    if lines.len() > 0 {
        lemma_numbers_bounded(lines.drop_last(), start);
    }
}

/// The state inside a hunk with header `header` whose lines so far are `ls`.
pub open spec fn in_hunk(
    files: Seq<FileModel>,
    pending: Option<Seq<char>>,
    header: Seq<char>,
    ls: Seq<LineModel>,
) -> ParseState {
    let at = numbers_after(ls, header_start(header));
    ParseState {
        files: with_hunk(files, HunkModel { header, lines: ls, review: HunkReview::Pending }),
        pending_old: pending,
        old_line: at.0 as u32,
        new_line: at.1 as u32,
        fault: false,
    }
}

/// A printed line reads back as the line.
proof fn lemma_read_line(
    files: Seq<FileModel>,
    pending: Option<Seq<char>>,
    header: Seq<char>,
    ls: Seq<LineModel>,
    l: LineModel,
)
    requires
        files.len() > 0,
        lines_ok(ls.push(l), header_start(header)),
    ensures
        parse_step(in_hunk(files, pending, header, ls), line_text(l)) == in_hunk(
            files,
            pending,
            header,
            ls.push(l),
        ),
{
    reveal_strlit("--- ");
    reveal_strlit("+++ ");
    reveal_strlit("-- ");
    reveal_strlit("++ ");
    reveal_strlit("@@");
    let start = header_start(header);
    assert(ls.push(l).drop_last() =~= ls);
    assert(ls.push(l).last() == l);
    lemma_numbers_bounded(ls, start);
    let st = in_hunk(files, pending, header, ls);
    let t = line_text(l);
    let c = sign_char(l.kind);
    assert("--- "@ =~= seq!['-'] + "-- "@);
    assert("+++ "@ =~= seq!['+'] + "++ "@);
    lemma_signed_prefix(c, l.text, "-- "@);
    lemma_signed_prefix(c, l.text, "++ "@);
    assert(!has_prefix(t, "--- "@)) by {
        if c != '-' && has_prefix(t, "--- "@) {
            assert(t.take(4)[0] == t[0]);
        }
    }
    assert(!has_prefix(t, "+++ "@)) by {
        if c != '+' && has_prefix(t, "+++ "@) {
            assert(t.take(4)[0] == t[0]);
        }
    }
    assert(!has_prefix(t, "@@"@)) by {
        if has_prefix(t, "@@"@) {
            assert(t.take(2)[0] == t[0]);
        }
    }
    assert(t.drop_first() =~= l.text);
    assert(classify(t) == Some((l.kind, l.text)));
    let h = HunkModel { header, lines: ls, review: HunkReview::Pending };
    let f2 = with_hunk(files, h);
    assert(f2.len() > 0 && f2.last().hunks.len() > 0);
    assert(!numbering_overflows(l.kind, st.old_line, st.new_line));
    let after = body_step(st, t);
    assert(numbered_line(l.kind, l.text, st.old_line, st.new_line) == l);
    let h2 = HunkModel { header, lines: ls.push(l), review: HunkReview::Pending };
    let g = f2.last();
    assert(g.hunks.last() == h);
    assert(g.hunks.update(g.hunks.len() - 1, HunkModel { lines: h.lines.push(l), ..h })
        =~= files.last().hunks.push(h2));
    assert(after.files =~= with_hunk(files, h2));
}

/// The printed lines of a hunk read back as its lines.
proof fn lemma_read_lines(
    files: Seq<FileModel>,
    pending: Option<Seq<char>>,
    header: Seq<char>,
    ls: Seq<LineModel>,
)
    requires
        files.len() > 0,
        lines_ok(ls, header_start(header)),
    ensures
        parse_from(
            in_hunk(files, pending, header, Seq::empty()),
            ls.map_values(|l: LineModel| line_text(l)),
        ) == in_hunk(files, pending, header, ls),
    decreases ls.len(),
{
    let e = Seq::<LineModel>::empty();
    if ls.len() == 0 {
        assert(ls =~= e);
        assert(ls.map_values(|l: LineModel| line_text(l)) =~= Seq::<Seq<char>>::empty());
    } else {
        let init = ls.drop_last();
        lemma_read_lines(files, pending, header, init);
        let printed = ls.map_values(|l: LineModel| line_text(l));
        assert(printed.drop_last() =~= init.map_values(|l: LineModel| line_text(l)));
        assert(printed.last() == line_text(ls.last()));
        assert(init.push(ls.last()) =~= ls);
        lemma_read_line(files, pending, header, init, ls.last());
    }
}

/// A printed hunk reads back as the hunk, appended to the last file.
proof fn lemma_read_hunk(st: ParseState, h: HunkModel)
    requires
        !st.fault,
        st.files.len() > 0,
        hunk_ok(h),
    ensures
        parse_from(st, hunk_lines(h)).files == with_hunk(st.files, h),
        parse_from(st, hunk_lines(h)).pending_old == st.pending_old,
        !parse_from(st, hunk_lines(h)).fault,
{
    reveal_strlit("--- ");
    reveal_strlit("+++ ");
    reveal_strlit("@@");
    let head = seq![h.header];
    let body = h.lines.map_values(|l: LineModel| line_text(l));
    lemma_parse_concat(st, head, body);
    assert(head.drop_last() =~= Seq::<Seq<char>>::empty());
    assert(!has_prefix(h.header, "--- "@)) by {
        assert(h.header.take(2)[0] == h.header[0]);
        if has_prefix(h.header, "--- "@) {
            assert(h.header.take(4)[0] == h.header[0]);
        }
    }
    assert(!has_prefix(h.header, "+++ "@)) by {
        assert(h.header.take(2)[0] == h.header[0]);
        if has_prefix(h.header, "+++ "@) {
            assert(h.header.take(4)[0] == h.header[0]);
        }
    }
    let st1 = parse_from(st, head);
    assert(parse_from(st, Seq::<Seq<char>>::empty()) == st);
    assert(parse_step(st, h.header) == header_step(st, h.header));
    assert(st1 == header_step(st, h.header));
    let start = header_start(h.header);
    let empty = Seq::<LineModel>::empty();
    assert(numbers_after(empty, start) == start);
    assert(st1 == in_hunk(st.files, st.pending_old, h.header, empty));
    lemma_read_lines(st.files, st.pending_old, h.header, h.lines);
    assert(HunkModel { header: h.header, lines: h.lines, review: HunkReview::Pending } == h);
}

/// The last file of `files` with `hs` appended to its hunks.
pub open spec fn with_hunks(files: Seq<FileModel>, hs: Seq<HunkModel>) -> Seq<FileModel> {
    let f = files.last();
    files.update(files.len() - 1, FileModel { hunks: f.hunks + hs, ..f })
}

/// Printed hunks read back as the hunks, appended to the last file.
proof fn lemma_read_hunks(st: ParseState, hs: Seq<HunkModel>)
    requires
        !st.fault,
        st.files.len() > 0,
        forall|i: int| 0 <= i < hs.len() ==> hunk_ok(#[trigger] hs[i]),
    ensures
        parse_from(st, hunks_lines(hs)).files == with_hunks(st.files, hs),
        parse_from(st, hunks_lines(hs)).pending_old == st.pending_old,
        !parse_from(st, hunks_lines(hs)).fault,
    decreases hs.len(),
{
    if hs.len() == 0 {
        assert(hunks_lines(hs) =~= Seq::<Seq<char>>::empty());
        assert(st.files.last().hunks + hs =~= st.files.last().hunks);
        assert(with_hunks(st.files, hs) =~= st.files);
    } else {
        let init = hs.drop_last();
        assert forall|i: int| 0 <= i < init.len() implies hunk_ok(#[trigger] init[i]) by {
            assert(init[i] == hs[i]);
        }
        lemma_read_hunks(st, init);
        lemma_parse_concat(st, hunks_lines(init), hunk_lines(hs.last()));
        let mid = parse_from(st, hunks_lines(init));
        assert(hunk_ok(hs.last())) by {
            assert(hs.last() == hs[hs.len() - 1]);
        }
        lemma_read_hunk(mid, hs.last());
        assert(init.push(hs.last()) =~= hs);
        assert(st.files.last().hunks + init + seq![hs.last()] =~= st.files.last().hunks + hs);
        assert(with_hunk(with_hunks(st.files, init), hs.last()) =~= with_hunks(st.files, hs));
    }
}

/// The first line of a file's patch text.
pub open spec fn source_line(f: FileModel) -> Seq<char> {
    "--- a/"@ + source_path(f)
}

/// The second line of a file's patch text.
pub open spec fn target_line(f: FileModel) -> Seq<char> {
    "+++ b/"@ + f.path
}

/// The printed lines of a well-formed file are lines that read back whole.
proof fn lemma_file_lines_printable(f: FileModel)
    requires
        file_ok(f),
        no_trailing_cr(f),
    ensures
        printable(file_lines(f)),
{
    reveal_strlit("--- a/");
    reveal_strlit("+++ b/");
    let ls = file_lines(f);
    let l1 = source_line(f);
    let l2 = target_line(f);
    assert(path_ok(source_path(f)));
    lemma_hunks_lines_printable(f.hunks);
    assert(lacks(l1, '\n') && !ends_cr(l1)) by {
        assert forall|k: int| 0 <= k < l1.len() implies l1[k] != '\n' by {
            if k >= 6 {
                assert(l1[k] == source_path(f)[k - 6]);
            }
        }
    }
    assert(lacks(l2, '\n') && !ends_cr(l2)) by {
        assert forall|k: int| 0 <= k < l2.len() implies l2[k] != '\n' by {
            if k >= 6 {
                assert(l2[k] == f.path[k - 6]);
            }
        }
    }
    assert forall|i: int| 0 <= i < ls.len() implies lacks(#[trigger] ls[i], '\n') && !ends_cr(
        ls[i],
    ) by {
        if i == 0 {
            assert(ls[i] == l1);
        } else if i == 1 {
            assert(ls[i] == l2);
        } else {
            assert(ls[i] == hunks_lines(f.hunks)[i - 2]);
        }
    }
}

/// The two header lines of a well-formed file open it with no hunks.
proof fn lemma_read_file_head(f: FileModel)
    requires
        file_ok(f),
    ensures
        parse_from(initial_state(), seq![source_line(f), target_line(f)]) == (ParseState {
            files: seq![FileModel { hunks: Seq::empty(), ..f }],
            pending_old: None,
            old_line: 0,
            new_line: 0,
            fault: false,
        }),
{
    reveal_strlit("--- a/");
    reveal_strlit("+++ b/");
    reveal_strlit("--- ");
    reveal_strlit("+++ ");
    reveal_strlit("a/");
    reveal_strlit("b/");
    let l1 = source_line(f);
    let l2 = target_line(f);
    let head = seq![l1, l2];
    assert(head.drop_last() =~= seq![l1]);
    assert(seq![l1].drop_last() =~= Seq::<Seq<char>>::empty());
    let st1 = parse_step(initial_state(), l1);
    assert(has_prefix(l1, "--- "@)) by {
        assert(l1.take(4) =~= "--- "@);
    }
    assert(l1.skip(4) =~= "a/"@ + source_path(f));
    assert(path_ok(source_path(f)));
    lemma_strip_written_path(source_path(f), "a/"@);
    assert(st1.pending_old == Some(source_path(f)));
    assert(!has_prefix(l2, "--- "@)) by {
        if has_prefix(l2, "--- "@) {
            assert(l2.take(4)[0] == l2[0]);
        }
    }
    assert(has_prefix(l2, "+++ "@)) by {
        assert(l2.take(4) =~= "+++ "@);
    }
    assert(l2.skip(4) =~= "b/"@ + f.path);
    lemma_strip_written_path(f.path, "b/"@);
    let st2 = parse_step(st1, l2);
    let base = FileModel { hunks: Seq::empty(), ..f };
    assert(opened_file(Some(source_path(f)), f.path) == base);
    assert(st2.files =~= seq![base]);
    assert(parse_from(initial_state(), Seq::<Seq<char>>::empty()) == initial_state());
    assert(parse_from(initial_state(), seq![l1]) == st1);
}

/// A well-formed file's printed patch reads back as exactly that file.
pub proof fn lemma_print_then_parse(f: FileModel)
    requires
        file_ok(f),
        no_trailing_cr(f),
    ensures
        !unified(unified_text(f)).fault,
        unified(unified_text(f)).files == seq![f],
{
    let ls = file_lines(f);
    lemma_file_lines_printable(f);
    lemma_lines_of_join(ls);
    let head = seq![source_line(f), target_line(f)];
    assert(ls == head + hunks_lines(f.hunks));
    lemma_parse_concat(initial_state(), head, hunks_lines(f.hunks));
    lemma_read_file_head(f);
    let base = FileModel { hunks: Seq::empty(), ..f };
    let st2 = parse_from(initial_state(), head);
    lemma_read_hunks(st2, f.hunks);
    assert(Seq::<HunkModel>::empty() + f.hunks =~= f.hunks);
    assert(with_hunks(seq![base], f.hunks) =~= seq![f]);
}

/// Every printed line of well-formed hunks is one line keeping its end.
proof fn lemma_hunks_lines_printable(hs: Seq<HunkModel>)
    requires
        forall|i: int| 0 <= i < hs.len() ==> hunk_ok(#[trigger] hs[i]),
        forall|i: int|
            0 <= i < hs.len() ==> {
                &&& !ends_cr(#[trigger] hs[i].header)
                &&& forall|j: int|
                    0 <= j < hs[i].lines.len() ==> !ends_cr(#[trigger] hs[i].lines[j].text)
            },
    ensures
        printable(hunks_lines(hs)),
    decreases hs.len(),
{
    if hs.len() > 0 {
        let init = hs.drop_last();
        assert forall|i: int| 0 <= i < init.len() implies hunk_ok(#[trigger] init[i]) by {
            assert(init[i] == hs[i]);
        }
        assert forall|i: int|
            0 <= i < init.len() implies {
                &&& !ends_cr(#[trigger] init[i].header)
                &&& forall|j: int|
                    0 <= j < init[i].lines.len() ==> !ends_cr(#[trigger] init[i].lines[j].text)
            } by {
            assert(init[i] == hs[i]);
        }
        lemma_hunks_lines_printable(init);
        let h = hs.last();
        assert(h == hs[hs.len() - 1]);
        lemma_lines_texts_ok(h.lines, header_start(h.header));
        let a = hunks_lines(init);
        let b = hunk_lines(h);
        assert(printable(b)) by {
            assert forall|i: int| 0 <= i < b.len() implies lacks(#[trigger] b[i], '\n')
                && !ends_cr(b[i]) by {
                if i > 0 {
                    let l = h.lines[i - 1];
                    assert(b[i] == line_text(l));
                    assert(text_ok(l));
                    assert(!ends_cr(l.text));
                    assert(lacks(line_text(l), '\n')) by {
                        assert forall|k: int| 0 <= k < line_text(l).len() implies line_text(
                            l,
                        )[k] != '\n' by {
                            if k > 0 {
                                assert(line_text(l)[k] == l.text[k - 1]);
                            }
                        }
                    }
                }
            }
        }
        assert(printable(a + b)) by {
            assert forall|i: int| 0 <= i < (a + b).len() implies lacks(#[trigger] (a + b)[i], '\n')
                && !ends_cr((a + b)[i]) by {
                if i < a.len() {
                    assert((a + b)[i] == a[i]);
                } else {
                    assert((a + b)[i] == b[i - a.len()]);
                }
            }
        }
    }
}

/// Every line of well-numbered lines has a text that survives printing.
proof fn lemma_lines_texts_ok(lines: Seq<LineModel>, start: (int, int))
    requires
        lines_ok(lines, start),
    ensures
        forall|j: int| 0 <= j < lines.len() ==> text_ok(#[trigger] lines[j]),
    decreases lines.len(),
{
    if lines.len() > 0 {
        lemma_lines_texts_ok(lines.drop_last(), start);
        assert forall|j: int| 0 <= j < lines.len() implies text_ok(#[trigger] lines[j]) by {
            if j < lines.len() - 1 {
                assert(lines[j] == lines.drop_last()[j]);
            }
        }
    }
}

} // verus!

verus! {

// ---------------------------------------------------------------------
// What the parser produces

/// The part before the first `c` is a prefix without `c`.
proof fn lemma_before_char_shape(s: Seq<char>, c: char)
    ensures
        before_char(s, c).len() <= s.len(),
        before_char(s, c) == s.take(before_char(s, c).len() as int),
        lacks(before_char(s, c), c),
    decreases s.len(),
{
    if s.len() > 0 && s[0] != c {
        let rest = s.drop_first();
        lemma_before_char_shape(rest, c);
        let b = before_char(s, c);
        assert(b == seq![s[0]] + before_char(rest, c));
        assert(b =~= s.take(b.len() as int));
    } else if s.len() > 0 {
        assert(before_char(s, c) =~= s.take(0));
    } else {
        assert(s.take(0) =~= s);
    }
}

/// Trimming the start leaves a suffix.
proof fn lemma_trim_start_suffix(s: Seq<char>)
    ensures
        trim_start(s).len() <= s.len(),
        trim_start(s) == s.skip(s.len() - trim_start(s).len()),
    decreases s.len(),
{
    if s.len() > 0 && is_ws(s[0]) {
        lemma_trim_start_suffix(s.drop_first());
        assert(s.drop_first().skip(s.len() - 1 - trim_start(s).len()) =~= s.skip(
            s.len() - trim_start(s).len(),
        ));
    } else {
        assert(s.skip(0) =~= s);
    }
}

/// Trimming the end leaves a prefix that does not end in whitespace.
proof fn lemma_trim_end_prefix(s: Seq<char>)
    ensures
        trim_end(s).len() <= s.len(),
        trim_end(s) == s.take(trim_end(s).len() as int),
        trim_end(s).len() == 0 || !is_ws(trim_end(s).last()),
    decreases s.len(),
{
    if s.len() > 0 && is_ws(s.last()) {
        lemma_trim_end_prefix(s.drop_last());
        assert(s.drop_last().take(trim_end(s).len() as int) =~= s.take(
            trim_end(s).len() as int,
        ));
    } else {
        assert(s.take(s.len() as int) =~= s);
    }
}

/// A path read from a header line is one that can be written back.
proof fn lemma_strip_path_ok(rest: Seq<char>)
    requires
        lacks(rest, '\n'),
    ensures
        path_ok(strip_path(rest)),
{
    reveal_strlit("a/");
    reveal_strlit("b/");
    let b = before_char(rest, '\t');
    lemma_before_char_shape(rest, '\t');
    let u = trim_start(b);
    lemma_trim_start_suffix(b);
    let t = trim_end(u);
    lemma_trim_end_prefix(u);
    assert(t == trim(b));
    assert(lacks(t, '\n') && lacks(t, '\t')) by {
        assert forall|i: int| 0 <= i < t.len() implies t[i] != '\n' && t[i] != '\t' by {
            assert(t[i] == u[i]);
            assert(u[i] == b[i + (b.len() - u.len())]);
            assert(b[i + (b.len() - u.len())] == rest[i + (b.len() - u.len())]);
        }
    }
    let p = strip_path(rest);
    if has_prefix(t, "a/"@) || has_prefix(t, "b/"@) {
        assert(p == t.skip(2));
        assert forall|i: int| 0 <= i < p.len() implies p[i] != '\n' && p[i] != '\t' by {
            assert(p[i] == t[i + 2]);
        }
        if p.len() > 0 {
            assert(p.last() == t.last());
        }
    } else {
        assert(p == t);
    }
}

/// The lines of any text are single lines.
proof fn lemma_scan_lines(s: Seq<char>)
    ensures
        forall|i: int|
            0 <= i < split_scan(s).0.len() ==> lacks(#[trigger] split_scan(s).0[i], '\n'),
        lacks(split_scan(s).1, '\n'),
    decreases s.len(),
{
    if s.len() > 0 {
        lemma_scan_lines(s.drop_last());
        let (d, c) = split_scan(s.drop_last());
        if s.last() == '\n' {
            let x = strip_cr(c);
            assert(lacks(x, '\n')) by {
                assert forall|k: int| 0 <= k < x.len() implies x[k] != '\n' by {
                    assert(x[k] == c[k]);
                }
            }
            assert forall|i: int| 0 <= i < d.push(x).len() implies lacks(
                #[trigger] d.push(x)[i],
                '\n',
            ) by {
                if i < d.len() {
                    assert(d.push(x)[i] == d[i]);
                }
            }
        } else {
            assert forall|k: int| 0 <= k < c.push(s.last()).len() implies c.push(s.last())[k]
                != '\n' by {
                if k < c.len() {
                    assert(c.push(s.last())[k] == c[k]);
                }
            }
        }
    }
}

/// The lines of any text are single lines.
proof fn lemma_lines_single(s: Seq<char>)
    ensures
        forall|i: int| 0 <= i < lines_of(s).len() ==> lacks(#[trigger] lines_of(s)[i], '\n'),
{
    lemma_scan_lines(s);
    let (d, c) = split_scan(s);
    assert forall|i: int| 0 <= i < lines_of(s).len() implies lacks(
        #[trigger] lines_of(s)[i],
        '\n',
    ) by {
        if i < d.len() {
            assert(lines_of(s)[i] == d[i]);
        }
    }
}

/// What holds of a parse at every step: every file read so far is well
/// formed, a waiting old path can be written back, and the numbers run on
/// from the open hunk's lines.
pub open spec fn reader_ok(st: ParseState) -> bool {
    &&& forall|i: int| 0 <= i < st.files.len() ==> file_ok(#[trigger] st.files[i])
    &&& match st.pending_old {
        Some(old) => path_ok(old),
        None => true,
    }
    &&& (st.files.len() > 0 && st.files.last().hunks.len() > 0) ==> {
        let h = st.files.last().hunks.last();
        numbers_after(h.lines, header_start(h.header)) == (st.old_line as int, st.new_line as int)
    }
}

/// Reading a header line keeps the parse well formed.
proof fn lemma_header_keeps(st: ParseState, raw: Seq<char>)
    requires
        reader_ok(st),
        !st.fault,
        lacks(raw, '\n'),
        has_prefix(raw, "@@"@),
        !header_step(st, raw).fault,
    ensures
        reader_ok(header_step(st, raw)),
{
    if st.files.len() > 0 {
        let h = HunkModel { header: raw, lines: Seq::empty(), review: HunkReview::Pending };
        let start = header_start(raw);
        assert(lines_ok(h.lines, start));
        assert(hunk_ok(h));
        let f = st.files.last();
        let g = FileModel { hunks: f.hunks.push(h), ..f };
        assert(file_ok(f)) by {
            assert(f == st.files[st.files.len() - 1]);
        }
        assert(file_ok(g)) by {
            assert forall|i: int| 0 <= i < g.hunks.len() implies hunk_ok(#[trigger] g.hunks[i]) by {
                if i < f.hunks.len() {
                    assert(g.hunks[i] == f.hunks[i]);
                }
            }
        }
        let next = header_step(st, raw);
        assert(next.files == st.files.update(st.files.len() - 1, g));
        assert forall|i: int| 0 <= i < next.files.len() implies file_ok(#[trigger] next.files[i]) by {
            if i < st.files.len() - 1 {
                assert(next.files[i] == st.files[i]);
            }
        }
        assert(next.files.last().hunks.last() == h);
    }
}

/// Reading a body line keeps the parse well formed.
proof fn lemma_body_keeps(st: ParseState, raw: Seq<char>)
    requires
        reader_ok(st),
        !st.fault,
        lacks(raw, '\n'),
        !has_prefix(raw, "--- "@),
        !has_prefix(raw, "+++ "@),
        !body_step(st, raw).fault,
    ensures
        reader_ok(body_step(st, raw)),
{
    reveal_strlit("--- ");
    reveal_strlit("+++ ");
    reveal_strlit("-- ");
    reveal_strlit("++ ");
    if st.files.len() > 0 && st.files.last().hunks.len() > 0 {
        if let Some((kind, text)) = classify(raw) {
            let f = st.files.last();
            let h = f.hunks.last();
            let start = header_start(h.header);
            let l = numbered_line(kind, text, st.old_line, st.new_line);
            assert(file_ok(f)) by {
                assert(f == st.files[st.files.len() - 1]);
            }
            assert(hunk_ok(h)) by {
                assert(h == f.hunks[f.hunks.len() - 1]);
            }
            assert(lacks(text, '\n')) by {
                assert forall|k: int| 0 <= k < text.len() implies text[k] != '\n' by {
                    if raw.len() > 0 && raw[0] != '\\' {
                        assert(text[k] == raw[k + 1]);
                    } else {
                        assert(text[k] == raw[k]);
                    }
                }
            }
            if kind == DiffLineKind::Added {
                assert(raw =~= seq!['+'] + text);
                assert("+++ "@ =~= seq!['+'] + "++ "@);
                lemma_signed_prefix('+', text, "++ "@);
            }
            if kind == DiffLineKind::Removed {
                assert(raw =~= seq!['-'] + text);
                assert("--- "@ =~= seq!['-'] + "-- "@);
                lemma_signed_prefix('-', text, "-- "@);
            }
            assert(text_ok(l));
            let ls = h.lines.push(l);
            assert(ls.drop_last() =~= h.lines);
            assert(lines_ok(ls, start));
            let h2 = HunkModel { lines: ls, ..h };
            assert(hunk_ok(h2));
            let g = FileModel { hunks: f.hunks.update(f.hunks.len() - 1, h2), ..f };
            assert(file_ok(g)) by {
                assert forall|i: int| 0 <= i < g.hunks.len() implies hunk_ok(#[trigger] g.hunks[i]) by {
                    if i < f.hunks.len() - 1 {
                        assert(g.hunks[i] == f.hunks[i]);
                    }
                }
            }
            let next = body_step(st, raw);
            assert(next.files == st.files.update(st.files.len() - 1, g));
            assert forall|i: int| 0 <= i < next.files.len() implies file_ok(#[trigger] next.files[i]) by {
                if i < st.files.len() - 1 {
                    assert(next.files[i] == st.files[i]);
                }
            }
            assert(next.files.last().hunks.last() == h2);
        }
    }
}

/// Reading any single line keeps the parse well formed.
proof fn lemma_step_keeps(st: ParseState, raw: Seq<char>)
    requires
        reader_ok(st),
        lacks(raw, '\n'),
        !parse_step(st, raw).fault,
    ensures
        reader_ok(parse_step(st, raw)),
{
    reveal_strlit("--- ");
    reveal_strlit("+++ ");
    if has_prefix(raw, "--- "@) {
        assert(lacks(raw.skip(4), '\n')) by {
            assert forall|k: int| 0 <= k < raw.skip(4).len() implies raw.skip(4)[k] != '\n' by {
                assert(raw.skip(4)[k] == raw[k + 4]);
            }
        }
        lemma_strip_path_ok(raw.skip(4));
    } else if has_prefix(raw, "+++ "@) {
        assert(lacks(raw.skip(4), '\n')) by {
            assert forall|k: int| 0 <= k < raw.skip(4).len() implies raw.skip(4)[k] != '\n' by {
                assert(raw.skip(4)[k] == raw[k + 4]);
            }
        }
        let path = strip_path(raw.skip(4));
        lemma_strip_path_ok(raw.skip(4));
        let nf = opened_file(st.pending_old, path);
        assert(file_ok(nf));
        let next = parse_step(st, raw);
        assert forall|i: int| 0 <= i < next.files.len() implies file_ok(#[trigger] next.files[i]) by {
            if i < st.files.len() {
                assert(next.files[i] == st.files[i]);
            }
        }
    } else if has_prefix(raw, "@@"@) {
        lemma_header_keeps(st, raw);
    } else {
        lemma_body_keeps(st, raw);
    }
}

/// Every state a fault-free parse of single lines passes through is well formed.
proof fn lemma_parse_keeps(ls: Seq<Seq<char>>)
    requires
        forall|i: int| 0 <= i < ls.len() ==> lacks(#[trigger] ls[i], '\n'),
        !parse_from(initial_state(), ls).fault,
    ensures
        reader_ok(parse_from(initial_state(), ls)),
    decreases ls.len(),
{
    if ls.len() > 0 {
        let init = ls.drop_last();
        assert forall|i: int| 0 <= i < init.len() implies lacks(#[trigger] init[i], '\n') by {
            assert(init[i] == ls[i]);
        }
        lemma_parse_keeps(init);
        assert(lacks(ls.last(), '\n')) by {
            assert(ls.last() == ls[ls.len() - 1]);
        }
        lemma_step_keeps(parse_from(initial_state(), init), ls.last());
    } else {
        assert(reader_ok(initial_state()));
    }
}

/// Every file a fault-free parse produces is well formed.
pub proof fn lemma_parsed_files_ok(patch: Seq<char>)
    requires
        !unified(patch).fault,
    ensures
        forall|i: int|
            0 <= i < unified(patch).files.len() ==> file_ok(#[trigger] unified(patch).files[i]),
{
    lemma_lines_single(patch);
    lemma_parse_keeps(lines_of(patch));
}

/// Round trip: printing any file a patch parses into, and parsing that text,
/// gives back exactly that file (for files whose headers and line texts do
/// not end in a carriage return, which a line reader takes for part of the
/// line ending).
pub proof fn lemma_round_trip(patch: Seq<char>, i: int)
    requires
        !unified(patch).fault,
        0 <= i < unified(patch).files.len(),
        no_trailing_cr(unified(patch).files[i]),
    ensures
        !unified(unified_text(unified(patch).files[i])).fault,
        unified(unified_text(unified(patch).files[i])).files == seq![unified(patch).files[i]],
{
    lemma_parsed_files_ok(patch);
    lemma_print_then_parse(unified(patch).files[i]);
}

} // verus!

verus! {

/// Unknown lines are ignored: a line that opens with none of the characters
/// a body line can open with (`+`, `-`, a space, `\`) and is no `@@` hunk
/// header leaves the parse exactly as it was, so partial tool output still
/// renders. A line opening with a single `@` is such a line.
pub proof fn lemma_unknown_lines_ignored(st: ParseState, raw: Seq<char>)
    requires
        raw.len() > 0,
        raw[0] != '+',
        raw[0] != '-',
        raw[0] != ' ',
        raw[0] != '\\',
        !has_prefix(raw, "@@"@),
    ensures
        parse_step(st, raw) == st,
{
    reveal_strlit("--- ");
    reveal_strlit("+++ ");
    assert(!has_prefix(raw, "--- "@)) by {
        if has_prefix(raw, "--- "@) {
            assert(raw.take(4)[0] == raw[0]);
        }
    }
    assert(!has_prefix(raw, "+++ "@)) by {
        if has_prefix(raw, "+++ "@) {
            assert(raw.take(4)[0] == raw[0]);
        }
    }
}

/// An unknown line inserted anywhere into a patch of whole lines changes
/// nothing the patch parses into: no file, hunk, line or line number, and
/// not whether it faults.
pub proof fn lemma_unknown_line_inserted(ls: Seq<Seq<char>>, u: Seq<char>, k: int)
    requires
        printable(ls),
        0 <= k <= ls.len(),
        lacks(u, '\n'),
        !ends_cr(u),
        u.len() > 0,
        u[0] != '+',
        u[0] != '-',
        u[0] != ' ',
        u[0] != '\\',
        !has_prefix(u, "@@"@),
    ensures
        unified(join_lines(ls.take(k) + seq![u] + ls.skip(k))) == unified(join_lines(ls)),
{
    let q = ls.take(k) + seq![u] + ls.skip(k);
    assert(printable(q)) by {
        assert forall|i: int| 0 <= i < q.len() implies lacks(#[trigger] q[i], '\n') && !ends_cr(
            q[i],
        ) by {
            if i < k {
                assert(q[i] == ls[i]);
            } else if i == k {
                assert(q[i] == u);
            } else {
                assert(q[i] == ls[i - 1]);
            }
        }
    }
    lemma_lines_of_join(ls);
    lemma_lines_of_join(q);
    let init = initial_state();
    lemma_parse_concat(init, ls.take(k) + seq![u], ls.skip(k));
    lemma_parse_concat(init, ls.take(k), seq![u]);
    assert(seq![u].drop_last() =~= Seq::<Seq<char>>::empty());
    assert(seq![u].last() == u);
    let s0 = parse_from(init, ls.take(k));
    assert(parse_from(s0, Seq::<Seq<char>>::empty()) == s0);
    assert(parse_from(parse_from(init, ls.take(k)), seq![u]) == parse_step(
        parse_from(init, ls.take(k)),
        u,
    ));
    lemma_unknown_lines_ignored(parse_from(init, ls.take(k)), u);
    lemma_parse_concat(init, ls.take(k), ls.skip(k));
    assert(ls.take(k) + ls.skip(k) =~= ls);
}

// ---------------------------------------------------------------------
// Patches without carriage returns

/// Whether no header or line text of `h` holds `c`.
pub open spec fn hunk_lacks(h: HunkModel, c: char) -> bool {
    &&& lacks(h.header, c)
    &&& forall|k: int| 0 <= k < h.lines.len() ==> lacks(#[trigger] h.lines[k].text, c)
}

/// Whether no hunk header or line text of `f` holds `c`.
pub open spec fn file_lacks(f: FileModel, c: char) -> bool {
    forall|j: int| 0 <= j < f.hunks.len() ==> hunk_lacks(#[trigger] f.hunks[j], c)
}

/// Whether no hunk header or line text of any of `fs` holds `c`.
pub open spec fn files_lack(fs: Seq<FileModel>, c: char) -> bool {
    forall|i: int| 0 <= i < fs.len() ==> file_lacks(#[trigger] fs[i], c)
}

/// The lines of a text without `c`, and its open line, are without `c`.
proof fn lemma_scan_lacks(s: Seq<char>, c: char)
    requires
        lacks(s, c),
    ensures
        forall|i: int| 0 <= i < split_scan(s).0.len() ==> lacks(#[trigger] split_scan(s).0[i], c),
        lacks(split_scan(s).1, c),
    decreases s.len(),
{
    if s.len() > 0 {
        assert(lacks(s.drop_last(), c)) by {
            assert forall|k: int| 0 <= k < s.drop_last().len() implies s.drop_last()[k] != c by {
                assert(s.drop_last()[k] == s[k]);
            }
        }
        lemma_scan_lacks(s.drop_last(), c);
        let (d, cur) = split_scan(s.drop_last());
        if s.last() == '\n' {
            let x = strip_cr(cur);
            assert(lacks(x, c)) by {
                assert forall|k: int| 0 <= k < x.len() implies x[k] != c by {
                    assert(x[k] == cur[k]);
                }
            }
            assert forall|i: int| 0 <= i < d.push(x).len() implies lacks(
                #[trigger] d.push(x)[i],
                c,
            ) by {
                if i < d.len() {
                    assert(d.push(x)[i] == d[i]);
                }
            }
        } else {
            assert(s.last() == s[s.len() - 1]);
            assert forall|k: int| 0 <= k < cur.push(s.last()).len() implies cur.push(s.last())[k]
                != c by {
                if k < cur.len() {
                    assert(cur.push(s.last())[k] == cur[k]);
                }
            }
        }
    }
}

/// The lines of a text without `c` are without `c`.
proof fn lemma_lines_lack(s: Seq<char>, c: char)
    requires
        lacks(s, c),
    ensures
        forall|i: int| 0 <= i < lines_of(s).len() ==> lacks(#[trigger] lines_of(s)[i], c),
{
    lemma_scan_lacks(s, c);
    let (d, cur) = split_scan(s);
    assert forall|i: int| 0 <= i < lines_of(s).len() implies lacks(#[trigger] lines_of(s)[i], c) by {
        if i < d.len() {
            assert(lines_of(s)[i] == d[i]);
        }
    }
}

/// Reading a line without `c` adds no header or text holding `c`.
proof fn lemma_step_lacks(st: ParseState, raw: Seq<char>, c: char)
    requires
        files_lack(st.files, c),
        lacks(raw, c),
    ensures
        files_lack(parse_step(st, raw).files, c),
{
    let next = parse_step(st, raw);
    if st.fault || has_prefix(raw, "--- "@) {
    } else if has_prefix(raw, "+++ "@) {
        let nf = opened_file(st.pending_old, strip_path(raw.skip(4)));
        assert(nf.hunks.len() == 0);
        assert(next.files == st.files.push(nf));
        assert forall|i: int| 0 <= i < next.files.len() implies file_lacks(
            #[trigger] next.files[i],
            c,
        ) by {
            if i < st.files.len() {
                assert(next.files[i] == st.files[i]);
            }
        }
    } else if has_prefix(raw, "@@"@) {
        if st.files.len() > 0 {
            let h = HunkModel { header: raw, lines: Seq::empty(), review: HunkReview::Pending };
            let f = st.files.last();
            let g = FileModel { hunks: f.hunks.push(h), ..f };
            assert(file_lacks(f, c)) by {
                assert(f == st.files[st.files.len() - 1]);
            }
            assert(hunk_lacks(h, c));
            assert(file_lacks(g, c)) by {
                assert forall|j: int| 0 <= j < g.hunks.len() implies hunk_lacks(
                    #[trigger] g.hunks[j],
                    c,
                ) by {
                    if j < f.hunks.len() {
                        assert(g.hunks[j] == f.hunks[j]);
                    }
                }
            }
            assert(next.files == st.files.update(st.files.len() - 1, g));
            assert forall|i: int| 0 <= i < next.files.len() implies file_lacks(
                #[trigger] next.files[i],
                c,
            ) by {
                if i < st.files.len() - 1 {
                    assert(next.files[i] == st.files[i]);
                }
            }
        }
    } else {
        if st.files.len() > 0 && st.files.last().hunks.len() > 0 {
            if let Some((kind, text)) = classify(raw) {
                if !numbering_overflows(kind, st.old_line, st.new_line) {
                    assert(lacks(text, c)) by {
                        assert forall|k: int| 0 <= k < text.len() implies text[k] != c by {
                            if raw.len() > 0 && raw[0] != '\\' {
                                assert(text[k] == raw[k + 1]);
                            } else {
                                assert(text[k] == raw[k]);
                            }
                        }
                    }
                    let l = numbered_line(kind, text, st.old_line, st.new_line);
                    let f = st.files.last();
                    let h = f.hunks.last();
                    assert(file_lacks(f, c)) by {
                        assert(f == st.files[st.files.len() - 1]);
                    }
                    assert(hunk_lacks(h, c)) by {
                        assert(h == f.hunks[f.hunks.len() - 1]);
                    }
                    let h2 = HunkModel { lines: h.lines.push(l), ..h };
                    assert(hunk_lacks(h2, c)) by {
                        assert forall|k: int| 0 <= k < h2.lines.len() implies lacks(
                            #[trigger] h2.lines[k].text,
                            c,
                        ) by {
                            if k < h.lines.len() {
                                assert(h2.lines[k] == h.lines[k]);
                            }
                        }
                    }
                    let g = FileModel { hunks: f.hunks.update(f.hunks.len() - 1, h2), ..f };
                    assert(file_lacks(g, c)) by {
                        assert forall|j: int| 0 <= j < g.hunks.len() implies hunk_lacks(
                            #[trigger] g.hunks[j],
                            c,
                        ) by {
                            if j < f.hunks.len() - 1 {
                                assert(g.hunks[j] == f.hunks[j]);
                            }
                        }
                    }
                    assert(next.files == st.files.update(st.files.len() - 1, g));
                    assert forall|i: int| 0 <= i < next.files.len() implies file_lacks(
                        #[trigger] next.files[i],
                        c,
                    ) by {
                        if i < st.files.len() - 1 {
                            assert(next.files[i] == st.files[i]);
                        }
                    }
                }
            }
        }
    }
}

/// Reading lines without `c` yields no header or text holding `c`.
proof fn lemma_parse_lacks(ls: Seq<Seq<char>>, c: char)
    requires
        forall|i: int| 0 <= i < ls.len() ==> lacks(#[trigger] ls[i], c),
    ensures
        files_lack(parse_from(initial_state(), ls).files, c),
    decreases ls.len(),
{
    if ls.len() > 0 {
        let init = ls.drop_last();
        assert forall|i: int| 0 <= i < init.len() implies lacks(#[trigger] init[i], c) by {
            assert(init[i] == ls[i]);
        }
        lemma_parse_lacks(init, c);
        assert(lacks(ls.last(), c)) by {
            assert(ls.last() == ls[ls.len() - 1]);
        }
        lemma_step_lacks(parse_from(initial_state(), init), ls.last(), c);
    } else {
        assert(initial_state().files.len() == 0);
    }
}

/// Round trip from a patch without carriage returns: printing any file it
/// parses into, and parsing that text, gives back exactly that file.
pub proof fn lemma_round_trip_without_cr(patch: Seq<char>, i: int)
    requires
        lacks(patch, '\r'),
        !unified(patch).fault,
        0 <= i < unified(patch).files.len(),
    ensures
        !unified(unified_text(unified(patch).files[i])).fault,
        unified(unified_text(unified(patch).files[i])).files == seq![unified(patch).files[i]],
{
    lemma_lines_lack(patch, '\r');
    lemma_parse_lacks(lines_of(patch), '\r');
    let f = unified(patch).files[i];
    assert(file_lacks(f, '\r'));
    assert(no_trailing_cr(f)) by {
        assert forall|j: int| 0 <= j < f.hunks.len() implies {
            &&& !ends_cr(#[trigger] f.hunks[j].header)
            &&& forall|k: int|
                0 <= k < f.hunks[j].lines.len() ==> !ends_cr(#[trigger] f.hunks[j].lines[k].text)
        } by {
            let h = f.hunks[j];
            assert(hunk_lacks(h, '\r'));
            if h.header.len() > 0 {
                assert(h.header.last() == h.header[h.header.len() - 1]);
            }
            assert forall|k: int| 0 <= k < h.lines.len() implies !ends_cr(
                #[trigger] h.lines[k].text,
            ) by {
                let t = h.lines[k].text;
                assert(lacks(t, '\r'));
                if t.len() > 0 {
                    assert(t.last() == t[t.len() - 1]);
                }
            }
        }
    }
    lemma_round_trip(patch, i);
}

} // verus!

verus! {

// ---------------------------------------------------------------------
// Every character is read

/// The scan's open line is what follows the last line feed, so it is
/// non-empty exactly when the text is and does not end in a line feed, and
/// then ends as the text does.
proof fn lemma_scan_open(s: Seq<char>)
    ensures
        split_scan(s).1.len() > 0 <==> (s.len() > 0 && s.last() != '\n'),
        split_scan(s).1.len() > 0 ==> split_scan(s).1.last() == s.last(),
    decreases s.len(),
{
    if s.len() > 0 {
        lemma_scan_open(s.drop_last());
    }
}

/// Without carriage returns, the ended lines, each with its line feed, and
/// then the open line, are the text itself.
proof fn lemma_scan_rebuild(s: Seq<char>)
    requires
        lacks(s, '\r'),
    ensures
        join_lines(split_scan(s).0) + split_scan(s).1 == s,
    decreases s.len(),
{
    if s.len() > 0 {
        let t = s.drop_last();
        assert(lacks(t, '\r')) by {
            assert forall|k: int| 0 <= k < t.len() implies t[k] != '\r' by {
                assert(t[k] == s[k]);
            }
        }
        lemma_scan_rebuild(t);
        let (d, c) = split_scan(t);
        if s.last() == '\n' {
            lemma_scan_open(t);
            if c.len() > 0 {
                assert(c.last() == t.last());
                assert(t.last() == s[s.len() - 2]);
            }
            assert(strip_cr(c) == c);
            assert(d.push(c).drop_last() =~= d);
            assert(join_lines(d.push(c)) == join_lines(d) + c + seq!['\n']);
            assert(join_lines(d) + c + seq!['\n'] + Seq::<char>::empty() =~= t.push('\n'));
            assert(t.push('\n') =~= s);
        } else {
            assert(join_lines(d) + c.push(s.last()) =~= (join_lines(d) + c).push(s.last()));
            assert(t.push(s.last()) =~= s);
        }
    } else {
        assert(join_lines(Seq::<Seq<char>>::empty()) + Seq::<char>::empty() =~= s);
    }
}

/// Every character of a patch is read: the lines the parser reads, each
/// followed by a line feed, spell out the whole text (a text without
/// carriage returns), with a line feed added only where the last line had
/// none.
pub proof fn lemma_lines_cover_text(t: Seq<char>)
    requires
        lacks(t, '\r'),
    ensures
        join_lines(lines_of(t)) == if t.len() == 0 || t.last() == '\n' {
            t
        } else {
            t.push('\n')
        },
{
    lemma_scan_rebuild(t);
    lemma_scan_open(t);
    let (d, c) = split_scan(t);
    if c.len() > 0 {
        assert(d.push(c).drop_last() =~= d);
        assert(d.push(c).last() == c);
        assert(join_lines(d) + c + seq!['\n'] =~= t.push('\n'));
    } else {
        assert(join_lines(d) + c =~= join_lines(d));
    }
}

/// A last line without its line feed is read like any other: a text that
/// does not end in a line break parses exactly as the same text with a line
/// feed added.
pub proof fn lemma_final_newline_optional(t: Seq<char>)
    requires
        t.len() == 0 || (t.last() != '\n' && t.last() != '\r'),
    ensures
        lines_of(t.push('\n')) == if t.len() == 0 {
            seq![Seq::<char>::empty()]
        } else {
            lines_of(t)
        },
        unified(t.push('\n')) == unified(t),
{
    let s = t.push('\n');
    assert(s.drop_last() =~= t);
    lemma_scan_open(t);
    let (d, c) = split_scan(t);
    assert(split_scan(s) == (d.push(strip_cr(c)), Seq::<char>::empty()));
    if t.len() == 0 {
        assert(lines_of(s) =~= seq![Seq::<char>::empty()]);
        let init = initial_state();
        assert(seq![Seq::<char>::empty()].drop_last() =~= Seq::<Seq<char>>::empty());
        assert(parse_from(init, Seq::<Seq<char>>::empty()) == init);
        reveal_strlit("--- ");
        reveal_strlit("+++ ");
        reveal_strlit("@@");
        assert(!has_prefix(Seq::<char>::empty(), "--- "@));
        assert(!has_prefix(Seq::<char>::empty(), "+++ "@));
        assert(!has_prefix(Seq::<char>::empty(), "@@"@));
        assert(parse_step(init, Seq::<char>::empty()) == init);
        assert(lines_of(t) =~= Seq::<Seq<char>>::empty());
    } else {
        assert(c.last() == t.last());
        assert(strip_cr(c) == c);
    }
}

} // verus!
