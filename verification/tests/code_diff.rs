use gpui_ai::code_diff::{
    review_display, toggle_label, CodeDiffEvent, DiffFile, DiffHunk, DiffLine, DiffLineKind, DiffStats, HunkReview,
    ReviewDisplay,
};

const PATCH: &str = "diff --git a/src/pricing.rs b/src/pricing.rs\n--- a/src/pricing.rs\n+++ b/src/pricing.rs\n@@ -1,4 +1,5 @@ fn unit_price\n fn unit_price(order: &Order) -> Money {\n-    order.total / order.units\n+    let units = order.units.max(1);\n+    order.total / units\n }\n \n@@ -10,3 +11,3 @@\n fn discount() -> f32 {\n-    0.05\n+    0.07\n }\n";

#[test]
fn unified_patches_parse_into_numbered_hunks() {
    let files = DiffFile::from_unified(PATCH);
    assert_eq!(files.len(), 1);
    let file = &files[0];
    assert_eq!(file.path(), "src/pricing.rs");
    assert_eq!(file.language_name(), Some("rust"));
    assert_eq!(file.hunk_refs().len(), 2);
    assert_eq!(
        file.stats(),
        DiffStats {
            added: 3,
            removed: 2
        }
    );
    assert_eq!(
        file.accessibility_label(),
        "Diff of src/pricing.rs, +3 \u{2212}2"
    );

    let first = &file.hunk_refs()[0];
    assert_eq!(first.header(), "@@ -1,4 +1,5 @@ fn unit_price");
    let lines = first.line_refs();
    assert_eq!(lines[0].kind(), DiffLineKind::Context);
    assert_eq!(
        (lines[0].old_line(), lines[0].new_line()),
        (Some(1), Some(1))
    );
    assert_eq!(lines[1].kind(), DiffLineKind::Removed);
    assert_eq!((lines[1].old_line(), lines[1].new_line()), (Some(2), None));
    assert_eq!(lines[2].kind(), DiffLineKind::Added);
    assert_eq!((lines[2].old_line(), lines[2].new_line()), (None, Some(2)));
    assert_eq!(lines[3].text(), "    order.total / units");
    assert_eq!(
        (lines[4].old_line(), lines[4].new_line()),
        (Some(3), Some(4))
    );

    let second = &file.hunk_refs()[1];
    assert_eq!(second.line_refs()[0].old_line(), Some(10));
    assert_eq!(second.line_refs()[0].new_line(), Some(11));
}

#[test]
fn round_trips_to_a_unified_patch() {
    let file = DiffFile::from_unified(PATCH).remove(0);
    let unified = file.to_unified();
    assert!(unified.starts_with(
        "--- a/src/pricing.rs\n+++ b/src/pricing.rs\n@@ -1,4 +1,5 @@ fn unit_price\n"
    ));
    assert!(
        unified.contains("-    order.total / order.units\n+    let units = order.units.max(1);\n")
    );
    let again = DiffFile::from_unified(&unified).remove(0);
    assert_eq!(again, file);
}

#[test]
fn renames_and_unknown_lines_are_tolerated() {
    let files =
        DiffFile::from_unified("--- a/old.md\n+++ b/new.md\nindex 1..2\n@@ -1 +1 @@\n-old\n+new\n");
    assert_eq!(files[0].old_path(), Some("old.md"));
    assert_eq!(files[0].path(), "new.md");
    assert_eq!(files[0].hunk_refs()[0].line_refs().len(), 2);
    assert!(DiffFile::from_unified("not a diff").is_empty());
}

#[test]
fn printing_then_parsing_gives_the_file_back() {
    let file = DiffFile::new("lib/app.py".to_owned()).hunks(vec![DiffHunk::new(
        "@@ -3,2 +3,3 @@".to_owned(),
    )
    .lines(vec![
        DiffLine::new(DiffLineKind::Context, "import os".to_owned())
            .old_number(3)
            .new_number(3),
        DiffLine::new(DiffLineKind::Added, "import sys".to_owned()).new_number(4),
        DiffLine::new(DiffLineKind::Context, "".to_owned())
            .old_number(4)
            .new_number(5),
    ])]);
    let printed = file.to_unified();
    assert_eq!(
        printed,
        "--- a/lib/app.py\n+++ b/lib/app.py\n@@ -3,2 +3,3 @@\n import os\n+import sys\n \n"
    );
    let parsed = DiffFile::from_unified(&printed);
    assert_eq!(parsed, vec![file]);
}

#[test]
fn a_rename_prints_its_old_path() {
    let file = DiffFile::new("b.rs".to_owned()).renamed_from("a.rs".to_owned());
    assert_eq!(file.to_unified(), "--- a/a.rs\n+++ b/b.rs\n");
    assert_eq!(file.old_path(), Some("a.rs"));
}

#[test]
fn dev_null_and_same_path_are_not_renames() {
    let files = DiffFile::from_unified("--- /dev/null\n+++ b/new.go\n--- a/x.c\n+++ b/x.c\n");
    assert_eq!(files.len(), 2);
    assert_eq!(files[0].old_path(), None);
    assert_eq!(files[0].path(), "new.go");
    assert_eq!(files[0].language_name(), Some("go"));
    assert_eq!(files[1].old_path(), None);
    assert_eq!(files[1].language_name(), Some("c"));
}

#[test]
fn languages_follow_the_extension() {
    let cases = [
        ("a.rs", Some("rust")),
        ("a.tsx", Some("typescript")),
        ("a.mjs", Some("javascript")),
        ("a.py", Some("python")),
        ("Cargo.toml", Some("toml")),
        ("a.json", Some("json")),
        ("README.md", Some("markdown")),
        ("run.zsh", Some("bash")),
        ("a.css", Some("css")),
        ("a.html", Some("html")),
        ("a.yml", Some("yaml")),
        ("a.sql", Some("sql")),
        ("a.h", Some("c")),
        ("a.cc", Some("cpp")),
        ("A.java", Some("java")),
        ("a.kt", Some("kotlin")),
        ("a.swift", Some("swift")),
        ("a.rb", Some("ruby")),
        ("Makefile", None),
        ("archive.tar.gz", None),
        ("a.RS", None),
    ];
    for (path, language) in cases {
        assert_eq!(DiffFile::new(path.to_owned()).language_name(), language, "{path}");
    }
    let overridden = DiffFile::new("notes".to_owned()).language("text".to_owned());
    assert_eq!(overridden.language_name(), Some("text"));
}

#[test]
fn hunk_headers_without_ranges_start_at_one() {
    let files = DiffFile::from_unified("+++ b/x.txt\n@@ no ranges @@\n ctx\n+add\n");
    let lines = files[0].hunk_refs()[0].line_refs();
    assert_eq!((lines[0].old_line(), lines[0].new_line()), (Some(1), Some(1)));
    assert_eq!((lines[1].old_line(), lines[1].new_line()), (None, Some(2)));
}

#[test]
fn lines_before_any_hunk_are_ignored_and_a_missing_newline_marker_is_context() {
    let files = DiffFile::from_unified(
        "+++ b/x.txt\n+not in a hunk\n@@ -5 +7 @@\n-a\n\\ No newline at end of file\n",
    );
    let lines = files[0].hunk_refs()[0].line_refs();
    assert_eq!(lines.len(), 2);
    assert_eq!(lines[0].old_line(), Some(5));
    assert_eq!(lines[1].kind(), DiffLineKind::Context);
    assert_eq!(lines[1].text(), "\\ No newline at end of file");
    assert_eq!((lines[1].old_line(), lines[1].new_line()), (Some(6), Some(7)));
}

#[test]
fn crlf_patches_parse_like_lf_patches() {
    let lf = DiffFile::from_unified("--- a/a.rs\n+++ b/a.rs\n@@ -1 +1 @@\n-x\n+y\n");
    let crlf = DiffFile::from_unified("--- a/a.rs\r\n+++ b/a.rs\r\n@@ -1 +1 @@\r\n-x\r\n+y\r\n");
    assert_eq!(lf, crlf);
}

#[test]
fn a_range_token_outside_ascii_names_no_range() {
    let files = DiffFile::from_unified("+++ b/x\n@@ \u{e9}4 +3 @@\n c\n");
    let line = &files[0].hunk_refs()[0].line_refs()[0];
    assert_eq!((line.old_line(), line.new_line()), (Some(1), Some(3)));
    let files = DiffFile::from_unified("+++ b/x\n@@ -\u{e9}4 +\u{e9} @@\n c\n");
    let line = &files[0].hunk_refs()[0].line_refs()[0];
    assert_eq!((line.old_line(), line.new_line()), (Some(1), Some(1)));
}

#[test]
fn a_faulty_patch_is_refused_by_the_checked_parser() {
    assert!(DiffFile::try_from_unified("+++ b/x\n@@ -4294967295 +1 @@\n a\n").is_none());
    assert_eq!(
        DiffFile::try_from_unified(PATCH),
        Some(DiffFile::from_unified(PATCH))
    );
}

#[test]
fn stats_label_and_defaults() {
    assert_eq!(DiffStats::default(), DiffStats { added: 0, removed: 0 });
    assert_eq!(DiffStats { added: 12, removed: 0 }.label(), "+12 \u{2212}0");
    assert_eq!(HunkReview::default(), HunkReview::Pending);
    assert_eq!(DiffLineKind::Added.sign(), "+");
    assert_eq!(DiffLineKind::Removed.sign(), "-");
    assert_eq!(DiffLineKind::Context.sign(), " ");
}

#[test]
fn hunk_code_and_patch_text() {
    let hunk = DiffHunk::new("@@ -1 +1 @@".to_owned()).lines(vec![
        DiffLine::new(DiffLineKind::Removed, "old".to_owned()).old_number(1),
        DiffLine::new(DiffLineKind::Added, "new".to_owned()).new_number(1),
    ]);
    assert_eq!(hunk.code(), "old\nnew\n");
    assert_eq!(hunk.patch_text(), "@@ -1 +1 @@\n-old\n+new\n");
    assert_eq!(hunk.stats(), DiffStats { added: 1, removed: 1 });
    let reviewed = hunk.clone().review(HunkReview::Accepted);
    assert_eq!(reviewed.review_state(), HunkReview::Accepted);
    assert_eq!(hunk.review_state(), HunkReview::Pending);
}

#[test]
fn hunk_markdown_fence_outruns_backticks_in_the_code() {
    let plain = DiffHunk::new("@@ -1 +1 @@".to_owned())
        .lines(vec![DiffLine::new(DiffLineKind::Added, "let x = 1;".to_owned())]);
    assert_eq!(plain.markdown_source("rust"), "```rust\nlet x = 1;\n```");
    let fenced = DiffHunk::new("@@ -1 +1 @@".to_owned()).lines(vec![
        DiffLine::new(DiffLineKind::Context, "````".to_owned()),
        DiffLine::new(DiffLineKind::Added, "a ``b`` c".to_owned()),
    ]);
    assert_eq!(fenced.markdown_source("md"), "`````md\n````\na ``b`` c\n`````");
}

#[test]
fn hunk_accessibility_label_counts_from_one() {
    let hunk = DiffHunk::new("@@ -1,2 +1,3 @@".to_owned()).lines(vec![
        DiffLine::new(DiffLineKind::Added, "a".to_owned()),
        DiffLine::new(DiffLineKind::Added, "b".to_owned()),
        DiffLine::new(DiffLineKind::Removed, "c".to_owned()),
    ]);
    assert_eq!(
        hunk.accessibility_label(0),
        "Hunk 1 of @@ -1,2 +1,3 @@: +2 \u{2212}1"
    );
    assert_eq!(
        hunk.accessibility_label(9),
        "Hunk 10 of @@ -1,2 +1,3 @@: +2 \u{2212}1"
    );
}

#[test]
fn review_controls_show_only_for_pending_handled_reviewable_hunks() {
    assert_eq!(review_display(HunkReview::Accepted, false, false), ReviewDisplay::AcceptedBadge);
    assert_eq!(review_display(HunkReview::Rejected, true, true), ReviewDisplay::RejectedBadge);
    assert_eq!(review_display(HunkReview::Pending, true, true), ReviewDisplay::Controls);
    assert_eq!(review_display(HunkReview::Pending, true, false), ReviewDisplay::Nothing);
    assert_eq!(review_display(HunkReview::Pending, false, true), ReviewDisplay::Nothing);
}

#[test]
fn file_stats_sum_every_hunk() {
    let files = DiffFile::from_unified(PATCH);
    let sum = files[0]
        .hunk_refs()
        .iter()
        .fold((0, 0), |(a, r), h| (a + h.stats().added, r + h.stats().removed));
    assert_eq!((files[0].stats().added, files[0].stats().removed), sum);
}

#[test]
fn the_header_names_renames_and_the_toggle_action() {
    let renamed = DiffFile::new("b.rs".to_owned()).renamed_from("a.rs".to_owned());
    assert_eq!(renamed.rename_note(), Some("renamed from a.rs".to_owned()));
    assert_eq!(DiffFile::new("b.rs".to_owned()).rename_note(), None);
    assert_eq!(toggle_label(true), "Collapse diff");
    assert_eq!(toggle_label(false), "Expand diff");
    let event = CodeDiffEvent::HunkAccepted {
        path: "b.rs".to_owned(),
        hunk: 0,
    };
    assert_ne!(
        event,
        CodeDiffEvent::HunkRejected {
            path: "b.rs".to_owned(),
            hunk: 0
        }
    );
}

#[test]
fn hunk_ranges_read_leading_digits_only() {
    let files = DiffFile::from_unified("+++ b/x\n@@ -007,2 +x @@\n c\n");
    let line = &files[0].hunk_refs()[0].line_refs()[0];
    assert_eq!((line.old_line(), line.new_line()), (Some(7), Some(1)));
    let files = DiffFile::from_unified("+++ b/x\n@@ +3 -9 @@\n c\n");
    let line = &files[0].hunk_refs()[0].line_refs()[0];
    assert_eq!((line.old_line(), line.new_line()), (Some(9), Some(3)));
}

#[test]
fn an_unknown_line_anywhere_changes_nothing() {
    let plain = DiffFile::from_unified(PATCH);
    let lines: Vec<&str> = PATCH.lines().collect();
    for k in 0..=lines.len() {
        for unknown in ["index 1..2", "@ single at", "similarity index 90%"] {
            let mut with: Vec<&str> = lines.clone();
            with.insert(k, unknown);
            let text: String = with.iter().map(|l| format!("{l}\n")).collect();
            assert_eq!(DiffFile::from_unified(&text), plain, "{unknown} at {k}");
        }
    }
}
