# gpui_ai

The verified core of an AI-interface component library for GPUI: what the
components decide and compute, stated as Verus contracts and proved.

- `src/code_diff.rs`, `src/diff_model.rs`, `src/diff_laws.rs`: unified
  patches as reviewable hunks — the parser, the printer, their models, and
  the round-trip law between them.
- `src/story.rs`, `src/usage.rs`: the gallery's story routes and catalog.
- `src/motion.rs`, `src/arrival.rs`: the motion preference under the OS
  reduce-motion signal, and the arrival roster of animated lists.
- `src/thinking.rs`, `src/code_block.rs`, `src/fence.rs`, `src/surface.rs`,
  `src/scrolling.rs`: reasoning traces, code blocks and their markdown
  fences, badge initials, and the scrollbar policy.
- `src/text.rs`: character-level helpers shared by the parsers.
- `app/`: the GPUI-facing layer — pixel geometry, easing curves, clocks,
  and the conversions into upstream's types.

Run the proofs with Verus on `src/lib.rs`; the tests under `tests/` run with
cargo.
