use gpui_ai::code_block::CodeBlock;
use gpui_ai::surface::initial_of;

#[test]
fn the_initial_is_the_first_alphanumeric_uppercased() {
    assert_eq!(initial_of("alice"), "A");
    assert_eq!(initial_of("  @bob"), "B");
    assert_eq!(initial_of("42 things"), "4");
    assert_eq!(initial_of("Zed"), "Z");
    assert_eq!(initial_of("élan"), "É");
    assert_eq!(initial_of("ßtraße"), "SS");
}

#[test]
fn text_without_alphanumerics_gets_a_bullet() {
    assert_eq!(initial_of(""), "•");
    assert_eq!(initial_of("  -- !"), "•");
}

#[test]
fn maps_all_shared_lifecycle_states() {
    assert!(!CodeBlock::streamed("pending", "code", false, None).is_streaming());
    assert!(CodeBlock::streamed("running", "code", true, None).is_streaming());
    assert!(CodeBlock::streamed("complete", "code", false, None)
        .failure()
        .is_none());
    assert_eq!(
        CodeBlock::streamed("failed", "code", false, Some("stopped")).failure(),
        Some("stopped")
    );
}

#[test]
fn code_blocks_fence_their_code_past_every_backtick_run() {
    let block = CodeBlock::new("example", "fn main() {\n    println!(\"hi\");\n}").language("rust");
    assert_eq!(
        block.markdown_source(),
        "```rust\nfn main() {\n    println!(\"hi\");\n}\n```"
    );
    assert_eq!(block.accessibility_label(), "rust code");
    let nested = CodeBlock::new("md", "````\ninner\n````");
    assert_eq!(nested.language_name(), "text");
    assert_eq!(nested.markdown_source(), "`````text\n````\ninner\n````\n`````");
    assert_eq!(nested.accessibility_label(), "text code");
}

#[test]
fn a_streaming_block_ends_with_the_cursor() {
    let block = CodeBlock::streamed("s", "let x", true, None);
    assert_eq!(block.markdown_source(), "```text\nlet x▌\n```");
    let empty = CodeBlock::new("e", "");
    assert_eq!(empty.markdown_source(), "```text\n\n```");
}

#[test]
fn code_block_builders() {
    let block = CodeBlock::new("id", "x").not_copyable();
    assert!(!block.is_copyable());
    assert!(CodeBlock::new("id", "x").is_copyable());
    assert_eq!(block.id(), "id");
    assert_eq!(block.code(), "x");
    assert!(!block.is_streaming());
}
