use gpui_ai::scrolling::{ScrollbarPlacement, ScrollbarTokens, ScrollbarVisibility};

#[test]
fn the_default_policy_is_always_visible_and_overlaid() {
    let tokens = ScrollbarTokens::default();
    assert_eq!(tokens.visibility(), ScrollbarVisibility::Always);
    assert_eq!(tokens.placement(), ScrollbarPlacement::Overlay);
    assert_eq!(ScrollbarVisibility::default(), ScrollbarVisibility::Always);
    assert_eq!(ScrollbarPlacement::default(), ScrollbarPlacement::Overlay);
}

#[test]
fn builders_replace_one_setting_each() {
    let tokens = ScrollbarTokens::default().with_visibility(ScrollbarVisibility::Scrolling);
    assert_eq!(tokens.visibility(), ScrollbarVisibility::Scrolling);
    assert_eq!(tokens.placement(), ScrollbarPlacement::Overlay);
    let tokens = tokens.with_placement(ScrollbarPlacement::Gutter);
    assert_eq!(tokens.visibility(), ScrollbarVisibility::Scrolling);
    assert_eq!(tokens.placement(), ScrollbarPlacement::Gutter);
    let hover = ScrollbarTokens::default()
        .with_placement(ScrollbarPlacement::Gutter)
        .with_visibility(ScrollbarVisibility::Hover);
    assert_eq!(
        hover,
        ScrollbarTokens::default()
            .with_visibility(ScrollbarVisibility::Hover)
            .with_placement(ScrollbarPlacement::Gutter)
    );
}
