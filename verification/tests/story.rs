use gpui_ai::story::{Lineage, StoryId};

#[test]
fn dock_composition_is_addressable_but_not_a_catalog_component() {
    assert_eq!(StoryId::DockComposition.slug(), "dock-composition");
    assert_eq!(StoryId::DockComposition.title(), "Dock composition");
    assert_eq!(
        "dock-composition".parse::<StoryId>(),
        Ok(StoryId::DockComposition)
    );
    // It documents interoperability, not a component, so the catalog and
    // the website must not list or size it.
    assert!(!StoryId::ALL.contains(&StoryId::DockComposition));
    assert!(StoryId::DockComposition.meta().is_none());
    assert!(StoryId::DockComposition.variants().is_empty());
}

#[test]
fn the_motion_lab_is_addressable_but_not_a_catalog_component() {
    assert_eq!(StoryId::MotionLab.slug(), "motion-lab");
    assert_eq!(StoryId::MotionLab.title(), "Motion lab");
    assert_eq!("motion-lab".parse::<StoryId>(), Ok(StoryId::MotionLab));
    // It is an instrument for tuning the motion policy, not a component,
    // so the catalog and the website must not list or size it.
    assert!(!StoryId::ALL.contains(&StoryId::MotionLab));
    assert!(StoryId::MotionLab.meta().is_none());
    assert!(StoryId::MotionLab.variants().is_empty());
}

#[test]
fn every_component_story_carries_catalog_metadata() {
    for story in StoryId::ALL {
        let meta = story
            .meta()
            .unwrap_or_else(|| panic!("{} has no catalog metadata", story.slug()));
        assert!(
            !meta.category.is_empty(),
            "{} has no category",
            story.slug()
        );
        assert!(
            meta.summary.len() > 20,
            "{} needs a real summary, not a label",
            story.slug()
        );
        assert!(!story.title().is_empty());
        assert!(
            meta.module
                .chars()
                .all(|c| c.is_ascii_lowercase() || c == '_'),
            "{} points at a module path that is not snake_case",
            story.slug()
        );
    }
    assert!(
        StoryId::All.meta().is_none(),
        "the whole-catalog view is not a component"
    );
}

#[test]
fn story_variants_are_unique_and_labelled() {
    for story in StoryId::ALL {
        let variants = story.variants();
        let mut ids: Vec<&str> = variants.iter().map(|(id, _)| *id).collect();
        let total = ids.len();
        ids.sort_unstable();
        ids.dedup();
        assert_eq!(ids.len(), total, "{} repeats a variant id", story.slug());

        for (id, label) in variants {
            assert!(
                id.chars()
                    .all(|c| c.is_ascii_lowercase() || c.is_ascii_digit() || c == '-'),
                "{} has variant id {id}, which is not a slug",
                story.slug()
            );
            assert!(
                !label.is_empty(),
                "{} has an unlabelled variant",
                story.slug()
            );
        }
    }

    // The stories with a switcher must actually report their states.
    assert_eq!(StoryId::Chat.variants().len(), 2);
    assert_eq!(
        StoryId::FilterTable.variants(),
        StoryId::RecordsTable.variants(),
        "the table stories share one switcher"
    );
    assert!(StoryId::Loading.variants().is_empty());
}

#[test]
fn every_story_round_trips_through_its_slug() {
    let everything = [
        StoryId::All,
        StoryId::GuidedDemo,
        StoryId::Decorations,
        StoryId::ThemesTrio,
        StoryId::DockComposition,
        StoryId::MotionLab,
    ];
    for story in StoryId::ALL.iter().chain(everything.iter()) {
        assert_eq!(StoryId::from_slug(story.slug()), Ok(*story));
        assert_eq!(story.slug().parse::<StoryId>(), Ok(*story));
    }
}

#[test]
fn an_unknown_slug_is_reported_with_the_slug() {
    let err = StoryId::from_slug("no-such-story").unwrap_err();
    assert_eq!(err.slug(), "no-such-story");
    assert_eq!(err.message(), "unknown story: no-such-story");
    assert!("Loading".parse::<StoryId>().is_err());
    assert!("".parse::<StoryId>().is_err());
}

#[test]
fn the_catalog_lists_each_component_once() {
    let mut slugs: Vec<&str> = StoryId::ALL.iter().map(|s| s.slug()).collect();
    let total = slugs.len();
    slugs.sort_unstable();
    slugs.dedup();
    assert_eq!(slugs.len(), total);
    for story in StoryId::ALL {
        assert!(story.meta().is_some());
    }
}

#[test]
fn loading_metadata_is_the_catalog_entry() {
    let meta = StoryId::Loading.meta().unwrap();
    assert_eq!(meta.category, "Progress");
    assert_eq!(meta.module, "loading");
    assert_eq!(meta.api, "LoadingState");
    assert_eq!(meta.lineage, Lineage::New);
    assert_eq!(meta.lineage_basis, "");
    assert_eq!(meta.height, 52);
    assert_eq!(StoryId::Loading.slug(), "loading");
}

#[test]
fn new_lineage_has_no_basis_and_others_do() {
    for story in StoryId::ALL {
        let meta = story.meta().unwrap();
        assert_eq!(meta.lineage == Lineage::New, meta.lineage_basis.is_empty());
        assert!(meta.height > 0);
        assert!(!meta.lineage.id().is_empty());
        assert!(!meta.lineage.label().is_empty());
    }
}

#[test]
fn slugs_are_lowercase_routes_and_labels_capitalise_ids() {
    let everything = [
        StoryId::All,
        StoryId::GuidedDemo,
        StoryId::Decorations,
        StoryId::ThemesTrio,
        StoryId::DockComposition,
        StoryId::MotionLab,
    ];
    for story in StoryId::ALL.iter().chain(everything.iter()) {
        let slug = story.slug();
        assert!(!slug.is_empty());
        assert!(slug.chars().all(|c| c.is_ascii_lowercase() || c == '-'), "{slug}");
    }
    for lineage in [Lineage::New, Lineage::Extends, Lineage::Composes] {
        assert_eq!(lineage.label().to_ascii_lowercase(), lineage.id());
        assert!(lineage.label().chars().next().unwrap().is_ascii_uppercase());
    }
    assert_eq!(Lineage::Extends.label(), "Extends");
}
