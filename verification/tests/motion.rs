use gpui_ai::arrival::{ArrivalRoster, STAGGER_PARTICIPANTS};
use gpui_ai::motion::{
    motion_is_full, resolve_preference, same_key, AmbientLoopSpec, MotionKey, MotionPreference,
    RevealFrameRequests,
};

fn all_live(roster: &ArrivalRoster) -> Vec<bool> {
    vec![true; roster.clock_count()]
}

fn integers(range: std::ops::Range<u64>) -> Vec<MotionKey> {
    range.map(MotionKey::Integer).collect()
}

#[test]
fn arrival_roster_retires_removed_identities() {
    let mut roster = ArrivalRoster::new();
    for id in 0..1_000 {
        let live = all_live(&roster);
        roster.note(&vec![MotionKey::Integer(id)], true, &live);
        assert!(
            roster.seen_count() <= 1 && roster.clock_count() <= 1,
            "a one-item surface must not retain the history of removed items"
        );
    }
}

#[test]
fn arrival_roster_caps_overlapping_batches_and_retires_settled_clocks() {
    let mut roster = ArrivalRoster::new();
    roster.note(&Vec::new(), true, &Vec::new());
    let live = all_live(&roster);
    roster.note(&integers(0..1_000), true, &live);
    assert_eq!(roster.clock_count(), STAGGER_PARTICIPANTS);
    let live = all_live(&roster);
    roster.note(&integers(0..2_000), true, &live);
    assert_eq!(roster.clock_count(), STAGGER_PARTICIPANTS);
    let settled = vec![false; roster.clock_count()];
    roster.note(&integers(0..2_000), true, &settled);
    assert_eq!(roster.clock_count(), 0, "settled clocks must be retired");
}

#[test]
fn the_first_roll_call_is_history() {
    let mut roster = ArrivalRoster::new();
    let batch = roster.note(&integers(0..3), true, &Vec::new());
    assert!(batch.is_empty());
    assert_eq!(roster.seen_count(), 3);
    assert_eq!(roster.clock_count(), 0);
    let live = all_live(&roster);
    let batch = roster.note(&integers(0..5), true, &live);
    assert_eq!(batch, integers(3..5));
    assert!(roster.has_clock(&MotionKey::Integer(4)));
    assert!(!roster.has_clock(&MotionKey::Integer(0)));
}

#[test]
fn a_batch_is_capped_and_keeps_roll_call_order() {
    let mut roster = ArrivalRoster::new();
    roster.note(&Vec::new(), true, &Vec::new());
    let keys = vec![
        MotionKey::Name("b".to_owned()),
        MotionKey::Name("a".to_owned()),
        MotionKey::Name("b".to_owned()),
        MotionKey::NamedInteger("row".to_owned(), 1),
    ];
    let batch = roster.note(&keys, true, &Vec::new());
    assert_eq!(
        batch,
        vec![
            MotionKey::Name("b".to_owned()),
            MotionKey::Name("a".to_owned()),
            MotionKey::NamedInteger("row".to_owned(), 1),
        ]
    );
    assert_eq!(roster.seen_count(), 3);
}

#[test]
fn without_assignment_no_clock_starts_or_survives() {
    let mut roster = ArrivalRoster::new();
    roster.note(&Vec::new(), true, &Vec::new());
    roster.note(&integers(0..2), true, &Vec::new());
    assert_eq!(roster.clock_count(), 2);
    let live = all_live(&roster);
    let batch = roster.note(&integers(0..4), false, &live);
    assert!(batch.is_empty());
    assert_eq!(roster.clock_count(), 0);
    assert_eq!(roster.seen_count(), 4);
}

#[test]
fn retiring_a_clock_keeps_the_others() {
    let mut roster = ArrivalRoster::new();
    roster.note(&Vec::new(), true, &Vec::new());
    roster.note(&integers(0..3), true, &Vec::new());
    roster.retire(&MotionKey::Integer(1));
    assert_eq!(roster.clock_count(), 2);
    assert!(!roster.has_clock(&MotionKey::Integer(1)));
    assert!(roster.has_clock(&MotionKey::Integer(2)));
    assert_eq!(roster.seen_count(), 3);
}

#[test]
fn reduced_motion_floors_the_policy_at_crossfade() {
    assert_eq!(
        resolve_preference(MotionPreference::Full, true),
        MotionPreference::Crossfade
    );
    assert_eq!(
        resolve_preference(MotionPreference::Crossfade, true),
        MotionPreference::Crossfade
    );
    assert_eq!(
        resolve_preference(MotionPreference::Snap, true),
        MotionPreference::Snap
    );
    for policy in [
        MotionPreference::Full,
        MotionPreference::Crossfade,
        MotionPreference::Snap,
    ] {
        assert_eq!(resolve_preference(policy, false), policy);
        assert!(resolve_preference(policy, true) >= policy);
        assert!(resolve_preference(policy, true) >= MotionPreference::Crossfade);
    }
}

#[test]
fn only_full_motion_is_full() {
    assert_eq!(MotionPreference::default(), MotionPreference::Full);
    assert!(motion_is_full(MotionPreference::Full));
    assert!(!motion_is_full(MotionPreference::Crossfade));
    assert!(!motion_is_full(MotionPreference::Snap));
    assert!(MotionPreference::Full < MotionPreference::Crossfade);
    assert!(MotionPreference::Crossfade < MotionPreference::Snap);
}

#[test]
fn ambient_loops_report_whole_milliseconds() {
    assert_eq!(AmbientLoopSpec::breathing().period_millis(), 1600);
    assert_eq!(AmbientLoopSpec::orb_lattice().period_millis(), 1700);
    assert_eq!(AmbientLoopSpec { period_ms: 42 }.period_millis(), 42);
}

#[test]
fn frame_requests_are_taken_and_reset() {
    let mut tally = RevealFrameRequests::new();
    assert_eq!(tally.take_reveal_frame_requests(), 0);
    tally.note_reveal_frame_request();
    tally.note_reveal_frame_request();
    tally.note_reveal_frame_request();
    assert_eq!(tally.take_reveal_frame_requests(), 3);
    assert_eq!(tally.take_reveal_frame_requests(), 0);
}

#[test]
fn keys_compare_by_variant_and_contents() {
    let a = MotionKey::NamedInteger("t-step-arrive".to_owned(), 2);
    assert!(same_key(&a, &MotionKey::NamedInteger("t-step-arrive".to_owned(), 2)));
    assert!(!same_key(&a, &MotionKey::NamedInteger("t-step-arrive".to_owned(), 3)));
    assert!(!same_key(&MotionKey::Integer(2), &MotionKey::NamedInteger(String::new(), 2)));
    assert!(same_key(&MotionKey::Name("x".to_owned()), &MotionKey::Name("x".to_owned())));
}

fn names(list: &[&str]) -> Vec<MotionKey> {
    list.iter()
        .map(|name| MotionKey::Name(format!("step-{name}")))
        .collect()
}

fn key(name: &str) -> MotionKey {
    MotionKey::Name(format!("step-{name}"))
}

#[test]
fn arrival_delays_belong_to_fresh_followed_identities_only() {
    let mut roster = ArrivalRoster::new();

    // The first roll call is history: seen, at rest.
    roster.note(&names(&["a", "b"]), true, &Vec::new());
    assert!(!roster.has_clock(&key("a")));
    assert!(!roster.has_clock(&key("b")));

    // One appended identity is a batch of one.
    let live = all_live(&roster);
    let batch = roster.note(&names(&["a", "b", "c"]), true, &live);
    assert_eq!(batch, names(&["c"]));

    // A three-identity batch cascades in roll-call order, and the earlier
    // batch keeps its clock while it plays.
    let live = all_live(&roster);
    let batch = roster.note(&names(&["a", "b", "c", "d", "e", "f"]), true, &live);
    assert_eq!(batch, names(&["d", "e", "f"]));
    let live = all_live(&roster);
    roster.note(&names(&["a", "b", "c", "d", "e", "f", "g"]), true, &live);
    for name in ["c", "d", "e", "f", "g"] {
        assert!(roster.has_clock(&key(name)), "{name} keeps its clock");
    }

    // An identity that arrives while the reader is away from the tail
    // appears at rest when they return.
    let live = all_live(&roster);
    roster.note(&names(&["a", "b", "c", "d", "e", "f", "g", "h"]), false, &live);
    assert!(!roster.has_clock(&key("h")));

    // So does one that lands under the body's own fade-in.
    let live = all_live(&roster);
    roster.note(
        &names(&["a", "b", "c", "d", "e", "f", "g", "h", "i"]),
        false,
        &live,
    );
    assert!(!roster.has_clock(&key("i")));
}

#[test]
fn stagger_steps_cap_at_the_bound() {
    assert_eq!(gpui_ai::motion::stagger_steps(0, 12), 0);
    assert_eq!(gpui_ai::motion::stagger_steps(5, 12), 5);
    assert_eq!(gpui_ai::motion::stagger_steps(100, 12), 12);
}
