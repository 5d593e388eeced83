use moonracer::loader::{
    chars_eq, classify_label, parse_usize, sort_vec, split_pos, starts_with, LabelKind,
};

#[test]
fn split_pos_splits_at_first_dash() {
    assert_eq!(split_pos("goal-3"), Some(("goal", 3)));
    assert_eq!(split_pos("wall-12"), Some(("wall", 12)));
    assert_eq!(split_pos("-5"), Some(("", 5)));
    // The split is at the first dash; "b-2" is not a number.
    assert_eq!(split_pos("a-b-2"), None);
}

#[test]
fn split_pos_rejects_malformed_labels() {
    assert_eq!(split_pos("name"), None);
    assert_eq!(split_pos(""), None);
    assert_eq!(split_pos("goal-"), None);
    assert_eq!(split_pos("goal-x"), None);
    assert_eq!(split_pos("goal-1x"), None);
    assert_eq!(split_pos("goal--1"), None);
}

#[test]
fn split_pos_accepts_a_leading_plus() {
    assert_eq!(split_pos("g-+7"), Some(("g", 7)));
    assert_eq!(split_pos("g-+"), None);
    assert_eq!(split_pos("g-++1"), None);
}

#[test]
fn split_pos_checks_for_overflow() {
    assert_eq!(split_pos("g-18446744073709551615"), Some(("g", usize::MAX)));
    assert_eq!(split_pos("g-18446744073709551616"), None);
}

#[test]
fn parse_usize_handles_zeros_and_empties() {
    assert_eq!(parse_usize("0"), Some(0));
    assert_eq!(parse_usize("007"), Some(7));
    assert_eq!(parse_usize(""), None);
    assert_eq!(parse_usize("+"), None);
    assert_eq!(parse_usize("12 "), None);
}

#[test]
fn sort_vec_orders_by_index() {
    let v = vec![(2usize, "b"), (1, "a"), (3, "c")];
    assert_eq!(sort_vec(v), vec!["a", "b", "c"]);
}

#[test]
fn sort_vec_is_stable_on_equal_indices() {
    let v = vec![(1usize, "x"), (0, "z"), (1, "y")];
    assert_eq!(sort_vec(v), vec!["z", "x", "y"]);
    let empty: Vec<(usize, i32)> = vec![];
    assert_eq!(sort_vec(empty), Vec::<i32>::new());
}

#[test]
fn classify_label_covers_the_grammar() {
    assert_eq!(classify_label("wall-1"), LabelKind::Wall);
    assert_eq!(classify_label("wall-"), LabelKind::Wall);
    assert_eq!(classify_label("launch-pad"), LabelKind::LaunchPad);
    assert_eq!(classify_label("goal-2"), LabelKind::Goal(2));
    assert_eq!(classify_label("name"), LabelKind::LevelName);
    assert_eq!(classify_label("Screen"), LabelKind::ScreenBox);
    assert_eq!(classify_label("goal-x"), LabelKind::Unknown);
    assert_eq!(classify_label("pad"), LabelKind::Unknown);
    assert_eq!(classify_label(""), LabelKind::Unknown);
}

#[test]
fn string_helpers_compare_characters() {
    assert!(chars_eq("goal", "goal"));
    assert!(!chars_eq("goal", "goals"));
    assert!(!chars_eq("goal", "goal "));
    assert!(starts_with("wall-3", "wall-"));
    assert!(!starts_with("wal", "wall-"));
    assert!(starts_with("anything", ""));
}
