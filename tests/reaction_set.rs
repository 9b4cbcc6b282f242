use bread_bot::reaction_set::ReactionSet;

fn strings(items: &[&str]) -> Vec<String> {
    items.iter().map(|s| s.to_string()).collect()
}

#[test]
fn empty_test() {
    let set = ReactionSet::new();
    let ret: &[String] = set.as_list();
    assert_eq!(ret.concat(), "");
}

#[test]
fn identity() {
    let mut set = ReactionSet::new();
    set.add_reactions(&["a".to_string(), "b".to_string(), "c".to_string()]);
    assert_eq!(set.as_list().concat(), "abc");
}

#[test]
fn no_duplicates() {
    let mut set = ReactionSet::new();
    set.add_reactions(&["a".to_string()]);
    set.add_reactions(&["a".to_string()]);
    assert_eq!(set.as_list().concat(), "a");
}

#[test]
fn order_is_kept_token_by_token() {
    let mut set = ReactionSet::new();
    set.add_reactions(&strings(&["a", "b", "c"]));
    assert_eq!(set.as_list(), &strings(&["a", "b", "c"])[..]);
}

#[test]
fn repeated_batch_changes_nothing() {
    let mut set = ReactionSet::new();
    set.add_reactions(&strings(&["x", "y"]));
    set.add_reactions(&strings(&["z"]));
    set.add_reactions(&strings(&["x", "y"]));
    assert_eq!(set.as_list(), &strings(&["x", "y", "z"])[..]);
}

#[test]
fn overlapping_batch_is_refused_whole() {
    let mut set = ReactionSet::new();
    set.add_reactions(&strings(&["a", "b"]));
    set.add_reactions(&strings(&["b", "c"]));
    set.add_reactions(&strings(&["d", "e"]));
    assert_eq!(set.as_list(), &strings(&["a", "b", "d", "e"])[..]);
}

#[test]
fn batch_repeating_a_token_lists_it_once() {
    let mut set = ReactionSet::new();
    set.add_reactions(&strings(&["a", "b", "a"]));
    assert_eq!(set.as_list(), &strings(&["a", "b"])[..]);
}

#[test]
fn empty_batch_changes_nothing() {
    let mut set = ReactionSet::new();
    set.add_reactions(&strings(&["a"]));
    set.add_reactions(&[]);
    assert_eq!(set.as_list(), &strings(&["a"])[..]);
}

#[test]
fn flag_from_two_indicators_is_one_token() {
    let mut set = ReactionSet::new();
    set.add_reactions(&strings(&["\u{1F1EB}", "\u{1F1F7}"]));
    assert_eq!(set.as_list(), &strings(&["\u{1F1EB}\u{1F1F7}"])[..]);
    set.add_reactions(&strings(&["\u{1F1EB}\u{1F1F7}"]));
    assert_eq!(set.as_list().len(), 1);
    set.add_reactions(&strings(&["\u{1F1EB}", "a"]));
    assert_eq!(
        set.as_list(),
        &strings(&["\u{1F1EB}\u{1F1F7}", "\u{1F1EB}", "a"])[..]
    );
}

#[test]
fn default_set_is_empty() {
    let set = ReactionSet::default();
    assert!(set.as_list().is_empty());
}
