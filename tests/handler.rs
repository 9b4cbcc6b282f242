use bread_bot::action::Action;
use bread_bot::handler::Handler;

const G: u64 = 100;
const U1: u64 = 1;
const U2: u64 = 2;

fn rule(id: i64, user: Option<u64>, regex: Option<&str>, reactions: &[&str], expiration: Option<u64>) -> Action {
    Action {
        id,
        guild_id: G,
        user_id: user,
        regex: regex.map(|r| r.to_string()),
        reactions: reactions.iter().map(|s| s.to_string()).collect(),
        expiration,
    }
}

fn reactions(h: &mut Handler, rules: &[Action], user: u64, text: &str, now: u64) -> Vec<String> {
    h.message(rules, G, user, text, now).reactions.as_list().to_vec()
}

#[test]
fn spelling_accumulates() {
    let mut h = Handler::new();
    assert_eq!(h.check_column("f", G, U1), None);
    assert_eq!(h.check_column("o", G, U1), Some("fo".to_string()));
    assert_eq!(h.check_column("o", G, U1), Some("foo".to_string()));
}

#[test]
fn interjection_resets_spelling() {
    let mut h = Handler::new();
    assert_eq!(h.check_column("f", G, U1), None);
    assert_eq!(h.check_column("x", G, U2), None);
    assert_eq!(h.check_column("o", G, U1), None);
    assert_eq!(h.check_column("o", G, U1), Some("oo".to_string()));
}

#[test]
fn longer_message_clears_spelling() {
    let mut h = Handler::new();
    assert_eq!(h.check_column("f", G, U1), None);
    assert_eq!(h.check_column("hello", G, U1), None);
    assert_eq!(h.check_column("o", G, U1), None);
    assert_eq!(h.check_column("\u{1F1EB}\u{1F1F7}", G, U1), Some("o\u{1F1EB}\u{1F1F7}".to_string()));
}

#[test]
fn guilds_spell_apart() {
    let mut h = Handler::new();
    assert_eq!(h.check_column("a", G, U1), None);
    assert_eq!(h.check_column("b", G + 1, U1), None);
    assert_eq!(h.check_column("c", G, U1), Some("ac".to_string()));
}

#[test]
fn scope_filtering_end_to_end() {
    let rules = vec![
        rule(1, Some(U1), None, &["\u{1F44D}"], None),
        rule(2, None, Some("hello"), &["\u{1F44B}"], None),
    ];
    let mut h = Handler::new();
    assert_eq!(
        reactions(&mut h, &rules, U1, "hello there", 10),
        vec!["\u{1F44D}".to_string(), "\u{1F44B}".to_string()]
    );
    assert_eq!(reactions(&mut h, &rules, U2, "hello there", 10), vec!["\u{1F44B}".to_string()]);
    assert_eq!(reactions(&mut h, &rules, U1, "goodbye", 10), vec!["\u{1F44D}".to_string()]);
}

#[test]
fn other_guild_rules_do_not_apply() {
    let mut r = rule(1, None, None, &["x"], None);
    r.guild_id = G + 1;
    let mut h = Handler::new();
    assert!(reactions(&mut h, &[r], U1, "hi", 0).is_empty());
}

#[test]
fn expiration_boundary_end_to_end() {
    let t = 5000;
    let rules = vec![rule(9, None, None, &["\u{23F0}"], Some(t))];
    let mut h = Handler::new();
    let at_t = h.message(&rules, G, U1, "now", t);
    assert_eq!(at_t.reactions.as_list(), &["\u{23F0}".to_string()][..]);
    assert!(at_t.expired.is_empty());
    let later = h.message(&rules, G, U1, "now", t + 1);
    assert!(later.reactions.as_list().is_empty());
    assert_eq!(later.expired, vec![9]);
}

#[test]
fn spelled_word_matches_and_is_used_up() {
    let rules = vec![rule(1, None, Some("^foo$"), &["\u{1F6AB}"], None)];
    let mut h = Handler::new();
    assert!(reactions(&mut h, &rules, U1, "f", 0).is_empty());
    assert!(reactions(&mut h, &rules, U1, "o", 0).is_empty());
    assert_eq!(reactions(&mut h, &rules, U1, "o", 0), vec!["\u{1F6AB}".to_string()]);
    assert_eq!(h.check_column("o", G, U1), None);
}

#[test]
fn broken_stored_pattern_is_skipped() {
    let rules = vec![
        rule(1, None, Some("(("), &["a"], None),
        rule(2, None, None, &["b"], None),
    ];
    let mut h = Handler::new();
    assert_eq!(reactions(&mut h, &rules, U1, "((", 0), vec!["b".to_string()]);
}

#[test]
fn first_rule_wins_on_shared_reactions() {
    let rules = vec![
        rule(1, None, None, &["a", "b"], None),
        rule(2, None, None, &["b", "c"], None),
        rule(3, None, None, &["c"], Some(0)),
    ];
    let mut h = Handler::new();
    let plan = h.message(&rules, G, U1, "text", 1);
    assert_eq!(plan.reactions.as_list(), &["a".to_string(), "b".to_string()][..]);
    assert_eq!(plan.expired, vec![3]);
}

#[test]
fn rule_activity_predicates() {
    let r = rule(4, Some(U1), None, &["a"], Some(50));
    assert!(r.is_active(G, U1, 50));
    assert!(!r.is_active(G, U2, 50));
    assert!(!r.is_active(G, U1, 51));
    assert!(!r.is_expired(50));
    assert!(r.is_expired(51));
}
