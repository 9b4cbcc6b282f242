use bread_bot::command::{plan_command, CommandOption, OptionValue};

fn opt(name: &str, value: OptionValue) -> CommandOption {
    CommandOption { name: name.to_string(), value }
}

#[test]
fn unknown_command_is_not_implemented() {
    let r = plan_command("ping", Some(1), &[], 0);
    assert!(r.target.is_none());
    assert_eq!(r.content, "not implemented :(");
}

#[test]
fn target_user_command_builds_rule() {
    let options = vec![
        opt("user", OptionValue::User(42)),
        opt("emotes", OptionValue::Text("\u{1F35E}".to_string())),
        opt("duration", OptionValue::Integer(30)),
        opt("colour", OptionValue::Text("red".to_string())),
    ];
    let r = plan_command("target_user", Some(9), &options, 1000);
    assert_eq!(r.content, "Target added");
    let t = r.target.unwrap();
    assert_eq!(t.get_guild(), 9);
    assert_eq!(t.get_user(), Some(42));
    assert_eq!(t.get_expiration(), 2800);
    assert_eq!(t.get_emotes(), &["\u{1F35E}".to_string()][..]);
}

#[test]
fn command_without_user_or_regex() {
    let options = vec![opt("emotes", OptionValue::Text("x".to_string()))];
    let r = plan_command("target_regex", Some(9), &options, 0);
    assert!(r.target.is_none());
    assert_eq!(r.content, "Need either a user or a regex or both... bitch");
}

#[test]
fn command_with_bad_regex() {
    let options = vec![
        opt("regex", OptionValue::Text("a(".to_string())),
        opt("emotes", OptionValue::Text("x".to_string())),
        opt("duration", OptionValue::Integer(5)),
    ];
    let r = plan_command("target_regex", Some(9), &options, 0);
    assert!(r.target.is_none());
    assert!(r.content.starts_with("Your regex game is weak"));
}

#[test]
fn command_missing_duration_and_guild() {
    let options = vec![
        opt("regex", OptionValue::Text("a".to_string())),
        opt("emotes", OptionValue::Text("x".to_string())),
        opt("duration", OptionValue::Integer(-5)),
    ];
    let r = plan_command("target_regex", Some(9), &options, 0);
    assert_eq!(r.content, "No Expiration provided");
    let r = plan_command("target_regex", None, &options, 0);
    assert_eq!(r.content, "No Guild provided");
}
