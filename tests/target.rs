use bread_bot::target::{Target, TargetBuilder, TargetBuilderError};

fn empty_field(r: Result<Target, TargetBuilderError>) -> String {
    match r {
        Err(TargetBuilderError::EmptyField(s)) => s,
        _ => panic!("expected a missing field"),
    }
}

#[test]
fn nothing_set_is_missing_user_and_regex() {
    assert!(matches!(
        Target::builder().build(),
        Err(TargetBuilderError::MissingUserAndRegex)
    ));
    assert!(matches!(
        TargetBuilder::default().set_emotes("x").build(),
        Err(TargetBuilderError::MissingUserAndRegex)
    ));
}

#[test]
fn guild_is_checked_before_emotes_and_expiration() {
    let r = Target::builder().set_user(7).build();
    assert_eq!(empty_field(r), "No Guild provided");
    let r = Target::builder().set_regex("(").set_guild(1).build();
    assert_eq!(empty_field(r), "No Emotes provided");
    let r = Target::builder().set_regex("(").set_guild(1).set_emotes("").build();
    assert_eq!(empty_field(r), "No Emotes provided");
    let r = Target::builder().set_regex("(").set_guild(1).set_emotes("x").build();
    assert_eq!(empty_field(r), "No Expiration provided");
}

#[test]
fn bad_pattern_is_checked_last() {
    let r = Target::builder()
        .set_regex("foo(bar")
        .set_guild(1)
        .set_emotes("x")
        .set_expiration_at(100, 1)
        .build();
    match r {
        Err(e) => {
            assert!(matches!(e, TargetBuilderError::BadRegex(_)));
            assert_eq!(e.message(), "Regex was invalid");
        }
        Ok(_) => panic!("pattern should not compile"),
    }
}

#[test]
fn built_target_keeps_fields_and_splits_emotes() {
    let t = Target::builder()
        .set_guild(11)
        .set_user(22)
        .set_emotes("\u{1F44D}\u{1F1EB}\u{1F1F7}a")
        .set_expiration_at(1000, 2)
        .set_regex("hel+o")
        .build()
        .ok()
        .unwrap();
    assert_eq!(t.get_guild(), 11);
    assert_eq!(t.get_user(), Some(22));
    assert_eq!(t.get_expiration(), 1120);
    assert_eq!(t.get_regex().map(|s| s.as_str()), Some("hel+o"));
    assert_eq!(
        t.get_emotes(),
        &[
            "\u{1F44D}".to_string(),
            "\u{1F1EB}\u{1F1F7}".to_string(),
            "a".to_string()
        ][..]
    );
}

#[test]
fn expiration_overflow_leaves_it_unset() {
    let r = Target::builder()
        .set_user(1)
        .set_guild(1)
        .set_emotes("x")
        .set_expiration_at(u64::MAX - 10, 1)
        .build();
    assert_eq!(empty_field(r), "No Expiration provided");
    let r = Target::builder()
        .set_user(1)
        .set_guild(1)
        .set_emotes("x")
        .set_expiration_at(5, 3)
        .set_expiration_at(0, u64::MAX)
        .build();
    assert_eq!(r.ok().unwrap().get_expiration(), 185);
}

#[test]
fn expiration_from_clock_is_in_the_future() {
    let t = Target::builder()
        .set_user(1)
        .set_guild(1)
        .set_emotes("x")
        .set_expiration(10)
        .build()
        .ok()
        .unwrap();
    assert!(t.get_expiration() >= 600);
    assert_eq!(t.get_user(), Some(1));
    assert_eq!(t.get_regex(), None);
}

#[test]
fn error_messages() {
    assert_eq!(
        TargetBuilderError::MissingUserAndRegex.message(),
        "Missing argument"
    );
    assert_eq!(
        TargetBuilderError::EmptyField("No Guild provided".to_string()).message(),
        "No Guild provided"
    );
}

#[test]
fn cloned_builder_builds_the_same() {
    let b = Target::builder().set_guild(3).set_regex("a").set_emotes("b");
    let c = b.clone().set_expiration_at(0, 1);
    let t = c.build().ok().unwrap();
    assert_eq!(t.get_guild(), 3);
    assert_eq!(t.get_user(), None);
    assert_eq!(empty_field(b.build()), "No Expiration provided");
}
