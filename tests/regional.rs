use bread_bot::regional::{
    convert_to_regional_codes, prepare_emotes, regional_indicator, RegionalCodeError,
};

#[test]
fn letters_become_indicators() {
    let out = convert_to_regional_codes("Bread").ok().unwrap();
    assert_eq!(out, "\u{1F1E7}\u{1F1F7}\u{1F1EA}\u{1F1E6}\u{1F1E9}");
}

#[test]
fn empty_word_spells_nothing() {
    assert_eq!(convert_to_regional_codes("").ok().unwrap(), "");
}

#[test]
fn repeated_letter_is_refused() {
    assert!(matches!(
        convert_to_regional_codes("foO"),
        Err(RegionalCodeError::DuplicateLetter)
    ));
}

#[test]
fn first_non_letter_is_named() {
    assert!(matches!(
        convert_to_regional_codes("a b1"),
        Err(RegionalCodeError::NotALetter(' '))
    ));
    assert!(matches!(
        convert_to_regional_codes("aa1"),
        Err(RegionalCodeError::NotALetter('1'))
    ));
}

#[test]
fn indicator_table_ends() {
    assert_eq!(regional_indicator('a'), Some('\u{1F1E6}'));
    assert_eq!(regional_indicator('Z'), Some('\u{1F1FF}'));
    assert_eq!(regional_indicator('!'), None);
}

#[test]
fn non_ascii_emotes_pass_through() {
    assert_eq!(prepare_emotes("\u{1F44D}\u{1F44B}").ok().unwrap(), "\u{1F44D}\u{1F44B}");
    assert_eq!(prepare_emotes("hi").ok().unwrap(), "\u{1F1ED}\u{1F1EE}");
}
