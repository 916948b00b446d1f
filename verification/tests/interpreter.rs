use dnd_index::commands::{is_supported_lang, read_first_char, split_list, Command};

#[test]
fn eng_with_argument_parses_to_lookup() {
    match Command::analyze_command("/eng sword of light") {
        Command::Eng(item) => assert_eq!(item, "sword of light"),
        _ => panic!("expected an English lookup"),
    }
}

#[test]
fn ita_with_argument_parses_to_lookup() {
    match Command::analyze_command("/ita spada") {
        Command::Ita(item) => assert_eq!(item, "spada"),
        _ => panic!("expected an Italian lookup"),
    }
}

#[test]
fn eng_without_argument_falls_back_to_help() {
    match Command::analyze_command("/eng") {
        Command::Help(Some(lang)) => assert_eq!(lang, "eng"),
        _ => panic!("expected the English help fallback"),
    }
}

#[test]
fn ita_without_argument_falls_back_to_help() {
    match Command::analyze_command("/ita") {
        Command::Help(Some(lang)) => assert_eq!(lang, "ita"),
        _ => panic!("expected the Italian help fallback"),
    }
}

#[test]
fn eng_with_trailing_space_keeps_empty_argument() {
    match Command::analyze_command("/eng ") {
        Command::Eng(item) => assert_eq!(item, ""),
        _ => panic!("expected an English lookup with an empty argument"),
    }
}

#[test]
fn list_with_single_letter_defaults_language() {
    match Command::analyze_command("/list d") {
        Command::List(letter, None) => assert_eq!(letter, 'd'),
        _ => panic!("expected a default-language listing"),
    }
}

#[test]
fn list_lowers_the_filter_letter() {
    match Command::analyze_command("/list D ita") {
        Command::List(letter, Some(lang)) => {
            assert_eq!(letter, 'd');
            assert_eq!(lang, "ita");
        }
        _ => panic!("expected an Italian listing"),
    }
}

#[test]
fn list_with_long_token_and_language_falls_back_to_that_help() {
    match Command::analyze_command("/list dd ita") {
        Command::Help(Some(lang)) => assert_eq!(lang, "ita"),
        _ => panic!("expected the Italian help fallback"),
    }
}

#[test]
fn list_with_long_token_and_unknown_language_falls_back_to_default_help() {
    match Command::analyze_command("/list dd xx") {
        Command::Help(Some(lang)) => assert_eq!(lang, "eng"),
        _ => panic!("expected the English help fallback"),
    }
}

#[test]
fn list_without_argument_falls_back_to_help() {
    match Command::analyze_command("/list") {
        Command::Help(Some(lang)) => assert_eq!(lang, "eng"),
        _ => panic!("expected the English help fallback"),
    }
}

#[test]
fn help_without_argument_uses_default_language() {
    match Command::analyze_command("/help") {
        Command::Help(Some(lang)) => assert_eq!(lang, "eng"),
        _ => panic!("expected English help"),
    }
}

#[test]
fn help_with_supported_language_uses_it() {
    match Command::analyze_command("/help ita") {
        Command::Help(Some(lang)) => assert_eq!(lang, "ita"),
        _ => panic!("expected Italian help"),
    }
}

#[test]
fn help_with_unsupported_language_suppresses_the_reply() {
    match Command::analyze_command("/help klingon") {
        Command::Help(None) => {}
        _ => panic!("expected a suppressed reply"),
    }
}

#[test]
fn unrecognized_token_is_unknown() {
    match Command::analyze_command("hello there") {
        Command::Unknown => {}
        _ => panic!("expected an unknown command"),
    }
}

#[test]
fn read_first_char_lowers_ascii() {
    assert_eq!(read_first_char("Dragon"), 'd');
    assert_eq!(read_first_char("elf"), 'e');
}

#[test]
fn supported_languages_are_a_closed_set() {
    assert!(is_supported_lang("eng"));
    assert!(is_supported_lang("ita"));
    assert!(!is_supported_lang("italiano"));
    assert!(!is_supported_lang(""));
}

#[test]
fn split_list_accepts_letter_and_language() {
    let (letter, lang) = split_list("D ita".to_string()).unwrap();
    assert_eq!(letter, "d");
    assert_eq!(lang, "ita");
}

#[test]
fn split_list_defaults_missing_language() {
    let (letter, lang) = split_list("d".to_string()).unwrap();
    assert_eq!(letter, "d");
    assert_eq!(lang, "eng");
}

#[test]
fn split_list_skips_extra_spaces_before_language() {
    let (letter, lang) = split_list("d   eng".to_string()).unwrap();
    assert_eq!(letter, "d");
    assert_eq!(lang, "eng");
}

#[test]
fn split_list_takes_one_character_not_one_byte() {
    let (letter, lang) = split_list("à".to_string()).unwrap();
    assert_eq!(letter, "à");
    assert_eq!(lang, "eng");
}

#[test]
fn split_list_rejects_a_long_letter_token() {
    assert!(split_list("dd ita".to_string()).is_err());
}
