use provider_ty::completion::{
    completing_word_of, completion_request, extract_from_outputs, has_text, is_blank_char,
    select_candidates, split_words, starts_with, COMMAND,
};
use std::io;

fn strings(items: &[&str]) -> Vec<String> {
    items.iter().map(|s| s.to_string()).collect()
}

#[test]
fn the_script_is_registered_under_a_fixed_name() {
    assert_eq!(COMMAND, "buck2");
}

#[test]
fn a_request_is_the_input_followed_by_completion_keys() {
    assert_eq!(completion_request("sample bui", 1), "sample bui\t");
    assert_eq!(completion_request("sample bui", 2), "sample bui\t\t");
    assert_eq!(completion_request("sample bui", 0), "sample bui");
    assert_eq!(completion_request("", 2), "\t\t");
    assert_eq!(completion_request("büild ", 1), "büild \t");
}

#[test]
fn blanks_are_space_tab_and_line_ends() {
    assert!(is_blank_char(' '));
    assert!(is_blank_char('\t'));
    assert!(is_blank_char('\n'));
    assert!(is_blank_char('\r'));
    assert!(!is_blank_char('-'));
    assert!(!is_blank_char('a'));
    assert!(!is_blank_char('\u{a0}'));
}

#[test]
fn the_word_under_completion_follows_the_last_blank() {
    assert_eq!(completing_word_of("sample bui"), "bui");
    assert_eq!(completing_word_of("sample build --"), "--");
    assert_eq!(completing_word_of("sample"), "sample");
    assert_eq!(completing_word_of("sample "), "");
    assert_eq!(completing_word_of(""), "");
    assert_eq!(completing_word_of("a\tb"), "b");
    assert_eq!(completing_word_of("run tärget"), "tärget");
}

#[test]
fn prefixes() {
    assert!(starts_with("build", "bui"));
    assert!(starts_with("build", "build"));
    assert!(starts_with("build", ""));
    assert!(starts_with("", ""));
    assert!(!starts_with("bui", "build"));
    assert!(!starts_with("build", "--"));
    assert!(!starts_with("", "a"));
    assert!(starts_with("--verbose", "--"));
    assert!(!starts_with("tärget", "ta"));
    assert!(starts_with("tärget", "tä"));
}

#[test]
fn words_are_runs_without_blanks() {
    assert_eq!(split_words("sample build"), strings(&["sample", "build"]));
    assert_eq!(split_words("  a b\n\tc  "), strings(&["a", "b", "c"]));
    assert_eq!(split_words(""), Vec::<String>::new());
    assert_eq!(split_words(" \t\r\n"), Vec::<String>::new());
    assert_eq!(split_words("one"), strings(&["one"]));
    assert_eq!(split_words("--a=1\r\n--b"), strings(&["--a=1", "--b"]));
    assert_eq!(split_words("x x x"), strings(&["x", "x", "x"]));
    assert_eq!(split_words("tärget ö"), strings(&["tärget", "ö"]));
}

#[test]
fn membership_by_text() {
    let held = strings(&["a", "bc"]);
    assert!(has_text(&held, &"bc".to_string()));
    assert!(!has_text(&held, &"b".to_string()));
    assert!(!has_text(&Vec::new(), &"a".to_string()));
}

#[test]
fn selection_keeps_matching_candidates_once_in_order() {
    let produced = strings(&["build", "--help", "bundle", "build", "--help", "test", "bu"]);
    assert_eq!(select_candidates("bu", &produced), strings(&["build", "bundle", "bu"]));
    assert_eq!(select_candidates("--", &produced), strings(&["--help"]));
    assert_eq!(
        select_candidates("", &produced),
        strings(&["build", "--help", "bundle", "test", "bu"])
    );
    assert_eq!(select_candidates("zz", &produced), Vec::<String>::new());
    assert_eq!(select_candidates("b", &Vec::new()), Vec::<String>::new());
}

#[test]
fn a_partial_subcommand_is_completed() {
    let single: Result<String, io::Error> = Ok("sample build ".to_string());
    let double: Result<String, io::Error> = Ok("sample build ".to_string());
    let candidates = extract_from_outputs("sample bui", single, double).unwrap();
    assert_eq!(candidates, strings(&["build"]));
    assert!(candidates.contains(&"build".to_string()));
}

#[test]
fn after_two_dashes_only_flags_are_candidates() {
    let single: Result<String, io::Error> =
        Ok("sample build --\n--help  (Print help)  --verbose  (Say more)".to_string());
    let double: Result<String, io::Error> =
        Ok("sample build --\n--help  (Print help)  --verbose  (Say more)  --release".to_string());
    let candidates = extract_from_outputs("sample build --", single, double).unwrap();
    assert_eq!(candidates, strings(&["--", "--help", "--verbose", "--release"]));
    for candidate in &candidates {
        assert!(candidate.starts_with("--"));
        assert_ne!(candidate, "build");
    }
}

#[test]
fn candidates_of_both_requests_are_merged() {
    let single: Result<String, io::Error> = Ok("b1 a b2".to_string());
    let double: Result<String, io::Error> = Ok("b3 b1 c".to_string());
    let candidates = extract_from_outputs("cmd b", single, double).unwrap();
    assert_eq!(candidates, strings(&["b1", "b2", "b3"]));
}

#[test]
fn no_output_gives_no_candidates() {
    let single: Result<String, io::Error> = Ok(String::new());
    let double: Result<String, io::Error> = Ok(String::new());
    assert_eq!(extract_from_outputs("sample bui", single, double).unwrap(), Vec::<String>::new());
}

#[test]
fn a_failure_of_the_first_request_is_handed_on() {
    let single: Result<String, io::Error> =
        Err(io::Error::new(io::ErrorKind::TimedOut, "no answer"));
    let double: Result<String, io::Error> = Ok("sample build".to_string());
    let failure = extract_from_outputs("sample bui", single, double).unwrap_err();
    assert_eq!(failure.kind(), io::ErrorKind::TimedOut);
    assert_eq!(failure.to_string(), "no answer");
}

#[test]
fn a_failure_of_the_second_request_is_handed_on() {
    let single: Result<String, io::Error> = Ok("sample build".to_string());
    let double: Result<String, io::Error> =
        Err(io::Error::new(io::ErrorKind::NotFound, "no shell"));
    let failure = extract_from_outputs("sample bui", single, double).unwrap_err();
    assert_eq!(failure.kind(), io::ErrorKind::NotFound);
}

#[test]
fn of_two_failures_the_first_is_handed_on() {
    let single: Result<String, String> = Err("first".to_string());
    let double: Result<String, String> = Err("second".to_string());
    assert_eq!(extract_from_outputs("x", single, double), Err("first".to_string()));
}
