use lib::listing::DirListing;
use lib::{list_sessions, quote_action_arg, regex_escape, session_match, validate_session_name, NO_SESSION};

#[test]
fn accepts_plain_and_spaced_names() {
    assert_eq!(validate_session_name("blog").unwrap(), "blog");
    assert_eq!(validate_session_name("  my project  ").unwrap(), "my project");
    assert_eq!(validate_session_name("a.b+c[1](2)").unwrap(), "a.b+c[1](2)");
}

#[test]
fn refuses_unsafe_names() {
    for bad in [
        "", "   ", ".hidden", "..", "../evil", "a/b", "a\\b", "it's", "say \"hi\"",
        "tab\there", "notes.kitty-session", NO_SESSION,
    ] {
        assert!(validate_session_name(bad).is_err(), "{:?} should be refused", bad);
    }
}

#[test]
fn regex_escape_keeps_names_one_token() {
    assert_eq!(regex_escape("my proj"), "my\\sproj");
    assert_eq!(regex_escape("a.b+c"), "a\\.b\\+c");
    assert_eq!(regex_escape("x[1](2)"), "x\\[1\\]\\(2\\)");
    assert_eq!(session_match("test"), "session:^test$");
    assert!(!session_match("my proj").contains(' '));
}

#[test]
fn missing_sessions_directory_is_an_empty_list() {
    assert_eq!(list_sessions(DirListing::Missing).unwrap(), Vec::<String>::new());
}

#[test]
fn lists_only_session_files_sorted() {
    let entries = ["b.kitty-session", "a b.kitty-session", "notes.txt"]
        .iter()
        .map(|f| f.to_string())
        .collect();
    assert_eq!(list_sessions(DirListing::Entries(entries)).unwrap(), vec!["a b", "b"]);
}

#[test]
fn action_args_are_single_quoted() {
    assert_eq!(quote_action_arg("/a b/c.kitty-session"), "'/a b/c.kitty-session'");
    assert_eq!(quote_action_arg("it's"), "'it'\\''s'");
}
