use lib::chars::{char_is_control, char_is_white_space};
use lib::names::{session_name_of, SESSION_EXTENSION};
use lib::text::trim;
use lib::{session_filename, validate_session_name, NO_SESSION};

#[test]
fn white_space_and_control_classes_match_std() {
    for u in 0u32..=0x10FFFF {
        if let Some(c) = char::from_u32(u) {
            assert_eq!(char_is_white_space(c), c.is_whitespace(), "{:?}", c);
            assert_eq!(char_is_control(c), c.is_control(), "{:?}", c);
        }
    }
}

#[test]
fn trim_matches_std() {
    for s in ["", "   ", "  blog  ", "\u{3000}a b\u{a0}", "\t\nx\r\n", "x", " \u{85}y\u{2029}"] {
        assert_eq!(trim(s), s.trim(), "{:?}", s);
    }
}

#[test]
fn each_refusal_says_why() {
    let reason = |s: &str| validate_session_name(s).unwrap_err();
    assert_eq!(reason(""), "The name is empty.");
    assert_eq!(reason("   "), "The name is empty.");
    assert_eq!(reason(".hidden"), "The name must not start with '.'.");
    assert_eq!(reason("../evil"), "The name must not start with '.'.");
    assert_eq!(reason("a/b"), "The name must not contain a slash.");
    assert_eq!(reason("a\\b"), "The name must not contain a backslash.");
    assert_eq!(reason("it's"), "The name must not contain a single quote.");
    assert_eq!(reason("say \"hi\""), "The name must not contain a double quote.");
    assert_eq!(reason("tab\there"), "The name must not contain control characters.");
    assert_eq!(reason("a\"b/c"), "The name must not contain a double quote.");
    assert_eq!(reason("notes.kitty-session"), "The name must not end with '.kitty-session'.");
    assert_eq!(reason("  [No Session] "), "'[No Session]' is reserved.");
    assert_eq!(reason(NO_SESSION), "'[No Session]' is reserved.");
}

#[test]
fn surrounding_white_space_is_trimmed() {
    assert_eq!(validate_session_name("  blog  ").unwrap(), "blog");
    assert_eq!(validate_session_name("\u{3000}my project\t").unwrap(), "my project");
    assert_eq!(validate_session_name("x.kitty-sessions").unwrap(), "x.kitty-sessions");
}

#[test]
fn file_names_and_session_names() {
    assert_eq!(SESSION_EXTENSION, ".kitty-session");
    assert_eq!(session_filename("blog"), "blog.kitty-session");
    assert_eq!(session_filename("my project"), "my project.kitty-session");
    assert_eq!(session_name_of("blog.kitty-session"), "blog");
    assert_eq!(session_name_of("x.kitty-session.kitty-session"), "x");
    assert_eq!(session_name_of("notes.txt"), "notes.txt");
    assert_eq!(session_name_of(".kitty-session"), "");
}

#[test]
fn accepted_names_round_trip_through_their_file() {
    for name in ["blog", "my project", "a.b+c[1](2)", "x.kitty-sessio"] {
        let accepted = validate_session_name(name).unwrap();
        assert_eq!(session_name_of(&session_filename(&accepted)), accepted);
    }
}

#[test]
fn accepted_names_stay_in_the_sessions_directory() {
    for name in ["blog", "my project", "a..b", "x.y"] {
        let file = session_filename(&validate_session_name(name).unwrap());
        assert!(!file.contains('/') && !file.starts_with('.'));
        let path = lib::listing::join_path("/home/u/.config/kitty/sessions", &file);
        assert_eq!(std::path::Path::new(&path).parent().unwrap().to_str(), Some("/home/u/.config/kitty/sessions"));
    }
}
