use lib::kitty::{
    close_session_args, elsewhere_match, focus_tab_args, focused_match, goto_previous_args,
    goto_session_args, launch_tab_args, match_tab_args, save_as_session_args,
};
use lib::{quote_action_arg, regex_escape, session_match};

/// One shell word made of plain characters, single-quoted sections and
/// backslash escapes, read back; `None` if it is not one such word.
fn read_word(s: &str) -> Option<String> {
    let mut out = String::new();
    let mut chars = s.chars();
    let mut quoted = false;
    while let Some(c) = chars.next() {
        if quoted {
            if c == '\'' {
                quoted = false;
            } else {
                out.push(c);
            }
        } else if c == '\'' {
            quoted = true;
        } else if c == '\\' {
            out.push(chars.next()?);
        } else if c.is_whitespace() || c == '"' {
            return None;
        } else {
            out.push(c);
        }
    }
    if quoted {
        None
    } else {
        Some(out)
    }
}

fn strings(v: &[&str]) -> Vec<String> {
    v.iter().map(|s| s.to_string()).collect()
}

#[test]
fn quoted_arguments_read_back_as_one_word() {
    for arg in ["", "plain", "/a b/c.kitty-session", "it's", "''", "a\\b", "--match=session:^my\\sproj$"] {
        let q = quote_action_arg(arg);
        assert_eq!(read_word(&q), Some(arg.to_string()), "{:?}", q);
    }
    assert_eq!(quote_action_arg(""), "''");
    assert_eq!(quote_action_arg("''"), "''\\'''\\'''");
}

#[test]
fn escaping_covers_every_special_character() {
    assert_eq!(regex_escape("\\.+*?()|[]{}^$#"), "\\\\\\.\\+\\*\\?\\(\\)\\|\\[\\]\\{\\}\\^\\$\\#");
    assert_eq!(regex_escape("a\u{a0}b\u{3000}c"), "a\\sb\\sc");
    assert_eq!(regex_escape("plain-name_1"), "plain-name_1");
    assert_ne!(session_match("test"), session_match("test2"));
}

#[test]
fn match_expressions_select_one_session() {
    assert_eq!(session_match("my proj"), "session:^my\\sproj$");
    assert_eq!(focused_match("docker"), "state:focused and session:^docker$");
    assert_eq!(elsewhere_match("docker"), "not state:focused and not session:^docker$");
}

#[test]
fn kitten_argument_lists() {
    assert_eq!(match_tab_args("session:^$"), strings(&["@", "ls", "--match-tab", "session:^$"]));
    assert_eq!(focus_tab_args("session:^$"), strings(&["@", "focus-tab", "--match", "session:^$"]));
    assert_eq!(
        goto_session_args("/s/my proj.kitty-session"),
        strings(&["@", "action", "goto_session", "'/s/my proj.kitty-session'"])
    );
    assert_eq!(goto_previous_args(), strings(&["@", "action", "goto_session", "-1"]));
    assert_eq!(launch_tab_args(), strings(&["@", "launch", "--type=tab", "--cwd=current"]));
    assert_eq!(close_session_args("my proj"), strings(&["@", "action", "close_session", "'my proj'"]));
    assert_eq!(
        save_as_session_args("/s", "my proj", "my proj.kitty-session"),
        strings(&[
            "@",
            "action",
            "save_as_session",
            "--base-dir",
            "'/s'",
            "--save-only",
            "--use-foreground-process",
            "'--match=session:^my\\sproj$'",
            "'my proj.kitty-session'",
        ])
    );
}
