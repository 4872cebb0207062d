use lib::picker::{choose_action, fzf_input, picker_items, read_fzf_output, PickerAction};
use lib::{fatal, show_message};

#[test]
fn no_session_entry_comes_first() {
    let items = picker_items(vec!["config".to_string(), "docker".to_string()]);
    assert_eq!(items, vec!["[No Session]", "config", "docker"]);
    assert_eq!(picker_items(Vec::new()), vec!["[No Session]"]);
}

#[test]
fn fzf_gets_one_entry_per_line() {
    let items: Vec<String> = vec!["[No Session]".into(), "a b".into(), "c".into()];
    assert_eq!(fzf_input(&items), "[No Session]\na b\nc");
    assert_eq!(fzf_input(&Vec::new()), "");
}

#[test]
fn fzf_output_is_read_as_key_and_entry() {
    let ok = |code: Option<i32>, out: &str| read_fzf_output(code, out).unwrap();
    assert_eq!(ok(Some(0), "ctrl-r\nblog\n"), ("ctrl-r".to_string(), "blog".to_string()));
    assert_eq!(ok(Some(0), "\nblog\n"), (String::new(), "blog".to_string()));
    assert_eq!(ok(Some(130), ""), (String::new(), String::new()));
    assert_eq!(ok(Some(1), "ctrl-d\n"), ("ctrl-d".to_string(), String::new()));
    assert_eq!(ok(None, "a\r\nb\r\n"), ("a".to_string(), "b".to_string()));
    assert_eq!(read_fzf_output(Some(2), "x\n"), Err("fzf reported an error.".to_string()));
    for out in ["", "\n", "a", "a\r", "a\r\n", "\r\n\r\n", "k\nt\nmore\n", "k\n\nt", "\n\n"] {
        let mut lines = out.lines();
        let expected = (
            lines.next().unwrap_or("").to_string(),
            lines.next().unwrap_or("").to_string(),
        );
        assert_eq!(ok(Some(0), out), expected, "{:?}", out);
    }
}

#[test]
fn keys_start_operations() {
    assert_eq!(choose_action("ctrl-n", ""), PickerAction::Create);
    assert_eq!(choose_action("ctrl-n", "docker"), PickerAction::Create);
    assert_eq!(choose_action("", ""), PickerAction::Quit);
    assert_eq!(choose_action("ctrl-r", ""), PickerAction::Quit);
    assert_eq!(choose_action("ctrl-r", "[No Session]"), PickerAction::Stay);
    assert_eq!(choose_action("ctrl-d", "[No Session]"), PickerAction::Stay);
    assert_eq!(choose_action("", "[No Session]"), PickerAction::OpenNoSession);
    assert_eq!(choose_action("ctrl-r", "test"), PickerAction::Rename("test.kitty-session".into()));
    assert_eq!(choose_action("ctrl-d", "test"), PickerAction::Delete("test.kitty-session".into()));
    assert_eq!(choose_action("", "my proj"), PickerAction::Open("my proj.kitty-session".into()));
}

#[test]
fn message_texts() {
    assert_eq!(show_message("Nope."), "Nope. Press Enter to go back.");
    assert_eq!(fatal("HOME is not set."), "HOME is not set. Press Enter to close.");
}
