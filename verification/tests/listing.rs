use lib::listing::{join_path, DirListing};
use lib::{list_sessions, session_dir};

fn entries(names: &[&str]) -> DirListing {
    DirListing::Entries(names.iter().map(|s| s.to_string()).collect())
}

#[test]
fn sessions_directory_below_home() {
    assert_eq!(session_dir(None), Err("HOME is not set.".to_string()));
    assert_eq!(session_dir(Some("/home/u".to_string())).unwrap(), "/home/u/.config/kitty/sessions");
    assert_eq!(session_dir(Some("/home/u/".to_string())).unwrap(), "/home/u/.config/kitty/sessions");
    assert_eq!(session_dir(Some(String::new())).unwrap(), ".config/kitty/sessions");
}

#[test]
fn joining_paths_like_std() {
    for (dir, part) in [("/d", "x"), ("/d/", "x"), ("", "x"), ("/d", "/abs"), ("/d", ""), ("d", "a b")] {
        let expected = std::path::Path::new(dir).join(part).to_string_lossy().into_owned();
        assert_eq!(join_path(dir, part), expected, "{:?} {:?}", dir, part);
    }
}

#[test]
fn unreadable_directory_is_an_error() {
    let listing = DirListing::Unreadable {
        dir: "/home/u/.config/kitty/sessions".to_string(),
        reason: "Permission denied (os error 13)".to_string(),
    };
    assert_eq!(
        list_sessions(listing),
        Err("Could not read the sessions directory '/home/u/.config/kitty/sessions': Permission denied (os error 13).".to_string())
    );
}

#[test]
fn listing_keeps_only_session_files_in_string_order() {
    let names = [
        "docker.kitty-session",
        "config.kitty-session",
        "notes.txt",
        "Zed.kitty-session",
        "é.kitty-session",
        "a.kitty-session.kitty-session",
        "ab.kitty-session",
        "a.kitty-session",
        ".kitty-session",
        "x.kitty-session.bak",
    ];
    let mut expected: Vec<String> = names
        .iter()
        .filter_map(|n| n.strip_suffix(".kitty-session").map(str::to_string))
        .collect();
    expected.sort();
    assert_eq!(list_sessions(entries(&names)).unwrap(), expected);
    assert_eq!(
        list_sessions(entries(&["docker.kitty-session", "config.kitty-session", "notes.txt"])).unwrap(),
        vec!["config", "docker"]
    );
}

#[test]
fn empty_directory_lists_nothing() {
    assert_eq!(list_sessions(entries(&[])).unwrap(), Vec::<String>::new());
}
