use lib::create::CreateStage;
use lib::delete::DeleteStage;
use lib::flow::{Effect, Event, Outcome, Run};
use lib::goto::GotoStage;
use lib::rename::RenameStage;
use lib::snapshot::{save_snapshot, SnapshotStage};
use lib::tabs::{move_away_from, MoveAwayStage, NoSessionStage};
use lib::{create_session, delete_session, goto_no_session, goto_session, rename_session};

fn s(x: &str) -> String {
    x.to_string()
}

fn kitten(args: &[&str], capture: bool) -> Effect {
    Effect::Kitten { args: args.iter().map(|a| a.to_string()).collect(), capture }
}

fn ok_run() -> Event {
    Event::Ran(Run::Exited { success: true, stderr: String::new() })
}

fn failed_run(stderr: &str) -> Event {
    Event::Ran(Run::Exited { success: false, stderr: s(stderr) })
}

fn ask(text: &str) -> Effect {
    Effect::Ask(s(text))
}

fn line(text: &str) -> Event {
    Event::Line(s(text))
}

/// Runs a step function from its start with the scripted answers and
/// collects every request, the final one included.
fn run<S>(start: S, answers: Vec<Event>, mut step: impl FnMut(S, Event) -> (S, Effect)) -> Vec<Effect> {
    let mut answers = answers.into_iter();
    let mut stage = start;
    let mut event = Event::Begin;
    let mut effects = Vec::new();
    loop {
        let (next, effect) = step(stage, event);
        let done = matches!(effect, Effect::Finish(_));
        effects.push(effect);
        if done {
            return effects;
        }
        stage = next;
        event = answers.next().expect("the script has an answer for every request");
    }
}

const DIR: &str = "/home/u/.config/kitty/sessions";

fn goto(answers: Vec<Event>) -> Vec<Effect> {
    run(GotoStage::Start, answers, |st, ev| goto_session(DIR, "docker.kitty-session", st, ev))
}

#[test]
fn goto_switches_when_kitty_confirms() {
    assert_eq!(
        goto(vec![ok_run(), ok_run()]),
        vec![
            kitten(&["@", "action", "goto_session", "'/home/u/.config/kitty/sessions/docker.kitty-session'"], true),
            kitten(&["@", "ls", "--match-tab", "state:focused and session:^docker$"], false),
            Effect::Finish(Outcome::Opened(Ok(()))),
        ]
    );
}

#[test]
fn goto_polls_then_gives_up() {
    let mut answers = vec![ok_run()];
    for _ in 0..10 {
        answers.push(failed_run(""));
        answers.push(Event::Ack);
    }
    answers.push(failed_run(""));
    let effects = goto(answers);
    let checks = effects.iter().filter(|e| matches!(e, Effect::Kitten { capture: false, .. })).count();
    let waits = effects.iter().filter(|e| **e == Effect::Sleep(100)).count();
    assert_eq!((checks, waits), (11, 10));
    assert_eq!(
        effects.last(),
        Some(&Effect::Finish(Outcome::Opened(Err(s("Could not open 'docker': kitty did not switch to it.")))))
    );
}

#[test]
fn goto_reports_kitten_failures() {
    assert_eq!(
        goto(vec![failed_run("  bad session file \n")]).last(),
        Some(&Effect::Finish(Outcome::Opened(Err(s("Could not open 'docker': bad session file")))))
    );
    assert_eq!(
        goto(vec![Event::Ran(Run::NotStarted(s("No such file or directory (os error 2)")))]).last(),
        Some(&Effect::Finish(Outcome::Opened(Err(s(
            "Could not run kitten: No such file or directory (os error 2)."
        )))))
    );
}

#[test]
fn no_session_tab_is_focused_or_created() {
    let existing = run(NoSessionStage::Start, vec![ok_run(), ok_run()], goto_no_session);
    assert_eq!(
        existing,
        vec![
            kitten(&["@", "ls", "--match-tab", "session:^$"], false),
            kitten(&["@", "focus-tab", "--match", "session:^$"], false),
            Effect::Finish(Outcome::Opened(Ok(()))),
        ]
    );
    let missing = run(NoSessionStage::Start, vec![failed_run(""), ok_run(), ok_run()], goto_no_session);
    assert_eq!(missing[1], kitten(&["@", "launch", "--type=tab", "--cwd=current"], true));
    assert_eq!(missing[2], kitten(&["@", "focus-tab", "--match", "session:^$"], false));
    let refused = run(NoSessionStage::Start, vec![failed_run(""), failed_run(" refused\n")], goto_no_session);
    assert_eq!(refused[2], Effect::Finish(Outcome::Opened(Err(s("Could not create a tab: refused")))));
    let unfocused = run(NoSessionStage::Start, vec![ok_run(), failed_run("")], goto_no_session);
    assert_eq!(
        unfocused[2],
        Effect::Finish(Outcome::Opened(Err(s("Could not go to a tab outside the sessions."))))
    );
}

fn create(answers: Vec<Event>) -> Vec<Effect> {
    run(CreateStage::Start, answers, |st, ev| create_session("/d", st, ev))
}

#[test]
fn create_writes_and_opens_a_new_session() {
    assert_eq!(
        create(vec![line("  blog  "), Event::Flag(false), Event::Io(Ok(())), Event::Opened(Ok(()))]),
        vec![
            ask("New session name: "),
            Effect::Exists(s("/d/blog.kitty-session")),
            Effect::CreateFile { dir: s("/d"), path: s("/d/blog.kitty-session"), contents: s("new_tab\nlaunch\n") },
            Effect::Goto { dir: s("/d"), session: s("blog.kitty-session") },
            Effect::Finish(Outcome::Exit(true)),
        ]
    );
}

#[test]
fn create_refuses_and_explains() {
    assert_eq!(create(vec![line("")]).last(), Some(&Effect::Finish(Outcome::Exit(false))));
    assert_eq!(
        create(vec![line("a/b"), line("")])[1],
        ask("The name must not contain a slash. Press Enter to go back.")
    );
    assert_eq!(
        create(vec![line("docker"), Event::Flag(true), line("")])[2],
        ask("Session 'docker' already exists. Press Enter to go back.")
    );
    assert_eq!(
        create(vec![line("blog"), Event::Flag(false), Event::Io(Err(s("Permission denied (os error 13)"))), line("")])[3],
        ask("Failed to create 'blog.kitty-session': Permission denied (os error 13). Press Enter to go back.")
    );
    let unopened = create(vec![
        line("blog"),
        Event::Flag(false),
        Event::Io(Ok(())),
        Event::Opened(Err(s("Could not open 'blog': kitty did not switch to it."))),
        line(""),
    ]);
    assert_eq!(
        unopened[4],
        ask("Session 'blog' was created but could not be opened. Could not open 'blog': kitty did not switch to it. Press Enter to go back.")
    );
    assert_eq!(unopened[5], Effect::Finish(Outcome::Exit(false)));
}

fn rename(answers: Vec<Event>) -> Vec<Effect> {
    run(RenameStage::Start, answers, |st, ev| rename_session("/d", "test.kitty-session", st, ev))
}

const WARNING: &str = "Renaming 'test' to 'scratch' closes its open tabs and re-opens them from a saved snapshot. Running programs are started again and scrollback is lost. Continue? [y/N]: ";

#[test]
fn rename_of_a_closed_session_renames_the_file_only() {
    assert_eq!(
        rename(vec![line("scratch"), Event::Flag(false), failed_run(""), Event::Io(Ok(()))]),
        vec![
            ask("Rename 'test' to: "),
            Effect::Exists(s("/d/scratch.kitty-session")),
            kitten(&["@", "ls", "--match-tab", "session:^test$"], false),
            Effect::Rename { from: s("/d/test.kitty-session"), to: s("/d/scratch.kitty-session") },
            Effect::Finish(Outcome::Exit(false)),
        ]
    );
}

#[test]
fn rename_of_an_open_session_reopens_it_and_closes_the_old_tabs() {
    assert_eq!(
        rename(vec![
            line("scratch"),
            Event::Flag(false),
            ok_run(),
            line("y"),
            Event::Flag(true),
            Event::Io(Ok(())),
            Event::Opened(Ok(())),
            ok_run(),
        ]),
        vec![
            ask("Rename 'test' to: "),
            Effect::Exists(s("/d/scratch.kitty-session")),
            kitten(&["@", "ls", "--match-tab", "session:^test$"], false),
            ask(WARNING),
            Effect::Snapshot { dir: s("/d"), name: s("test"), session: s("test.kitty-session") },
            Effect::Rename { from: s("/d/test.kitty-session"), to: s("/d/scratch.kitty-session") },
            Effect::Goto { dir: s("/d"), session: s("scratch.kitty-session") },
            kitten(&["@", "action", "close_session", "'test'"], false),
            Effect::Finish(Outcome::Exit(true)),
        ]
    );
}

#[test]
fn rename_is_undone_when_the_renamed_session_does_not_open() {
    let open = || vec![line("scratch"), Event::Flag(false), ok_run(), line("Y"), Event::Flag(true), Event::Io(Ok(()))];
    let mut undone = open();
    undone.extend(vec![Event::Opened(Err(s("x"))), Event::Io(Ok(())), line("")]);
    let effects = rename(undone);
    assert_eq!(effects[7], Effect::Rename { from: s("/d/scratch.kitty-session"), to: s("/d/test.kitty-session") });
    assert_eq!(
        effects[8],
        ask("Could not open 'scratch'. The rename was undone and 'test' is unchanged. Press Enter to go back.")
    );
    assert_eq!(effects[9], Effect::Finish(Outcome::Exit(false)));
    let mut stuck = open();
    stuck.extend(vec![Event::Opened(Err(s("x"))), Event::Io(Err(s("busy"))), line("")]);
    assert_eq!(
        rename(stuck)[8],
        ask("Could not open 'scratch'. Its file is now 'scratch.kitty-session'; 'test' is still open. Press Enter to go back.")
    );
}

#[test]
fn rename_changes_nothing_when_declined_or_refused() {
    assert_eq!(
        rename(vec![line("scratch"), Event::Flag(false), ok_run(), line("n")]).last(),
        Some(&Effect::Finish(Outcome::Exit(false)))
    );
    assert_eq!(rename(vec![line("test")]).len(), 2);
    assert_eq!(rename(vec![line("")]).len(), 2);
    assert_eq!(
        rename(vec![line("docker"), Event::Flag(true), line("")])[2],
        ask("'docker' already exists. Press Enter to go back.")
    );
    assert_eq!(
        rename(vec![line("a/b"), line("")])[1],
        ask("The name must not contain a slash. Press Enter to go back.")
    );
    assert_eq!(
        rename(vec![line("scratch"), Event::Flag(false), ok_run(), line("y"), Event::Flag(false), line("")])[5],
        ask("Could not save a snapshot of 'test'. Nothing was changed. Press Enter to go back.")
    );
    assert_eq!(
        rename(vec![line("scratch"), Event::Flag(false), failed_run(""), Event::Io(Err(s("gone"))), line("")])[4],
        ask("Failed to rename 'test': gone. Press Enter to go back.")
    );
}

fn delete(answers: Vec<Event>) -> Vec<Effect> {
    run(DeleteStage::Start, answers, |st, ev| delete_session("/d", "docker.kitty-session", st, ev))
}

#[test]
fn delete_a_session_without_open_tabs() {
    assert_eq!(
        delete(vec![failed_run(""), line("y"), Event::Io(Ok(()))]),
        vec![
            kitten(&["@", "ls", "--match-tab", "session:^docker$"], false),
            ask("Delete 'docker'? [y/N]: "),
            Effect::Remove(s("/d/docker.kitty-session")),
            Effect::Finish(Outcome::Exit(false)),
        ]
    );
}

#[test]
fn delete_an_open_session_the_user_is_not_in() {
    assert_eq!(
        delete(vec![ok_run(), failed_run(""), line("y"), Event::Io(Ok(())), ok_run()]),
        vec![
            kitten(&["@", "ls", "--match-tab", "session:^docker$"], false),
            kitten(&["@", "ls", "--match-tab", "state:focused and session:^docker$"], false),
            ask("Delete 'docker'? Its open tabs will be closed. [y/N]: "),
            Effect::Remove(s("/d/docker.kitty-session")),
            kitten(&["@", "action", "close_session", "'docker'"], false),
            Effect::Finish(Outcome::Exit(false)),
        ]
    );
}

#[test]
fn delete_the_current_session_moves_away_first() {
    assert_eq!(
        delete(vec![ok_run(), ok_run(), ok_run(), line("Y"), Event::Io(Ok(())), Event::Ack, ok_run()]),
        vec![
            kitten(&["@", "ls", "--match-tab", "session:^docker$"], false),
            kitten(&["@", "ls", "--match-tab", "state:focused and session:^docker$"], false),
            kitten(&["@", "ls", "--match-tab", "not state:focused and not session:^docker$"], false),
            ask("Delete 'docker'? Its open tabs will be closed. You will be moved to the previous session, or to [No Session] if there is none. [y/N]: "),
            Effect::Remove(s("/d/docker.kitty-session")),
            Effect::MoveAway(s("docker")),
            kitten(&["@", "action", "close_session", "'docker'"], false),
            Effect::Finish(Outcome::Exit(true)),
        ]
    );
}

#[test]
fn delete_is_refused_with_nowhere_to_go() {
    let effects = delete(vec![ok_run(), ok_run(), failed_run(""), line("")]);
    assert_eq!(
        effects[3],
        ask("Cannot delete 'docker': you are in it and there is no other tab to move to. Press Enter to go back.")
    );
    assert_eq!(effects[4], Effect::Finish(Outcome::Exit(false)));
    assert!(!effects.iter().any(|e| matches!(e, Effect::Remove(_))));
}

#[test]
fn delete_declined_or_failed_keeps_going() {
    assert_eq!(delete(vec![failed_run(""), line("")]).last(), Some(&Effect::Finish(Outcome::Exit(false))));
    assert_eq!(delete(vec![failed_run(""), line("yes")]).len(), 3);
    assert_eq!(
        delete(vec![failed_run(""), line("y"), Event::Io(Err(s("Permission denied (os error 13)"))), line("")])[3],
        ask("Failed to delete 'docker': Permission denied (os error 13). Press Enter to go back.")
    );
}

fn snapshot(answers: Vec<Event>) -> Vec<Effect> {
    run(SnapshotStage::Start, answers, |st, ev| save_snapshot("/d", "test", "test.kitty-session", st, ev))
}

#[test]
fn snapshot_counts_only_a_rewritten_file() {
    let saved = snapshot(vec![Event::Time(Some(100)), ok_run(), Event::Time(Some(200))]);
    assert_eq!(
        saved,
        vec![
            Effect::ModifiedTime(s("/d/test.kitty-session")),
            kitten(
                &[
                    "@", "action", "save_as_session", "--base-dir", "'/d'", "--save-only",
                    "--use-foreground-process", "'--match=session:^test$'", "'test.kitty-session'",
                ],
                false
            ),
            Effect::ModifiedTime(s("/d/test.kitty-session")),
            Effect::Finish(Outcome::Exit(true)),
        ]
    );
    let last = |answers| snapshot(answers).pop();
    assert_eq!(last(vec![Event::Time(Some(100)), ok_run(), Event::Time(Some(100))]), Some(Effect::Finish(Outcome::Exit(false))));
    assert_eq!(last(vec![Event::Time(None), ok_run(), Event::Time(Some(-5))]), Some(Effect::Finish(Outcome::Exit(true))));
    assert_eq!(last(vec![Event::Time(Some(1)), ok_run(), Event::Time(None)]), Some(Effect::Finish(Outcome::Exit(false))));
    assert_eq!(last(vec![Event::Time(Some(1)), failed_run("")]), Some(Effect::Finish(Outcome::Exit(false))));
}

#[test]
fn moving_away_tries_previous_then_free_then_any_tab() {
    let step = |st, ev| move_away_from("docker", st, ev);
    assert_eq!(
        run(MoveAwayStage::Start, vec![ok_run(), failed_run("")], step),
        vec![
            kitten(&["@", "action", "goto_session", "-1"], false),
            kitten(&["@", "ls", "--match-tab", "state:focused and session:^docker$"], false),
            Effect::Finish(Outcome::Ended),
        ]
    );
    let all = run(MoveAwayStage::Start, vec![ok_run(), ok_run(), ok_run(), ok_run(), ok_run()], step);
    assert_eq!(all[2], kitten(&["@", "focus-tab", "--match", "session:^$"], false));
    assert_eq!(all[4], kitten(&["@", "focus-tab", "--match", "not state:focused and not session:^docker$"], false));
    assert_eq!(all[5], Effect::Finish(Outcome::Ended));
}
