//! Renaming a session. A session without open tabs only has its file renamed.
//! An open session is re-opened under the new name from a snapshot, and its old
//! tabs are closed last, only once the renamed session is open, so a failure at
//! any earlier step leaves the old session as it was.
use vstd::prelude::*;

use crate::flow::{
    exit, flag_in, flag_of, io_error, io_error_in, is_ask, is_ended, is_exists, is_exit,
    is_goto, is_kitten, is_rename, is_snapshot, is_tell, kitten, line_in, line_of, opened_ok,
    opened_ok_in, ran_ok, ran_ok_in, tell, Effect, Event, Outcome,
};
use crate::kitty::{
    close_session_args, close_session_args_of, match_tab_args, match_tab_args_of, session_match,
    session_match_of,
};
use crate::listing::{join_path, joined, views};
use crate::names::{
    is_valid_name, refusal, session_filename, session_name_of, validate_session_name,
    without_extensions,
    SESSION_EXTENSION,
};
use crate::text::{chars_eq, chars_of, trim, trimmed};

verus! {

/// Where a rename stands; the stages after the name was accepted hold the new name.
#[derive(Debug, PartialEq, Eq)]
pub enum RenameStage {
    /// Nothing done yet.
    Start,
    /// Asked for the new name.
    Naming,
    /// Asked whether the new file exists.
    CheckingTaken(String),
    /// Asked whether the session has open tabs.
    CheckingOpen(String),
    /// Renaming the file of a session without open tabs.
    RenamingClosed(String),
    /// Asked the user to confirm the restart of an open session.
    Confirming(String),
    /// Saving a snapshot of the open session.
    Snapshotting(String),
    /// Renaming the file of the open session.
    RenamingOpen(String),
    /// Switching to the renamed session.
    Reopening(String),
    /// Renaming the file back after the switch failed.
    Undoing(String),
    /// Closing the old session's tabs.
    Closing,
    /// Telling the user why nothing more happens.
    Telling,
    /// Over.
    Done,
}

/// The stage holds the new name `name`.
pub open spec fn holds_new_name(stage: RenameStage, name: Seq<char>) -> bool {
    match stage {
        RenameStage::CheckingTaken(n) => n@ == name,
        RenameStage::CheckingOpen(n) => n@ == name,
        RenameStage::RenamingClosed(n) => n@ == name,
        RenameStage::Confirming(n) => n@ == name,
        RenameStage::Snapshotting(n) => n@ == name,
        RenameStage::RenamingOpen(n) => n@ == name,
        RenameStage::Reopening(n) => n@ == name,
        RenameStage::Undoing(n) => n@ == name,
        _ => false,
    }
}

/// A `[y/N]` answer that means yes: `y` in either case.
pub open spec fn is_yes(answer: Seq<char>) -> bool {
    answer == "y"@ || answer == "Y"@
}

/// Whether `answer` means yes.
pub fn answer_is_yes(answer: &str) -> (r: bool)
    ensures
        r == is_yes(answer@),
{
    let v = chars_of(answer);
    proof {
        reveal_strlit("y");
        reveal_strlit("Y");
    }
    let yes = v.len() == 1 && (v[0] == 'y' || v[0] == 'Y');
    if yes {
        assert(v@ =~= "y"@ || v@ =~= "Y"@);
    } else {
        assert(v@ != "y"@ && v@ != "Y"@) by {
            if v@ == "y"@ || v@ == "Y"@ {
                assert(v@.len() == 1);
            }
        }
    }
    yes
}

/// The warning shown before an open session is restarted under the new name.
pub open spec fn restart_warning(old: Seq<char>, new: Seq<char>) -> Seq<char> {
    "Renaming '"@ + old + "' to '"@ + new
        + "' closes its open tabs and re-opens them from a saved snapshot. Running programs are started again and scrollback is lost. Continue? [y/N]: "@
}

/// The message for a file rename of `old` that failed for `why`.
pub open spec fn rename_failed(old: Seq<char>, why: Seq<char>) -> Seq<char> {
    "Failed to rename '"@ + old + "': "@ + why + "."@
}

/// What the user is told when the renamed session could not be opened; `undone`
/// tells whether the file was renamed back.
pub open spec fn reopen_failed(old: Seq<char>, new: Seq<char>, undone: bool) -> Seq<char> {
    "Could not open '"@ + new + "'. "@ + if undone {
        "The rename was undone and '"@ + old + "' is unchanged."@
    } else {
        "Its file is now '"@ + new + SESSION_EXTENSION@ + "'; '"@ + old + "' is still open."@
    }
}

/// What renaming the session file `session` in `dir` does next. It ends
/// reporting whether the picker must exit: the open session was re-opened
/// under its new name, leaving the picker in a tab the user is no longer in.
pub open spec fn rename_step(
    dir: Seq<char>,
    session: Seq<char>,
    stage: RenameStage,
    ev: Event,
    next: RenameStage,
    eff: Effect,
) -> bool {
    let old = without_extensions(session);
    let old_path = joined(dir, session);
    match stage {
        RenameStage::Start => next == RenameStage::Naming && is_ask(
            eff,
            "Rename '"@ + old + "' to: "@,
        ),
        RenameStage::Naming => {
            let t = trimmed(line_of(ev));
            if t.len() == 0 {
                next == RenameStage::Done && is_exit(eff, false)
            } else {
                match refusal(t) {
                    Some(reason) => next == RenameStage::Telling && is_tell(eff, reason),
                    None => if t == old {
                        next == RenameStage::Done && is_exit(eff, false)
                    } else {
                        next is CheckingTaken && holds_new_name(next, t) && is_exists(
                            eff,
                            joined(dir, t + SESSION_EXTENSION@),
                        )
                    },
                }
            }
        },
        RenameStage::CheckingTaken(n) => if flag_of(ev) {
            next == RenameStage::Telling && is_tell(eff, "'"@ + n@ + "' already exists."@)
        } else {
            next is CheckingOpen && holds_new_name(next, n@) && is_kitten(
                eff,
                match_tab_args_of(session_match_of(old)),
                false,
            )
        },
        RenameStage::CheckingOpen(n) => if ran_ok(ev) {
            next is Confirming && holds_new_name(next, n@) && is_ask(
                eff,
                restart_warning(old, n@),
            )
        } else {
            next is RenamingClosed && holds_new_name(next, n@) && is_rename(
                eff,
                old_path,
                joined(dir, n@ + SESSION_EXTENSION@),
            )
        },
        RenameStage::RenamingClosed(n) => match io_error(ev) {
            Some(m) => next == RenameStage::Telling && is_tell(eff, rename_failed(old, m)),
            None => next == RenameStage::Done && is_exit(eff, false),
        },
        RenameStage::Confirming(n) => if is_yes(line_of(ev)) {
            next is Snapshotting && holds_new_name(next, n@) && is_snapshot(
                eff,
                dir,
                old,
                session,
            )
        } else {
            next == RenameStage::Done && is_exit(eff, false)
        },
        RenameStage::Snapshotting(n) => if flag_of(ev) {
            next is RenamingOpen && holds_new_name(next, n@) && is_rename(
                eff,
                old_path,
                joined(dir, n@ + SESSION_EXTENSION@),
            )
        } else {
            next == RenameStage::Telling && is_tell(
                eff,
                "Could not save a snapshot of '"@ + old + "'. Nothing was changed."@,
            )
        },
        RenameStage::RenamingOpen(n) => match io_error(ev) {
            Some(m) => next == RenameStage::Telling && is_tell(eff, rename_failed(old, m)),
            None => next is Reopening && holds_new_name(next, n@) && is_goto(
                eff,
                dir,
                n@ + SESSION_EXTENSION@,
            ),
        },
        RenameStage::Reopening(n) => if opened_ok(ev) {
            next == RenameStage::Closing && is_kitten(eff, close_session_args_of(old), false)
        } else {
            next is Undoing && holds_new_name(next, n@) && is_rename(
                eff,
                joined(dir, n@ + SESSION_EXTENSION@),
                old_path,
            )
        },
        RenameStage::Undoing(n) => next == RenameStage::Telling && is_tell(
            eff,
            reopen_failed(old, n@, io_error(ev) is None),
        ),
        RenameStage::Closing => next == RenameStage::Done && is_exit(eff, true),
        RenameStage::Telling => next == RenameStage::Done && is_exit(eff, false),
        RenameStage::Done => next == RenameStage::Done && is_ended(eff),
    }
}

fn rename_failed_text(old: &str, why: &str) -> (t: String)
    ensures
        t@ == rename_failed(old@, why@),
{
    let mut t = String::from_str("Failed to rename '");
    t.append(old);
    t.append("': ");
    t.append(why);
    t.append(".");
    t
}

/// Rename the session file `session` in `dir` to a name the user types: the
/// next request, given where the rename stands and the last answer. It ends
/// reporting whether the picker must exit.
pub fn rename_session(dir: &str, session: &str, stage: RenameStage, event: Event) -> (r: (
    RenameStage,
    Effect,
))
    ensures
        rename_step(dir@, session@, stage, event, r.0, r.1),
{
    let old = session_name_of(session);
    match stage {
        RenameStage::Start => {
            let mut q = String::from_str("Rename '");
            q.append(old.as_str());
            q.append("' to: ");
            (RenameStage::Naming, Effect::Ask(q))
        },
        RenameStage::Naming => {
            let input = line_in(&event);
            let t = trim(input.as_str());
            proof {
                reveal_strlit("");
            }
            if t.as_str().is_empty() {
                return (RenameStage::Done, exit(false));
            }
            match validate_session_name(input.as_str()) {
                Err(reason) => (RenameStage::Telling, tell(reason.as_str())),
                Ok(new) => {
                    if chars_eq(&chars_of(new.as_str()), &chars_of(old.as_str())) {
                        (RenameStage::Done, exit(false))
                    } else {
                        let path = join_path(dir, session_filename(new.as_str()).as_str());
                        (RenameStage::CheckingTaken(new), Effect::Exists(path))
                    }
                },
            }
        },
        RenameStage::CheckingTaken(new) => {
            if flag_in(&event) {
                let mut m = String::from_str("'");
                m.append(new.as_str());
                m.append("' already exists.");
                (RenameStage::Telling, tell(m.as_str()))
            } else {
                let q = match_tab_args(session_match(old.as_str()).as_str());
                (RenameStage::CheckingOpen(new), kitten(q, false))
            }
        },
        RenameStage::CheckingOpen(new) => {
            if ran_ok_in(&event) {
                let mut w = String::from_str("Renaming '");
                w.append(old.as_str());
                w.append("' to '");
                w.append(new.as_str());
                w.append(
                    "' closes its open tabs and re-opens them from a saved snapshot. Running programs are started again and scrollback is lost. Continue? [y/N]: ",
                );
                (RenameStage::Confirming(new), Effect::Ask(w))
            } else {
                let from = join_path(dir, session);
                let to = join_path(dir, session_filename(new.as_str()).as_str());
                (RenameStage::RenamingClosed(new), Effect::Rename { from, to })
            }
        },
        RenameStage::RenamingClosed(_) => match io_error_in(&event) {
            Some(err) => (
                RenameStage::Telling,
                tell(rename_failed_text(old.as_str(), err.as_str()).as_str()),
            ),
            None => (RenameStage::Done, exit(false)),
        },
        RenameStage::Confirming(new) => {
            if answer_is_yes(line_in(&event).as_str()) {
                (
                    RenameStage::Snapshotting(new),
                    Effect::Snapshot {
                        dir: String::from_str(dir),
                        name: old,
                        session: String::from_str(session),
                    },
                )
            } else {
                (RenameStage::Done, exit(false))
            }
        },
        RenameStage::Snapshotting(new) => {
            if flag_in(&event) {
                let from = join_path(dir, session);
                let to = join_path(dir, session_filename(new.as_str()).as_str());
                (RenameStage::RenamingOpen(new), Effect::Rename { from, to })
            } else {
                let mut m = String::from_str("Could not save a snapshot of '");
                m.append(old.as_str());
                m.append("'. Nothing was changed.");
                (RenameStage::Telling, tell(m.as_str()))
            }
        },
        RenameStage::RenamingOpen(new) => match io_error_in(&event) {
            Some(err) => (
                RenameStage::Telling,
                tell(rename_failed_text(old.as_str(), err.as_str()).as_str()),
            ),
            None => {
                let filename = session_filename(new.as_str());
                (
                    RenameStage::Reopening(new),
                    Effect::Goto { dir: String::from_str(dir), session: filename },
                )
            },
        },
        RenameStage::Reopening(new) => {
            if opened_ok_in(&event) {
                (RenameStage::Closing, kitten(close_session_args(old.as_str()), false))
            } else {
                let from = join_path(dir, session_filename(new.as_str()).as_str());
                let to = join_path(dir, session);
                (RenameStage::Undoing(new), Effect::Rename { from, to })
            }
        },
        RenameStage::Undoing(new) => {
            let undone = io_error_in(&event).is_none();
            let mut m = String::from_str("Could not open '");
            m.append(new.as_str());
            m.append("'. ");
            if undone {
                m.append("The rename was undone and '");
                m.append(old.as_str());
                m.append("' is unchanged.");
            } else {
                m.append("Its file is now '");
                m.append(session_filename(new.as_str()).as_str());
                m.append("'; '");
                m.append(old.as_str());
                m.append("' is still open.");
            }
            assert(m@ =~= reopen_failed(old@, new@, undone));
            (RenameStage::Telling, tell(m.as_str()))
        },
        RenameStage::Closing => (RenameStage::Done, exit(true)),
        RenameStage::Telling => (RenameStage::Done, exit(false)),
        RenameStage::Done => (RenameStage::Done, Effect::Finish(Outcome::Ended)),
    }
}

} // verus!

verus! {

/// The old session's tabs are closed only once the renamed session was
/// confirmed open: the close is requested only right after a successful switch.
pub proof fn law_rename_closes_old_only_after_reopen(
    dir: Seq<char>,
    session: Seq<char>,
    stage: RenameStage,
    ev: Event,
    next: RenameStage,
    eff: Effect,
)
    requires
        rename_step(dir, session, stage, ev, next, eff),
        is_kitten(eff, close_session_args_of(without_extensions(session)), false),
    ensures
        stage is Reopening,
        opened_ok(ev),
{
    reveal_strlit("action");
    reveal_strlit("ls");
    let old = without_extensions(session);
    if stage is CheckingTaken && !flag_of(ev) {
        assert("action"@.len() != "ls"@.len());
        assert(match_tab_args_of(session_match_of(old))[1] == "ls"@);
        assert(close_session_args_of(old)[1] == "action"@);
        assert(views(eff->args@) == close_session_args_of(old));
    }
}

/// A switch to the renamed session that fails makes the rename undo itself:
/// the file is renamed back to its old name.
pub proof fn law_rename_undone_when_reopen_fails(
    dir: Seq<char>,
    session: Seq<char>,
    new: String,
    ev: Event,
    next: RenameStage,
    eff: Effect,
)
    requires
        rename_step(dir, session, RenameStage::Reopening(new), ev, next, eff),
        !opened_ok(ev),
    ensures
        is_rename(eff, joined(dir, new@ + SESSION_EXTENSION@), joined(dir, session)),
{
}

/// Which stages carry a new name, and that name is one the rules accept and
/// differs from the old name.
pub open spec fn rename_stage_ok(session: Seq<char>, stage: RenameStage) -> bool {
    match stage {
        RenameStage::CheckingTaken(n) => is_valid_name(n@) && n@ != without_extensions(session),
        RenameStage::CheckingOpen(n) => is_valid_name(n@) && n@ != without_extensions(session),
        RenameStage::RenamingClosed(n) => is_valid_name(n@) && n@ != without_extensions(session),
        RenameStage::Confirming(n) => is_valid_name(n@) && n@ != without_extensions(session),
        RenameStage::Snapshotting(n) => is_valid_name(n@) && n@ != without_extensions(session),
        RenameStage::RenamingOpen(n) => is_valid_name(n@) && n@ != without_extensions(session),
        RenameStage::Reopening(n) => is_valid_name(n@) && n@ != without_extensions(session),
        RenameStage::Undoing(n) => is_valid_name(n@) && n@ != without_extensions(session),
        _ => true,
    }
}

/// Every step of a rename keeps [`rename_stage_ok`]: a rename only ever works
/// with an accepted new name that differs from the old one.
pub proof fn law_rename_keeps_valid_new_name(
    dir: Seq<char>,
    session: Seq<char>,
    stage: RenameStage,
    ev: Event,
    next: RenameStage,
    eff: Effect,
)
    requires
        rename_stage_ok(session, stage),
        rename_step(dir, session, stage, ev, next, eff),
    ensures
        rename_stage_ok(session, next),
{
}

/// A file is renamed only where the flow allows it: a session without open
/// tabs after the name was checked, an open session after the user confirmed
/// and its snapshot was saved, or back to the old name after the switch failed.
pub proof fn law_rename_file_changes(
    dir: Seq<char>,
    session: Seq<char>,
    stage: RenameStage,
    ev: Event,
    next: RenameStage,
    eff: Effect,
)
    requires
        rename_step(dir, session, stage, ev, next, eff),
        eff is Rename,
    ensures
        (stage is CheckingOpen && !ran_ok(ev)) || (stage is Snapshotting && flag_of(ev)) || (
        stage is Reopening && !opened_ok(ev)),
{
}

/// The picker exits after a rename only when the old session's tabs were
/// closed, which happens only after the renamed session was open.
pub proof fn law_rename_exits_only_after_close(
    dir: Seq<char>,
    session: Seq<char>,
    stage: RenameStage,
    ev: Event,
    next: RenameStage,
    eff: Effect,
)
    requires
        rename_step(dir, session, stage, ev, next, eff),
        is_exit(eff, true),
    ensures
        stage is Closing,
{
}

} // verus!

verus! {

/// Only `y` and `Y` mean yes; every other answer, `N`, `yes` or an empty
/// line among them, means no.
pub proof fn law_yes_is_only_y(answer: Seq<char>)
    ensures
        is_yes(answer) <==> (answer == seq!['y'] || answer == seq!['Y']),
{
    reveal_strlit("y");
    reveal_strlit("Y");
    if answer == seq!['y'] {
        assert(answer =~= "y"@);
    }
    if answer == seq!['Y'] {
        assert(answer =~= "Y"@);
    }
    if answer == "y"@ {
        assert(answer =~= seq!['y']);
    }
    if answer == "Y"@ {
        assert(answer =~= seq!['Y']);
    }
}

/// When the restart of an open session is not confirmed with `y` or `Y`,
/// the rename ends without saving a snapshot or touching any file.
pub proof fn law_rename_needs_yes(
    dir: Seq<char>,
    session: Seq<char>,
    new: String,
    ev: Event,
    next: RenameStage,
    eff: Effect,
)
    requires
        rename_step(dir, session, RenameStage::Confirming(new), ev, next, eff),
        line_of(ev) != seq!['y'],
        line_of(ev) != seq!['Y'],
    ensures
        next is Done,
        is_exit(eff, false),
{
    law_yes_is_only_y(line_of(ev));
}

} // verus!
