//! Creating a new session from a typed name.
use vstd::prelude::*;

use crate::flow::{
    exit, flag_in, flag_of, io_error, io_error_in, is_ask, is_create_file, is_ended, is_exists,
    is_exit, is_goto, is_tell, line_in, line_of, opened_error, opened_error_in, opened_ok,
    opened_ok_in, tell, Effect, Event, Outcome,
};
use crate::listing::{join_path, joined};
use crate::names::{
    is_valid_name, refusal, session_filename, validate_session_name, SESSION_EXTENSION,
};
use crate::text::{trim, trimmed};

verus! {

/// What a new session file holds: one tab running the configured shell.
/// The `kitty-unserialize-data` form in saved sessions is for restoring
/// existing windows and must not be used here.
pub open spec fn new_session_contents() -> Seq<char> {
    "new_tab\nlaunch\n"@
}

/// Where the creation of a session stands.
#[derive(Debug, PartialEq, Eq)]
pub enum CreateStage {
    /// Nothing done yet.
    Start,
    /// Asked for the name.
    Naming,
    /// Asked whether the file of the accepted name exists.
    CheckingTaken(String),
    /// Writing the file of the name.
    Writing(String),
    /// Switching to the new session.
    Opening(String),
    /// Telling the user why nothing more happens.
    Telling,
    /// Over.
    Done,
}

/// The stage holds the name `name`.
pub open spec fn holds_name(stage: CreateStage, name: Seq<char>) -> bool {
    match stage {
        CreateStage::CheckingTaken(n) => n@ == name,
        CreateStage::Writing(n) => n@ == name,
        CreateStage::Opening(n) => n@ == name,
        _ => false,
    }
}

/// What creating a session in `dir` does next. The picker must exit only when
/// the session was created and switched to.
pub open spec fn create_step(
    dir: Seq<char>,
    stage: CreateStage,
    ev: Event,
    next: CreateStage,
    eff: Effect,
) -> bool {
    match stage {
        CreateStage::Start => next == CreateStage::Naming && is_ask(eff, "New session name: "@),
        CreateStage::Naming => {
            let t = trimmed(line_of(ev));
            if t.len() == 0 {
                next == CreateStage::Done && is_exit(eff, false)
            } else {
                match refusal(t) {
                    Some(reason) => next == CreateStage::Telling && is_tell(eff, reason),
                    None => next is CheckingTaken && holds_name(next, t) && is_exists(
                        eff,
                        joined(dir, t + SESSION_EXTENSION@),
                    ),
                }
            }
        },
        CreateStage::CheckingTaken(n) => if flag_of(ev) {
            next == CreateStage::Telling && is_tell(
                eff,
                "Session '"@ + n@ + "' already exists."@,
            )
        } else {
            next is Writing && holds_name(next, n@) && is_create_file(
                eff,
                dir,
                joined(dir, n@ + SESSION_EXTENSION@),
                new_session_contents(),
            )
        },
        CreateStage::Writing(n) => match io_error(ev) {
            Some(m) => next == CreateStage::Telling && is_tell(
                eff,
                "Failed to create '"@ + n@ + SESSION_EXTENSION@ + "': "@ + m + "."@,
            ),
            None => next is Opening && holds_name(next, n@) && is_goto(
                eff,
                dir,
                n@ + SESSION_EXTENSION@,
            ),
        },
        CreateStage::Opening(n) => if opened_ok(ev) {
            next == CreateStage::Done && is_exit(eff, true)
        } else {
            next == CreateStage::Telling && is_tell(
                eff,
                "Session '"@ + n@ + "' was created but could not be opened. "@ + opened_error(ev),
            )
        },
        CreateStage::Telling => next == CreateStage::Done && is_exit(eff, false),
        CreateStage::Done => next == CreateStage::Done && is_ended(eff),
    }
}

/// Create a session in `dir` from a name the user types: the next request,
/// given where the creation stands and the last answer. It ends reporting
/// whether the picker must exit: the session was created and switched to.
pub fn create_session(dir: &str, stage: CreateStage, event: Event) -> (r: (CreateStage, Effect))
    ensures
        create_step(dir@, stage, event, r.0, r.1),
{
    match stage {
        CreateStage::Start => (
            CreateStage::Naming,
            Effect::Ask(String::from_str("New session name: ")),
        ),
        CreateStage::Naming => {
            let input = line_in(&event);
            let t = trim(input.as_str());
            proof {
                reveal_strlit("");
            }
            if t.as_str().is_empty() {
                return (CreateStage::Done, exit(false));
            }
            match validate_session_name(input.as_str()) {
                Err(reason) => (CreateStage::Telling, tell(reason.as_str())),
                Ok(name) => {
                    let filename = session_filename(name.as_str());
                    let path = join_path(dir, filename.as_str());
                    (CreateStage::CheckingTaken(name), Effect::Exists(path))
                },
            }
        },
        CreateStage::CheckingTaken(name) => {
            if flag_in(&event) {
                let mut m = String::from_str("Session '");
                m.append(name.as_str());
                m.append("' already exists.");
                (CreateStage::Telling, tell(m.as_str()))
            } else {
                let filename = session_filename(name.as_str());
                let path = join_path(dir, filename.as_str());
                (
                    CreateStage::Writing(name),
                    Effect::CreateFile {
                        dir: String::from_str(dir),
                        path,
                        contents: String::from_str("new_tab\nlaunch\n"),
                    },
                )
            }
        },
        CreateStage::Writing(name) => {
            let filename = session_filename(name.as_str());
            match io_error_in(&event) {
                Some(err) => {
                    let mut m = String::from_str("Failed to create '");
                    m.append(filename.as_str());
                    m.append("': ");
                    m.append(err.as_str());
                    m.append(".");
                    assert(m@ =~= "Failed to create '"@ + name@ + SESSION_EXTENSION@ + "': "@
                        + err@ + "."@);
                    (CreateStage::Telling, tell(m.as_str()))
                },
                None => (
                    CreateStage::Opening(name),
                    Effect::Goto { dir: String::from_str(dir), session: filename },
                ),
            }
        },
        CreateStage::Opening(name) => {
            if opened_ok_in(&event) {
                (CreateStage::Done, exit(true))
            } else {
                let mut m = String::from_str("Session '");
                m.append(name.as_str());
                m.append("' was created but could not be opened. ");
                m.append(opened_error_in(&event).as_str());
                (CreateStage::Telling, tell(m.as_str()))
            }
        },
        CreateStage::Telling => (CreateStage::Done, exit(false)),
        CreateStage::Done => (CreateStage::Done, Effect::Finish(Outcome::Ended)),
    }
}

} // verus!

verus! {

/// The stages that hold a name hold one the rules accept.
pub open spec fn create_stage_ok(stage: CreateStage) -> bool {
    match stage {
        CreateStage::CheckingTaken(n) => is_valid_name(n@),
        CreateStage::Writing(n) => is_valid_name(n@),
        CreateStage::Opening(n) => is_valid_name(n@),
        _ => true,
    }
}

/// Every step of a creation keeps [`create_stage_ok`]: it only ever works
/// with a name the rules accept.
pub proof fn law_create_keeps_valid_name(
    dir: Seq<char>,
    stage: CreateStage,
    ev: Event,
    next: CreateStage,
    eff: Effect,
)
    requires
        create_stage_ok(stage),
        create_step(dir, stage, ev, next, eff),
    ensures
        create_stage_ok(next),
{
}

/// A session file is written only for an accepted name whose file was found
/// not to exist, so an existing session is never overwritten.
pub proof fn law_create_writes_only_new_files(
    dir: Seq<char>,
    stage: CreateStage,
    ev: Event,
    next: CreateStage,
    eff: Effect,
)
    requires
        create_stage_ok(stage),
        create_step(dir, stage, ev, next, eff),
        eff is CreateFile,
    ensures
        stage is CheckingTaken,
        !flag_of(ev),
        is_valid_name(stage->CheckingTaken_0@),
        is_create_file(
            eff,
            dir,
            joined(dir, stage->CheckingTaken_0@ + SESSION_EXTENSION@),
            new_session_contents(),
        ),
{
}

/// The picker exits after a creation only when the switch to the new session succeeded.
pub proof fn law_create_exits_only_when_opened(
    dir: Seq<char>,
    stage: CreateStage,
    ev: Event,
    next: CreateStage,
    eff: Effect,
)
    requires
        create_step(dir, stage, ev, next, eff),
        is_exit(eff, true),
    ensures
        stage is Opening,
        opened_ok(ev),
{
}

} // verus!
