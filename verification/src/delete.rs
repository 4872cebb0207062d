//! Deleting a session: its file is removed first, then the user is moved
//! away if they are in it, and its tabs are closed last.
use vstd::prelude::*;

use crate::flow::{
    exit, io_error, io_error_in, is_ask, is_ended, is_exit, is_kitten, is_move_away, is_remove,
    is_tell, kitten, line_in, line_of, ran_ok, ran_ok_in, tell, Effect, Event, Outcome,
};
use crate::kitty::{
    close_session_args, close_session_args_of, elsewhere_match, elsewhere_match_of,
    focused_match, focused_match_of, match_tab_args, match_tab_args_of, session_match,
    session_match_of,
};
use crate::listing::{join_path, joined};
use crate::names::{session_name_of, without_extensions};
use crate::rename::{answer_is_yes, is_yes};

verus! {

/// Where a delete stands; `open` tells whether the session has open tabs,
/// `current` whether the user is in it.
#[derive(Debug, PartialEq, Eq)]
pub enum DeleteStage {
    /// Nothing done yet.
    Start,
    /// Asked whether the session has open tabs.
    QueryOpen,
    /// Asked whether the user is in the session.
    QueryCurrent,
    /// Asked whether a tab outside the session exists to move to.
    QueryElsewhere,
    /// Asked the user to confirm.
    Confirming { open: bool, current: bool },
    /// Removing the file.
    Removing { open: bool, current: bool },
    /// Moving the user away from the session.
    MovingAway { open: bool, current: bool },
    /// Closing the session's tabs.
    Closing { current: bool },
    /// Telling the user why nothing more happens.
    Telling,
    /// Over.
    Done,
}

/// The confirmation question for deleting the session `name`.
pub open spec fn delete_question(name: Seq<char>, open: bool, current: bool) -> Seq<char> {
    "Delete '"@ + name + "'?"@ + (if open {
        " Its open tabs will be closed."@
    } else {
        seq![]
    }) + (if current {
        " You will be moved to the previous session, or to [No Session] if there is none."@
    } else {
        seq![]
    }) + " [y/N]: "@
}

/// What deleting the session file `session` in `dir` does next. Closing the
/// last tabs would quit kitty, so the delete is refused before anything is
/// touched when the user is in the session and no other tab exists. It ends
/// reporting whether the picker must exit: the user was in the deleted session.
pub open spec fn delete_step(
    dir: Seq<char>,
    session: Seq<char>,
    stage: DeleteStage,
    ev: Event,
    next: DeleteStage,
    eff: Effect,
) -> bool {
    let name = without_extensions(session);
    match stage {
        DeleteStage::Start => next == DeleteStage::QueryOpen && is_kitten(
            eff,
            match_tab_args_of(session_match_of(name)),
            false,
        ),
        DeleteStage::QueryOpen => if ran_ok(ev) {
            next == DeleteStage::QueryCurrent && is_kitten(
                eff,
                match_tab_args_of(focused_match_of(name)),
                false,
            )
        } else {
            next == (DeleteStage::Confirming { open: false, current: false }) && is_ask(
                eff,
                delete_question(name, false, false),
            )
        },
        DeleteStage::QueryCurrent => if ran_ok(ev) {
            next == DeleteStage::QueryElsewhere && is_kitten(
                eff,
                match_tab_args_of(elsewhere_match_of(name)),
                false,
            )
        } else {
            next == (DeleteStage::Confirming { open: true, current: false }) && is_ask(
                eff,
                delete_question(name, true, false),
            )
        },
        DeleteStage::QueryElsewhere => if ran_ok(ev) {
            next == (DeleteStage::Confirming { open: true, current: true }) && is_ask(
                eff,
                delete_question(name, true, true),
            )
        } else {
            next == DeleteStage::Telling && is_tell(
                eff,
                "Cannot delete '"@ + name
                    + "': you are in it and there is no other tab to move to."@,
            )
        },
        DeleteStage::Confirming { open, current } => if is_yes(line_of(ev)) {
            next == (DeleteStage::Removing { open, current }) && is_remove(
                eff,
                joined(dir, session),
            )
        } else {
            next == DeleteStage::Done && is_exit(eff, false)
        },
        DeleteStage::Removing { open, current } => match io_error(ev) {
            Some(m) => next == DeleteStage::Telling && is_tell(
                eff,
                "Failed to delete '"@ + name + "': "@ + m + "."@,
            ),
            None => if current {
                next == (DeleteStage::MovingAway { open, current }) && is_move_away(eff, name)
            } else if open {
                next == (DeleteStage::Closing { current }) && is_kitten(
                    eff,
                    close_session_args_of(name),
                    false,
                )
            } else {
                next == DeleteStage::Done && is_exit(eff, current)
            },
        },
        DeleteStage::MovingAway { open, current } => if open {
            next == (DeleteStage::Closing { current }) && is_kitten(
                eff,
                close_session_args_of(name),
                false,
            )
        } else {
            next == DeleteStage::Done && is_exit(eff, current)
        },
        DeleteStage::Closing { current } => next == DeleteStage::Done && is_exit(eff, current),
        DeleteStage::Telling => next == DeleteStage::Done && is_exit(eff, false),
        DeleteStage::Done => next == DeleteStage::Done && is_ended(eff),
    }
}

fn delete_question_text(name: &str, open: bool, current: bool) -> (q: String)
    ensures
        q@ == delete_question(name@, open, current),
{
    proof {
        reveal_strlit("");
    }
    let mut q = String::from_str("Delete '");
    q.append(name);
    q.append("'?");
    if open {
        q.append(" Its open tabs will be closed.");
    }
    if current {
        q.append(
            " You will be moved to the previous session, or to [No Session] if there is none.",
        );
    }
    q.append(" [y/N]: ");
    assert(q@ =~= delete_question(name@, open, current));
    q
}

/// Delete the session file `session` in `dir`: the next request, given where
/// the delete stands and the last answer. It ends reporting whether the
/// picker must exit.
pub fn delete_session(dir: &str, session: &str, stage: DeleteStage, event: Event) -> (r: (
    DeleteStage,
    Effect,
))
    ensures
        delete_step(dir@, session@, stage, event, r.0, r.1),
{
    let name = session_name_of(session);
    match stage {
        DeleteStage::Start => (
            DeleteStage::QueryOpen,
            kitten(match_tab_args(session_match(name.as_str()).as_str()), false),
        ),
        DeleteStage::QueryOpen => {
            if ran_ok_in(&event) {
                (
                    DeleteStage::QueryCurrent,
                    kitten(match_tab_args(focused_match(name.as_str()).as_str()), false),
                )
            } else {
                (
                    DeleteStage::Confirming { open: false, current: false },
                    Effect::Ask(delete_question_text(name.as_str(), false, false)),
                )
            }
        },
        DeleteStage::QueryCurrent => {
            if ran_ok_in(&event) {
                (
                    DeleteStage::QueryElsewhere,
                    kitten(match_tab_args(elsewhere_match(name.as_str()).as_str()), false),
                )
            } else {
                (
                    DeleteStage::Confirming { open: true, current: false },
                    Effect::Ask(delete_question_text(name.as_str(), true, false)),
                )
            }
        },
        DeleteStage::QueryElsewhere => {
            if ran_ok_in(&event) {
                (
                    DeleteStage::Confirming { open: true, current: true },
                    Effect::Ask(delete_question_text(name.as_str(), true, true)),
                )
            } else {
                let mut m = String::from_str("Cannot delete '");
                m.append(name.as_str());
                m.append("': you are in it and there is no other tab to move to.");
                (DeleteStage::Telling, tell(m.as_str()))
            }
        },
        DeleteStage::Confirming { open, current } => {
            if answer_is_yes(line_in(&event).as_str()) {
                (DeleteStage::Removing { open, current }, Effect::Remove(join_path(dir, session)))
            } else {
                (DeleteStage::Done, exit(false))
            }
        },
        DeleteStage::Removing { open, current } => match io_error_in(&event) {
            Some(err) => {
                let mut m = String::from_str("Failed to delete '");
                m.append(name.as_str());
                m.append("': ");
                m.append(err.as_str());
                m.append(".");
                (DeleteStage::Telling, tell(m.as_str()))
            },
            None => {
                if current {
                    (DeleteStage::MovingAway { open, current }, Effect::MoveAway(name))
                } else if open {
                    (
                        DeleteStage::Closing { current },
                        kitten(close_session_args(name.as_str()), false),
                    )
                } else {
                    (DeleteStage::Done, exit(current))
                }
            },
        },
        DeleteStage::MovingAway { open, current } => {
            if open {
                (DeleteStage::Closing { current }, kitten(close_session_args(name.as_str()), false))
            } else {
                (DeleteStage::Done, exit(current))
            }
        },
        DeleteStage::Closing { current } => (DeleteStage::Done, exit(current)),
        DeleteStage::Telling => (DeleteStage::Done, exit(false)),
        DeleteStage::Done => (DeleteStage::Done, Effect::Finish(Outcome::Ended)),
    }
}

} // verus!

verus! {

/// A delete is confirmed for the session the user is in only when a tab
/// outside it exists: otherwise it is refused before anything is touched.
pub proof fn law_delete_current_needs_elsewhere(
    dir: Seq<char>,
    session: Seq<char>,
    stage: DeleteStage,
    ev: Event,
    open: bool,
    eff: Effect,
)
    requires
        delete_step(dir, session, stage, ev, DeleteStage::Confirming { open, current: true }, eff),
    ensures
        stage is QueryElsewhere,
        ran_ok(ev),
        open,
{
}

/// The file is removed only after the user answered yes.
pub proof fn law_delete_removes_only_when_confirmed(
    dir: Seq<char>,
    session: Seq<char>,
    stage: DeleteStage,
    ev: Event,
    next: DeleteStage,
    eff: Effect,
)
    requires
        delete_step(dir, session, stage, ev, next, eff),
        eff is Remove,
    ensures
        stage is Confirming,
        is_yes(line_of(ev)),
        is_remove(eff, joined(dir, session)),
{
}

/// The session's tabs are closed only after its file was removed, and, when
/// the user was in it, after the user was moved away.
pub proof fn law_delete_closes_after_removal(
    dir: Seq<char>,
    session: Seq<char>,
    stage: DeleteStage,
    ev: Event,
    current: bool,
    eff: Effect,
)
    requires
        delete_step(dir, session, stage, ev, DeleteStage::Closing { current }, eff),
    ensures
        (stage is Removing && io_error(ev) is None && !current) || stage is MovingAway,
        is_kitten(eff, close_session_args_of(without_extensions(session)), false),
{
}

/// The picker exits after a delete only when the file was removed and the
/// user was in the deleted session.
pub proof fn law_delete_exits_only_when_current(
    dir: Seq<char>,
    session: Seq<char>,
    stage: DeleteStage,
    ev: Event,
    next: DeleteStage,
    eff: Effect,
)
    requires
        delete_step(dir, session, stage, ev, next, eff),
        is_exit(eff, true),
    ensures
        stage == (DeleteStage::Closing { current: true }) || stage == (DeleteStage::MovingAway {
            open: false,
            current: true,
        }),
{
}

} // verus!

verus! {

/// Which stages a delete can be in: the user is in the session only if it is open.
pub open spec fn delete_stage_ok(stage: DeleteStage) -> bool {
    match stage {
        DeleteStage::Confirming { open, current } => current ==> open,
        DeleteStage::Removing { open, current } => current ==> open,
        DeleteStage::MovingAway { open, current } => current && open,
        _ => true,
    }
}

/// Every step of a delete keeps [`delete_stage_ok`].
pub proof fn law_delete_keeps_stage_ok(
    dir: Seq<char>,
    session: Seq<char>,
    stage: DeleteStage,
    ev: Event,
    next: DeleteStage,
    eff: Effect,
)
    requires
        delete_stage_ok(stage),
        delete_step(dir, session, stage, ev, next, eff),
    ensures
        delete_stage_ok(next),
{
}

/// Once the file of an open session is removed, its tabs are closed next, or
/// first the user is moved away and then they are closed; so the deleted
/// session does not stay loaded and its file does not come back on a later save.
pub proof fn law_delete_closes_open_session(
    dir: Seq<char>,
    session: Seq<char>,
    stage: DeleteStage,
    ev: Event,
    next: DeleteStage,
    eff: Effect,
)
    requires
        delete_stage_ok(stage),
        delete_step(dir, session, stage, ev, next, eff),
        (stage matches DeleteStage::Removing { open, .. } && open && io_error(ev) is None) || (
        stage is MovingAway),
    ensures
        next is Closing ==> is_kitten(eff, close_session_args_of(without_extensions(session)), false),
        next is Closing || (next is MovingAway && is_move_away(eff, without_extensions(session))),
        next is MovingAway ==> stage is Removing,
{
}

} // verus!

verus! {

/// A delete not confirmed with `y` or `Y` ends without removing the file.
pub proof fn law_delete_needs_yes(
    dir: Seq<char>,
    session: Seq<char>,
    open: bool,
    current: bool,
    ev: Event,
    next: DeleteStage,
    eff: Effect,
)
    requires
        delete_step(dir, session, DeleteStage::Confirming { open, current }, ev, next, eff),
        line_of(ev) != seq!['y'],
        line_of(ev) != seq!['Y'],
    ensures
        next is Done,
        is_exit(eff, false),
{
    crate::rename::law_yes_is_only_y(line_of(ev));
}

} // verus!
