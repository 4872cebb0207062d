//! Moving between tabs: to a tab outside every session, and away from a session.
use vstd::prelude::*;

use crate::flow::{
    is_ended, is_kitten, is_opened, kitten, not_opened_because, ran_ok, ran_ok_in,
    run_failed, run_failed_text, Effect, Event, Outcome, Run,
};
use crate::kitty::{
    elsewhere_match, elsewhere_match_of, focus_tab_args, focus_tab_args_of, focused_match,
    focused_match_of, goto_previous_args, goto_previous_args_of, launch_tab_args,
    launch_tab_args_of, match_tab_args, match_tab_args_of, no_session_match_of,
};
use crate::listing::views;
use crate::text::{trim, trimmed};

verus! {

/// Where the move to a session-less tab stands.
#[derive(Debug, PartialEq, Eq)]
pub enum NoSessionStage {
    /// Nothing done yet.
    Start,
    /// Asked whether a tab outside every session exists.
    Looking,
    /// Opening a new tab outside every session.
    Launching,
    /// Focusing a tab outside every session.
    Focusing,
    /// Over.
    Done,
}

/// What the move to a tab that belongs to no session does next: focus one,
/// creating it first when none exists. `session:^$` matches tabs not created
/// in a session; the active tab is always shown by `tab_bar_filter`.
pub open spec fn no_session_step(
    stage: NoSessionStage,
    ev: Event,
    next: NoSessionStage,
    eff: Effect,
) -> bool {
    let focus = focus_tab_args_of(no_session_match_of());
    match stage {
        NoSessionStage::Start => next == NoSessionStage::Looking && is_kitten(
            eff,
            match_tab_args_of(no_session_match_of()),
            false,
        ),
        NoSessionStage::Looking => if ran_ok(ev) {
            next == NoSessionStage::Focusing && is_kitten(eff, focus, false)
        } else {
            next == NoSessionStage::Launching && is_kitten(eff, launch_tab_args_of(), true)
        },
        NoSessionStage::Launching => match ev {
            Event::Ran(Run::NotStarted(m)) => next == NoSessionStage::Done && is_opened(
                eff,
                Some(run_failed(m@)),
            ),
            Event::Ran(Run::Exited { success: true, .. }) => next == NoSessionStage::Focusing
                && is_kitten(eff, focus, false),
            Event::Ran(Run::Exited { success: false, stderr }) => next == NoSessionStage::Done
                && is_opened(eff, Some("Could not create a tab: "@ + trimmed(stderr@))),
            _ => next == NoSessionStage::Done && is_opened(
                eff,
                Some("Could not create a tab: "@),
            ),
        },
        NoSessionStage::Focusing => match ev {
            Event::Ran(Run::NotStarted(m)) => next == NoSessionStage::Done && is_opened(
                eff,
                Some(run_failed(m@)),
            ),
            Event::Ran(Run::Exited { success: true, .. }) => next == NoSessionStage::Done
                && is_opened(eff, None),
            _ => next == NoSessionStage::Done && is_opened(
                eff,
                Some("Could not go to a tab outside the sessions."@),
            ),
        },
        NoSessionStage::Done => next == NoSessionStage::Done && is_ended(eff),
    }
}

/// Go to a tab that belongs to no session, creating one when none exists:
/// the next request, given where the move stands and the last answer.
pub fn goto_no_session(stage: NoSessionStage, event: Event) -> (r: (NoSessionStage, Effect))
    ensures
        no_session_step(stage, event, r.0, r.1),
{
    match stage {
        NoSessionStage::Start => (
            NoSessionStage::Looking,
            kitten(match_tab_args("session:^$"), false),
        ),
        NoSessionStage::Looking => {
            if ran_ok_in(&event) {
                (NoSessionStage::Focusing, kitten(focus_tab_args("session:^$"), false))
            } else {
                (NoSessionStage::Launching, kitten(launch_tab_args(), true))
            }
        },
        NoSessionStage::Launching => match event {
            Event::Ran(Run::NotStarted(m)) => (
                NoSessionStage::Done,
                not_opened_because(run_failed_text(m.as_str())),
            ),
            Event::Ran(Run::Exited { success, stderr }) => {
                if success {
                    (NoSessionStage::Focusing, kitten(focus_tab_args("session:^$"), false))
                } else {
                    let mut t = String::from_str("Could not create a tab: ");
                    t.append(trim(stderr.as_str()).as_str());
                    (NoSessionStage::Done, not_opened_because(t))
                }
            },
            _ => (
                NoSessionStage::Done,
                not_opened_because(String::from_str("Could not create a tab: ")),
            ),
        },
        NoSessionStage::Focusing => match event {
            Event::Ran(Run::NotStarted(m)) => (
                NoSessionStage::Done,
                not_opened_because(run_failed_text(m.as_str())),
            ),
            Event::Ran(Run::Exited { success: true, .. }) => (
                NoSessionStage::Done,
                Effect::Finish(Outcome::Opened(Ok(()))),
            ),
            _ => (
                NoSessionStage::Done,
                not_opened_because(
                    String::from_str("Could not go to a tab outside the sessions."),
                ),
            ),
        },
        NoSessionStage::Done => (NoSessionStage::Done, Effect::Finish(Outcome::Ended)),
    }
}

/// Where the move away from a session stands.
#[derive(Debug, PartialEq, Eq)]
pub enum MoveAwayStage {
    /// Nothing done yet.
    Start,
    /// Asked kitty for the previous session.
    Back,
    /// Asked whether the user is still in the session.
    FirstCheck,
    /// Focusing a tab outside every session.
    FocusFree,
    /// Asked again whether the user is still in the session.
    SecondCheck,
    /// Focusing any other tab.
    FocusOther,
    /// Over.
    Done,
}

/// What the move away from the session `name` does next: previous session
/// first, then a session-less tab, then any other tab, stopping as soon as the
/// user is no longer in `name`. `goto_session -1` silently does nothing when
/// kitty has no session history.
pub open spec fn move_away_step(
    name: Seq<char>,
    stage: MoveAwayStage,
    ev: Event,
    next: MoveAwayStage,
    eff: Effect,
) -> bool {
    let check = match_tab_args_of(focused_match_of(name));
    match stage {
        MoveAwayStage::Start => next == MoveAwayStage::Back && is_kitten(
            eff,
            goto_previous_args_of(),
            false,
        ),
        MoveAwayStage::Back => next == MoveAwayStage::FirstCheck && is_kitten(eff, check, false),
        MoveAwayStage::FirstCheck => if ran_ok(ev) {
            next == MoveAwayStage::FocusFree && is_kitten(
                eff,
                focus_tab_args_of(no_session_match_of()),
                false,
            )
        } else {
            next == MoveAwayStage::Done && is_ended(eff)
        },
        MoveAwayStage::FocusFree => next == MoveAwayStage::SecondCheck && is_kitten(
            eff,
            check,
            false,
        ),
        MoveAwayStage::SecondCheck => if ran_ok(ev) {
            next == MoveAwayStage::FocusOther && is_kitten(
                eff,
                focus_tab_args_of(elsewhere_match_of(name)),
                false,
            )
        } else {
            next == MoveAwayStage::Done && is_ended(eff)
        },
        MoveAwayStage::FocusOther => next == MoveAwayStage::Done && is_ended(eff),
        MoveAwayStage::Done => next == MoveAwayStage::Done && is_ended(eff),
    }
}

/// Leave the session `name`: the next request, given where the move stands
/// and the last answer.
pub fn move_away_from(name: &str, stage: MoveAwayStage, event: Event) -> (r: (
    MoveAwayStage,
    Effect,
))
    ensures
        move_away_step(name@, stage, event, r.0, r.1),
{
    match stage {
        MoveAwayStage::Start => (MoveAwayStage::Back, kitten(goto_previous_args(), false)),
        MoveAwayStage::Back => (
            MoveAwayStage::FirstCheck,
            kitten(match_tab_args(focused_match(name).as_str()), false),
        ),
        MoveAwayStage::FirstCheck => {
            if ran_ok_in(&event) {
                (MoveAwayStage::FocusFree, kitten(focus_tab_args("session:^$"), false))
            } else {
                (MoveAwayStage::Done, Effect::Finish(Outcome::Ended))
            }
        },
        MoveAwayStage::FocusFree => (
            MoveAwayStage::SecondCheck,
            kitten(match_tab_args(focused_match(name).as_str()), false),
        ),
        MoveAwayStage::SecondCheck => {
            if ran_ok_in(&event) {
                (
                    MoveAwayStage::FocusOther,
                    kitten(focus_tab_args(elsewhere_match(name).as_str()), false),
                )
            } else {
                (MoveAwayStage::Done, Effect::Finish(Outcome::Ended))
            }
        },
        MoveAwayStage::FocusOther => (MoveAwayStage::Done, Effect::Finish(Outcome::Ended)),
        MoveAwayStage::Done => (MoveAwayStage::Done, Effect::Finish(Outcome::Ended)),
    }
}

} // verus!

verus! {

/// A new session-less tab is opened only when the query found none, so
/// repeated use does not pile up tabs.
pub proof fn law_no_session_launches_only_when_missing(
    stage: NoSessionStage,
    ev: Event,
    next: NoSessionStage,
    eff: Effect,
)
    requires
        no_session_step(stage, ev, next, eff),
        is_kitten(eff, launch_tab_args_of(), true),
    ensures
        stage is Looking,
        !ran_ok(ev),
{
    reveal_strlit("launch");
    reveal_strlit("ls");
    reveal_strlit("focus-tab");
    assert("launch"@.len() != "ls"@.len());
    assert("launch"@.len() != "focus-tab"@.len());
    assert(views(eff->args@) == launch_tab_args_of());
}

/// Moving away falls back to any other tab only when the user is still in
/// the session after both the previous session and a session-less tab were tried.
pub proof fn law_move_away_last_resort(
    name: Seq<char>,
    stage: MoveAwayStage,
    ev: Event,
    next: MoveAwayStage,
    eff: Effect,
)
    requires
        move_away_step(name, stage, ev, next, eff),
        next is FocusOther,
    ensures
        stage is SecondCheck,
        ran_ok(ev),
        is_kitten(eff, focus_tab_args_of(elsewhere_match_of(name)), false),
{
}

} // verus!
