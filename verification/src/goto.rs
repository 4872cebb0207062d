//! Switching kitty to a saved session. `kitten @ action goto_session` exits
//! with success even when it did nothing, so success is decided from kitty's
//! state: the user must end up focused in that session.
use vstd::prelude::*;

use crate::flow::{
    is_ended, is_kitten, is_opened, kitten, ran_ok, ran_ok_in, Effect, Event, Outcome, Run,
};
use crate::kitty::{
    focused_match, focused_match_of, goto_session_args, goto_session_args_of, match_tab_args,
    match_tab_args_of,
};
use crate::listing::{join_path, joined};
use crate::names::{session_name_of, without_extensions};
use crate::text::{trim, trimmed};

verus! {

/// How many times kitty's state is checked again after the first check.
pub const POLL_RETRIES: u32 = 10;

/// How long to wait between two checks, in milliseconds.
pub const POLL_INTERVAL_MS: u64 = 100;

/// Where a switch stands.
#[derive(Debug, PartialEq, Eq)]
pub enum GotoStage {
    /// Nothing done yet.
    Start,
    /// `goto_session` was run.
    Switching,
    /// kitty's state was queried after this many waits.
    Checking(u32),
    /// Waiting after the check with this number.
    Waiting(u32),
    /// Over.
    Done,
}

/// The error text for a switch to `name` that did not happen.
pub open spec fn not_opened(name: Seq<char>, why: Seq<char>) -> Seq<char> {
    "Could not open '"@ + name + "': "@ + why
}

/// What the switch to the session file `session` in `dir` does next.
pub open spec fn goto_step(
    dir: Seq<char>,
    session: Seq<char>,
    stage: GotoStage,
    ev: Event,
    next: GotoStage,
    eff: Effect,
) -> bool {
    let name = without_extensions(session);
    let check = match_tab_args_of(focused_match_of(name));
    match stage {
        GotoStage::Start => next == GotoStage::Switching && is_kitten(
            eff,
            goto_session_args_of(joined(dir, session)),
            true,
        ),
        GotoStage::Switching => match ev {
            Event::Ran(Run::NotStarted(m)) => next == GotoStage::Done && is_opened(
                eff,
                Some("Could not run kitten: "@ + m@ + "."@),
            ),
            Event::Ran(Run::Exited { success: true, .. }) => next == GotoStage::Checking(0)
                && is_kitten(eff, check, false),
            Event::Ran(Run::Exited { success: false, stderr }) => next == GotoStage::Done
                && is_opened(eff, Some(not_opened(name, trimmed(stderr@)))),
            _ => next == GotoStage::Done && is_opened(eff, Some(not_opened(name, seq![]))),
        },
        GotoStage::Checking(k) => if ran_ok(ev) {
            next == GotoStage::Done && is_opened(eff, None)
        } else if k < POLL_RETRIES {
            next == GotoStage::Waiting(k) && eff == Effect::Sleep(POLL_INTERVAL_MS)
        } else {
            next == GotoStage::Done && is_opened(
                eff,
                Some(not_opened(name, "kitty did not switch to it."@)),
            )
        },
        GotoStage::Waiting(k) => next == GotoStage::Checking(
            if k < POLL_RETRIES {
                (k + 1) as u32
            } else {
                POLL_RETRIES
            },
        ) && is_kitten(eff, check, false),
        GotoStage::Done => next == GotoStage::Done && is_ended(eff),
    }
}

fn not_opened_text(name: &str, why: &str) -> (t: String)
    ensures
        t@ == not_opened(name@, why@),
{
    let mut t = String::from_str("Could not open '");
    t.append(name);
    t.append("': ");
    t.append(why);
    t
}

/// Switch to the session file `session` in `dir`: the next request, given
/// where the switch stands and the answer to the last request.
pub fn goto_session(dir: &str, session: &str, stage: GotoStage, event: Event) -> (r: (
    GotoStage,
    Effect,
))
    ensures
        goto_step(dir@, session@, stage, event, r.0, r.1),
{
    let name = session_name_of(session);
    match stage {
        GotoStage::Start => {
            let path = join_path(dir, session);
            (GotoStage::Switching, kitten(goto_session_args(path.as_str()), true))
        },
        GotoStage::Switching => match event {
            Event::Ran(Run::NotStarted(m)) => {
                let mut t = String::from_str("Could not run kitten: ");
                t.append(m.as_str());
                t.append(".");
                (GotoStage::Done, Effect::Finish(Outcome::Opened(Err(t))))
            },
            Event::Ran(Run::Exited { success, stderr }) => {
                if success {
                    let check = match_tab_args(focused_match(name.as_str()).as_str());
                    (GotoStage::Checking(0), kitten(check, false))
                } else {
                    let why = trim(stderr.as_str());
                    (
                        GotoStage::Done,
                        Effect::Finish(
                            Outcome::Opened(Err(not_opened_text(name.as_str(), why.as_str()))),
                        ),
                    )
                }
            },
            _ => {
                proof {
                    reveal_strlit("");
                }
                (
                    GotoStage::Done,
                    Effect::Finish(Outcome::Opened(Err(not_opened_text(name.as_str(), "")))),
                )
            },
        },
        GotoStage::Checking(k) => {
            if ran_ok_in(&event) {
                (GotoStage::Done, Effect::Finish(Outcome::Opened(Ok(()))))
            } else if k < POLL_RETRIES {
                (GotoStage::Waiting(k), Effect::Sleep(POLL_INTERVAL_MS))
            } else {
                let t = not_opened_text(name.as_str(), "kitty did not switch to it.");
                (GotoStage::Done, Effect::Finish(Outcome::Opened(Err(t))))
            }
        },
        GotoStage::Waiting(k) => {
            let n = if k < POLL_RETRIES {
                k + 1
            } else {
                POLL_RETRIES
            };
            let check = match_tab_args(focused_match(name.as_str()).as_str());
            (GotoStage::Checking(n), kitten(check, false))
        },
        GotoStage::Done => (GotoStage::Done, Effect::Finish(Outcome::Ended)),
    }
}

} // verus!

verus! {

/// A switch is reported done only when kitty's state says the user is in the
/// session: right after a successful check, never from `goto_session`'s exit code.
pub proof fn law_goto_succeeds_only_on_state(
    dir: Seq<char>,
    session: Seq<char>,
    stage: GotoStage,
    ev: Event,
    next: GotoStage,
    eff: Effect,
)
    requires
        goto_step(dir, session, stage, ev, next, eff),
        is_opened(eff, None),
    ensures
        stage is Checking,
        ran_ok(ev),
{
}

/// kitty's state is checked at most `POLL_RETRIES + 1` times: a failed check
/// after the last wait ends the switch with an error.
pub proof fn law_goto_gives_up(
    dir: Seq<char>,
    session: Seq<char>,
    ev: Event,
    next: GotoStage,
    eff: Effect,
)
    requires
        goto_step(dir, session, GotoStage::Checking(POLL_RETRIES), ev, next, eff),
        !ran_ok(ev),
    ensures
        next is Done,
        is_opened(
            eff,
            Some(not_opened(without_extensions(session), "kitty did not switch to it."@)),
        ),
{
}

/// The stage counts at most `POLL_RETRIES` waits.
pub open spec fn goto_stage_ok(stage: GotoStage) -> bool {
    match stage {
        GotoStage::Checking(k) => k <= POLL_RETRIES,
        GotoStage::Waiting(k) => k < POLL_RETRIES,
        _ => true,
    }
}

/// Every step of a switch keeps [`goto_stage_ok`], so the waits are bounded.
pub proof fn law_goto_waits_bounded(
    dir: Seq<char>,
    session: Seq<char>,
    stage: GotoStage,
    ev: Event,
    next: GotoStage,
    eff: Effect,
)
    requires
        goto_stage_ok(stage),
        goto_step(dir, session, stage, ev, next, eff),
    ensures
        goto_stage_ok(next),
{
}

} // verus!

verus! {

/// Every check of a switch, the first and each one after a wait, asks kitty
/// whether the focused tab belongs to the session: `kitten @ ls --match-tab
/// 'state:focused and session:^<escaped name>$'`. Together with
/// [`law_goto_succeeds_only_on_state`], a switch is reported done only when
/// the user is focused in that session.
pub proof fn law_goto_checks_focus(
    dir: Seq<char>,
    session: Seq<char>,
    stage: GotoStage,
    ev: Event,
    next: GotoStage,
    eff: Effect,
)
    requires
        goto_step(dir, session, stage, ev, next, eff),
        next is Checking,
    ensures
        is_kitten(
            eff,
            seq![
                "@"@,
                "ls"@,
                "--match-tab"@,
                "state:focused and "@ + "session:^"@ + crate::kitty::escaped(
                    without_extensions(session),
                ) + "$"@,
            ],
            false,
        ),
{
    let name = without_extensions(session);
    assert(focused_match_of(name) =~= "state:focused and "@ + "session:^"@
        + crate::kitty::escaped(name) + "$"@);
}

} // verus!
