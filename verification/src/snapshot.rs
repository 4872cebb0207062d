//! Saving the current state of an open session to its own file.
use vstd::prelude::*;

use crate::flow::{
    exit, is_ended, is_exit, is_kitten, is_modified_time, kitten, ran_ok, ran_ok_in, time_in,
    time_of, Effect, Event, Outcome,
};
use crate::kitty::{save_as_session_args, save_as_session_args_of};
use crate::listing::{join_path, joined};

verus! {

/// Where a snapshot stands.
#[derive(Debug, PartialEq, Eq)]
pub enum SnapshotStage {
    /// Nothing done yet.
    Start,
    /// Asked for the file's modification time before saving.
    Before,
    /// Saving; the modification time found before.
    Saving(Option<i128>),
    /// Asked for the modification time after saving; the one found before.
    After(Option<i128>),
    /// Over.
    Done,
}

/// Whether the file was rewritten, judged by its modification times after and
/// before the save: it must exist afterwards, and be newer when it existed before.
pub open spec fn rewritten(after: Option<i128>, before: Option<i128>) -> bool {
    match (after, before) {
        (Some(a), Some(b)) => a > b,
        (Some(_), None) => true,
        (None, _) => false,
    }
}

/// What the snapshot of the session `name` to its file `session` in `dir`
/// does next. `kitten @ action` may report success even when nothing matched,
/// so success means the file was actually rewritten.
pub open spec fn snapshot_step(
    dir: Seq<char>,
    name: Seq<char>,
    session: Seq<char>,
    stage: SnapshotStage,
    ev: Event,
    next: SnapshotStage,
    eff: Effect,
) -> bool {
    let path = joined(dir, session);
    match stage {
        SnapshotStage::Start => next == SnapshotStage::Before && is_modified_time(eff, path),
        SnapshotStage::Before => next == SnapshotStage::Saving(time_of(ev)) && is_kitten(
            eff,
            save_as_session_args_of(dir, name, session),
            false,
        ),
        SnapshotStage::Saving(before) => if ran_ok(ev) {
            next == SnapshotStage::After(before) && is_modified_time(eff, path)
        } else {
            next == SnapshotStage::Done && is_exit(eff, false)
        },
        SnapshotStage::After(before) => next == SnapshotStage::Done && is_exit(
            eff,
            rewritten(time_of(ev), before),
        ),
        SnapshotStage::Done => next == SnapshotStage::Done && is_ended(eff),
    }
}

/// Save the current state of the session `name` to its own file `session` in
/// `dir`: the next request, given where the snapshot stands and the last answer.
/// It ends reporting whether the file was rewritten.
pub fn save_snapshot(dir: &str, name: &str, session: &str, stage: SnapshotStage, event: Event) -> (r: (
    SnapshotStage,
    Effect,
))
    ensures
        snapshot_step(dir@, name@, session@, stage, event, r.0, r.1),
{
    match stage {
        SnapshotStage::Start => (
            SnapshotStage::Before,
            Effect::ModifiedTime(join_path(dir, session)),
        ),
        SnapshotStage::Before => (
            SnapshotStage::Saving(time_in(&event)),
            kitten(save_as_session_args(dir, name, session), false),
        ),
        SnapshotStage::Saving(before) => {
            if ran_ok_in(&event) {
                (SnapshotStage::After(before), Effect::ModifiedTime(join_path(dir, session)))
            } else {
                (SnapshotStage::Done, exit(false))
            }
        },
        SnapshotStage::After(before) => {
            let done = match (time_in(&event), before) {
                (Some(a), Some(b)) => a > b,
                (Some(_), None) => true,
                (None, _) => false,
            };
            (SnapshotStage::Done, exit(done))
        },
        SnapshotStage::Done => (SnapshotStage::Done, Effect::Finish(Outcome::Ended)),
    }
}

} // verus!

verus! {

/// A snapshot is reported saved only when `save_as_session` succeeded and
/// the file was then found rewritten.
pub proof fn law_snapshot_saved_only_when_rewritten(
    dir: Seq<char>,
    name: Seq<char>,
    session: Seq<char>,
    stage: SnapshotStage,
    ev: Event,
    next: SnapshotStage,
    eff: Effect,
)
    requires
        snapshot_step(dir, name, session, stage, ev, next, eff),
        is_exit(eff, true),
    ensures
        stage is After,
        rewritten(time_of(ev), stage->After_0),
{
}

} // verus!
