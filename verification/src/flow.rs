//! The vocabulary shared by the picker's operations. Each operation is a
//! step function from its stage and the answer to its last request to the
//! next stage and the next request; the caller carries the requests out
//! (prompts, `kitten` runs, file changes) and answers with an [`Event`].
use vstd::prelude::*;

use crate::listing::views;

verus! {

/// How a `kitten` run ended.
#[derive(Debug, PartialEq, Eq)]
pub enum Run {
    /// `kitten` could not be started; why.
    NotStarted(String),
    /// `kitten` ran: whether it exited with success, and what it wrote to
    /// standard error (empty when its output was not captured).
    Exited { success: bool, stderr: String },
}

/// What a finished operation reports.
#[derive(Debug, PartialEq, Eq)]
pub enum Outcome {
    /// Switching to a place in kitty: done, or why not.
    Opened(Result<(), String>),
    /// Whether the picker must exit afterwards (or, for a snapshot, whether it was saved).
    Exit(bool),
    /// The operation has nothing to report.
    Ended,
}

/// A request of an operation to its caller.
#[derive(Debug, PartialEq, Eq)]
pub enum Effect {
    /// Show the text and read one line from the user, given back trimmed;
    /// answered by [`Event::Line`].
    Ask(String),
    /// Run `kitten` with these arguments; with `capture` its output is
    /// collected, else it is discarded. Answered by [`Event::Ran`].
    Kitten { args: Vec<String>, capture: bool },
    /// Whether the path exists; answered by [`Event::Flag`].
    Exists(String),
    /// Create the directory `dir` (with its parents), then write `contents`
    /// to the file `path`; answered by [`Event::Io`].
    CreateFile { dir: String, path: String, contents: String },
    /// Rename the file `from` to `to`; answered by [`Event::Io`].
    Rename { from: String, to: String },
    /// Remove the file; answered by [`Event::Io`].
    Remove(String),
    /// When the file was last modified; answered by [`Event::Time`].
    ModifiedTime(String),
    /// Wait this many milliseconds; answered by [`Event::Ack`].
    Sleep(u64),
    /// Run the switch to the session file `session` in `dir` (see
    /// `goto_session`); answered by [`Event::Opened`].
    Goto { dir: String, session: String },
    /// Run the snapshot of the session `name` to its file `session` in `dir`
    /// (see `save_snapshot`); answered by [`Event::Flag`].
    Snapshot { dir: String, name: String, session: String },
    /// Run the move away from the session `name` (see `move_away_from`);
    /// answered by [`Event::Ack`].
    MoveAway(String),
    /// The operation is over.
    Finish(Outcome),
}

/// The answer to the last request; [`Event::Begin`] starts an operation.
#[derive(Debug, PartialEq, Eq)]
pub enum Event {
    Begin,
    Line(String),
    Ran(Run),
    Flag(bool),
    Io(Result<(), String>),
    /// A modification time in nanoseconds relative to the Unix epoch, if there is one.
    Time(Option<i128>),
    Ack,
    Opened(Result<(), String>),
}

// An answer of another kind than the request asked for counts as a failure
// of the request: no text, no success, no time, an error without a reason.

/// The line the user gave.
pub open spec fn line_of(e: Event) -> Seq<char> {
    match e {
        Event::Line(s) => s@,
        _ => seq![],
    }
}

/// `kitten` ran and exited with success.
pub open spec fn ran_ok(e: Event) -> bool {
    match e {
        Event::Ran(Run::Exited { success, .. }) => success,
        _ => false,
    }
}

/// The yes/no answer.
pub open spec fn flag_of(e: Event) -> bool {
    match e {
        Event::Flag(b) => b,
        _ => false,
    }
}

/// Why a file operation failed, or `None` when it succeeded.
pub open spec fn io_error(e: Event) -> Option<Seq<char>> {
    match e {
        Event::Io(Ok(())) => None,
        Event::Io(Err(m)) => Some(m@),
        _ => Some(seq![]),
    }
}

/// The modification time given.
pub open spec fn time_of(e: Event) -> Option<i128> {
    match e {
        Event::Time(t) => t,
        _ => None,
    }
}

/// A switch reported as done.
pub open spec fn opened_ok(e: Event) -> bool {
    e matches Event::Opened(Ok(_))
}

/// Why a switch failed, as reported.
pub open spec fn opened_error(e: Event) -> Seq<char> {
    match e {
        Event::Opened(Err(m)) => m@,
        _ => seq![],
    }
}

/// The reason a switch failed, as [`opened_error`] reads it.
pub fn opened_error_in(e: &Event) -> (s: String)
    ensures
        s@ == opened_error(*e),
{
    match e {
        Event::Opened(Err(m)) => m.clone(),
        _ => String::new(),
    }
}

/// The line given, as [`line_of`] reads it.
pub fn line_in(e: &Event) -> (s: String)
    ensures
        s@ == line_of(*e),
{
    match e {
        Event::Line(s) => s.clone(),
        _ => String::new(),
    }
}

/// Whether `kitten` ran with success, as [`ran_ok`] reads it.
pub fn ran_ok_in(e: &Event) -> (b: bool)
    ensures
        b == ran_ok(*e),
{
    match e {
        Event::Ran(Run::Exited { success, .. }) => *success,
        _ => false,
    }
}

/// The yes/no answer, as [`flag_of`] reads it.
pub fn flag_in(e: &Event) -> (b: bool)
    ensures
        b == flag_of(*e),
{
    match e {
        Event::Flag(b) => *b,
        _ => false,
    }
}

/// Why a file operation failed, as [`io_error`] reads it.
pub fn io_error_in(e: &Event) -> (r: Option<String>)
    ensures
        match r {
            None => io_error(*e) is None,
            Some(m) => io_error(*e) == Some(m@),
        },
{
    match e {
        Event::Io(Ok(())) => None,
        Event::Io(Err(m)) => Some(m.clone()),
        _ => Some(String::new()),
    }
}

/// The modification time given, as [`time_of`] reads it.
pub fn time_in(e: &Event) -> (t: Option<i128>)
    ensures
        t == time_of(*e),
{
    match e {
        Event::Time(t) => *t,
        _ => None,
    }
}

/// Whether the switch was done, as [`opened_ok`] reads it.
pub fn opened_ok_in(e: &Event) -> (b: bool)
    ensures
        b == opened_ok(*e),
{
    match e {
        Event::Opened(Ok(_)) => true,
        _ => false,
    }
}

/// A request to show `text` and read a line.
pub open spec fn is_ask(f: Effect, text: Seq<char>) -> bool {
    f matches Effect::Ask(t) && t@ == text
}

/// A request to run `kitten` with `args`.
pub open spec fn is_kitten(f: Effect, args: Seq<Seq<char>>, capture: bool) -> bool {
    f matches Effect::Kitten { args: a, capture: c } && views(a@) == args && c == capture
}

/// A request for the modification time of `path`.
pub open spec fn is_modified_time(f: Effect, path: Seq<char>) -> bool {
    f matches Effect::ModifiedTime(p) && p@ == path
}

/// A request whether `path` exists.
pub open spec fn is_exists(f: Effect, path: Seq<char>) -> bool {
    f matches Effect::Exists(p) && p@ == path
}

/// A request to create `dir` and write `contents` to `path`.
pub open spec fn is_create_file(f: Effect, dir: Seq<char>, path: Seq<char>, contents: Seq<char>) -> bool {
    f matches Effect::CreateFile { dir: d, path: p, contents: c } && d@ == dir && p@ == path && c@
        == contents
}

/// A request to rename the file `from` to `to`.
pub open spec fn is_rename(f: Effect, from: Seq<char>, to: Seq<char>) -> bool {
    f matches Effect::Rename { from: a, to: b } && a@ == from && b@ == to
}

/// A request to remove the file `path`.
pub open spec fn is_remove(f: Effect, path: Seq<char>) -> bool {
    f matches Effect::Remove(p) && p@ == path
}

/// A request to switch to the session file `session` in `dir`.
pub open spec fn is_goto(f: Effect, dir: Seq<char>, session: Seq<char>) -> bool {
    f matches Effect::Goto { dir: d, session: s } && d@ == dir && s@ == session
}

/// A request to save a snapshot of the session `name` to its file `session` in `dir`.
pub open spec fn is_snapshot(f: Effect, dir: Seq<char>, name: Seq<char>, session: Seq<char>) -> bool {
    f matches Effect::Snapshot { dir: d, name: n, session: s } && d@ == dir && n@ == name && s@
        == session
}

/// A request to move the user away from the session `name`.
pub open spec fn is_move_away(f: Effect, name: Seq<char>) -> bool {
    f matches Effect::MoveAway(n) && n@ == name
}

/// The end of an operation that reports whether the picker must exit.
pub open spec fn is_exit(f: Effect, b: bool) -> bool {
    f matches Effect::Finish(Outcome::Exit(x)) && x == b
}

/// The end of a switch: done when `error` is `None`, else failed for that reason.
pub open spec fn is_opened(f: Effect, error: Option<Seq<char>>) -> bool {
    match f {
        Effect::Finish(Outcome::Opened(Ok(()))) => error is None,
        Effect::Finish(Outcome::Opened(Err(m))) => error == Some(m@),
        _ => false,
    }
}

/// The end of an operation with nothing to report.
pub open spec fn is_ended(f: Effect) -> bool {
    f matches Effect::Finish(Outcome::Ended)
}

/// Why an operation stopped when `kitten` could not be started.
pub open spec fn run_failed(why: Seq<char>) -> Seq<char> {
    "Could not run kitten: "@ + why + "."@
}

/// The text of [`run_failed`].
pub fn run_failed_text(why: &str) -> (t: String)
    ensures
        t@ == run_failed(why@),
{
    let mut t = String::from_str("Could not run kitten: ");
    t.append(why);
    t.append(".");
    t
}

/// End of a switch that failed for `why`.
pub fn not_opened_because(why: String) -> (f: Effect)
    ensures
        is_opened(f, Some(why@)),
{
    Effect::Finish(Outcome::Opened(Err(why)))
}

/// The text that tells the user something and waits, since the picker's
/// screen is redrawn right after.
pub open spec fn show_message_text(message: Seq<char>) -> Seq<char> {
    message + " Press Enter to go back."@
}

/// The text shown to tell the user `message` before the picker is shown again.
pub fn show_message(message: &str) -> (text: String)
    ensures
        text@ == show_message_text(message@),
{
    let mut t = String::from_str(message);
    t.append(" Press Enter to go back.");
    t
}

/// The text shown to tell the user why the picker cannot continue, before it exits.
pub fn fatal(message: &str) -> (text: String)
    ensures
        text@ == message@ + " Press Enter to close."@,
{
    let mut t = String::from_str(message);
    t.append(" Press Enter to close.");
    t
}

/// A request to tell the user `message` (and wait for Enter).
pub open spec fn is_tell(f: Effect, message: Seq<char>) -> bool {
    is_ask(f, show_message_text(message))
}

/// Request: tell the user `message`.
pub fn tell(message: &str) -> (f: Effect)
    ensures
        is_tell(f, message@),
{
    Effect::Ask(show_message(message))
}

/// Request: run `kitten` with `args`.
pub fn kitten(args: Vec<String>, capture: bool) -> (f: Effect)
    ensures
        is_kitten(f, views(args@), capture),
{
    Effect::Kitten { args, capture }
}

/// Request: end, reporting whether the picker must exit.
pub fn exit(b: bool) -> (f: Effect)
    ensures
        is_exit(f, b),
{
    Effect::Finish(Outcome::Exit(b))
}

} // verus!
