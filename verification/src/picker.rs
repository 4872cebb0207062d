//! The picker itself: what it lists, what it hands to fzf, how it reads fzf's
//! answer, and which operation a key press on an entry starts.
use vstd::prelude::*;

use crate::listing::views;
use crate::names::{session_filename, NO_SESSION, SESSION_EXTENSION};
use crate::text::{chars_eq, chars_of, push_char, string_of};

verus! {

/// The picker's entries: `[No Session]` first, then the sessions.
pub fn picker_items(sessions: Vec<String>) -> (items: Vec<String>)
    ensures
        views(items@) == seq![NO_SESSION@] + views(sessions@),
{
    let mut items: Vec<String> = Vec::new();
    items.push(String::from_str(NO_SESSION));
    let mut rest = sessions;
    let ghost all = views(rest@);
    let mut i: usize = 0;
    let n = rest.len();
    while i < n
        invariant
            0 <= i <= n == rest.len(),
            all == views(rest@),
            views(items@) == seq![NO_SESSION@] + all.take(i as int),
        decreases n - i,
    {
        let s = String::from_str(rest[i].as_str());
        let ghost before = views(items@);
        items.push(s);
        assert(views(items@) =~= before.push(all[i as int]));
        assert(all.take(i + 1) =~= all.take(i as int).push(all[i as int]));
        i += 1;
    }
    assert(all.take(n as int) =~= all);
    items
}

/// The lines `lines` joined with `\n` between them.
pub open spec fn joined_lines(lines: Seq<Seq<char>>) -> Seq<char>
    decreases lines.len(),
{
    if lines.len() == 0 {
        seq![]
    } else if lines.len() == 1 {
        lines[0]
    } else {
        joined_lines(lines.drop_last()) + seq!['\n'] + lines.last()
    }
}

/// What the picker writes to fzf: one entry per line.
pub fn fzf_input(items: &Vec<String>) -> (input: String)
    ensures
        input@ == joined_lines(views(items@)),
{
    let mut input = String::new();
    let ghost all = views(items@);
    let mut i: usize = 0;
    while i < items.len()
        invariant
            0 <= i <= items.len(),
            all == views(items@),
            input@ == joined_lines(all.take(i as int)),
        decreases items.len() - i,
    {
        let ghost t = all.take(i + 1);
        assert(t.drop_last() =~= all.take(i as int));
        if i > 0 {
            push_char(&mut input, '\n');
        } else {
            assert(all.take(i as int) =~= Seq::<Seq<char>>::empty());
        }
        input.append(items[i].as_str());
        i += 1;
    }
    assert(all.take(items@.len() as int) =~= all);
    input
}

/// Index of the first `\n` in `s`, or its length when there is none.
pub open spec fn line_end(s: Seq<char>) -> int
    decreases s.len(),
{
    if s.len() == 0 {
        0
    } else if s[0] == '\n' {
        0
    } else {
        1 + line_end(s.drop_first())
    }
}

/// The first line of `s` and what follows its line ending, as `str::lines`
/// reads them: a line ends at `\n`, a `\r` right before that `\n` is dropped
/// too, and the last line ending is optional. `None` when `s` is empty.
pub open spec fn first_line(s: Seq<char>) -> Option<(Seq<char>, Seq<char>)> {
    if s.len() == 0 {
        None
    } else {
        let e = line_end(s);
        if e < s.len() {
            let l = s.subrange(0, e);
            let l = if l.len() > 0 && l.last() == '\r' {
                l.drop_last()
            } else {
                l
            };
            Some((l, s.subrange(e + 1, s.len() as int)))
        } else {
            Some((s, seq![]))
        }
    }
}

/// The first line of `s`, or nothing.
pub open spec fn line_or_empty(s: Seq<char>) -> Seq<char> {
    match first_line(s) {
        Some((l, _)) => l,
        None => seq![],
    }
}

/// What follows the first line of `s`.
pub open spec fn after_first_line(s: Seq<char>) -> Seq<char> {
    match first_line(s) {
        Some((_, rest)) => rest,
        None => seq![],
    }
}

proof fn lemma_line_end(s: Seq<char>, i: int)
    requires
        0 <= i <= s.len(),
        forall|k: int| 0 <= k < i ==> s[k] != '\n',
        i == s.len() || s[i] == '\n',
    ensures
        line_end(s) == i,
    decreases i,
{
    if i > 0 {
        lemma_line_end(s.drop_first(), i - 1);
    }
}

/// The first line of `v[from..]` and where the rest starts.
fn split_line(v: &Vec<char>, from: usize) -> (r: (String, usize))
    requires
        from <= v.len(),
    ensures
        r.0@ == line_or_empty(v@.subrange(from as int, v@.len() as int)),
        from <= r.1 <= v.len(),
        v@.subrange(r.1 as int, v@.len() as int) == after_first_line(
            v@.subrange(from as int, v@.len() as int),
        ),
{
    let ghost s = v@.subrange(from as int, v@.len() as int);
    let mut i = from;
    while i < v.len() && v[i] != '\n'
        invariant
            from <= i <= v.len(),
            s == v@.subrange(from as int, v@.len() as int),
            forall|k: int| from <= k < i ==> v@[k] != '\n',
        decreases v.len() - i,
    {
        i += 1;
    }
    proof {
        assert forall|k: int| 0 <= k < i - from implies s[k] != '\n' by {
            assert(s[k] == v@[k + from]);
        }
        lemma_line_end(s, i - from);
    }
    if from == v.len() {
        proof {
            reveal_strlit("");
        }
        assert(s.len() == 0);
        return (String::new(), v.len());
    }
    if i < v.len() {
        let stop = if i > from && v[i - 1] == '\r' {
            i - 1
        } else {
            i
        };
        let l = string_of(v, from, stop);
        assert(s.subrange(0, i - from) =~= v@.subrange(from as int, i as int));
        assert(v@.subrange(from as int, stop as int) =~= if stop < i {
            v@.subrange(from as int, i as int).drop_last()
        } else {
            v@.subrange(from as int, i as int)
        });
        assert(s.subrange(i - from + 1, s.len() as int) =~= v@.subrange(i + 1, v@.len() as int));
        (l, i + 1)
    } else {
        let l = string_of(v, from, v.len());
        assert(v@.subrange(v@.len() as int, v@.len() as int) =~= Seq::<char>::empty());
        (l, v.len())
    }
}

/// fzf's answer: the key pressed (empty for plain Enter) and the selected
/// entry (empty when nothing was selected), or why fzf failed. fzf exits with
/// 130 on Esc and 1 when nothing matched; only 2 means it failed.
pub fn read_fzf_output(exit_code: Option<i32>, output: &str) -> (r: Result<(String, String), String>)
    ensures
        match r {
            Err(m) => exit_code == Some(2i32) && m@ == "fzf reported an error."@,
            Ok((key, target)) => exit_code != Some(2i32) && key@ == line_or_empty(output@)
                && target@ == line_or_empty(after_first_line(output@)),
        },
{
    if exit_code == Some(2i32) {
        return Err(String::from_str("fzf reported an error."));
    }
    let v = chars_of(output);
    assert(v@.subrange(0, v@.len() as int) =~= v@);
    let (key, next) = split_line(&v, 0);
    let (target, _) = split_line(&v, next);
    Ok((key, target))
}

/// What a key press on an entry of the picker starts.
#[derive(Debug, PartialEq, Eq)]
pub enum PickerAction {
    /// Create a session (`Ctrl-n`).
    Create,
    /// Leave the picker: nothing was selected.
    Quit,
    /// Show the picker again: the key does nothing on this entry.
    Stay,
    /// Rename the session with this file name (`Ctrl-r`).
    Rename(String),
    /// Delete the session with this file name (`Ctrl-d`).
    Delete(String),
    /// Go to a tab outside every session (Enter on `[No Session]`).
    OpenNoSession,
    /// Switch to the session with this file name (Enter).
    Open(String),
}

/// The action for the key `key` pressed on the entry `target`.
pub open spec fn action_for(key: Seq<char>, target: Seq<char>, action: PickerAction) -> bool {
    let pseudo = target == NO_SESSION@;
    let file = target + SESSION_EXTENSION@;
    if key == "ctrl-n"@ {
        action is Create
    } else if target.len() == 0 {
        action is Quit
    } else if key == "ctrl-r"@ {
        if pseudo {
            action is Stay
        } else {
            action matches PickerAction::Rename(f) && f@ == file
        }
    } else if key == "ctrl-d"@ {
        if pseudo {
            action is Stay
        } else {
            action matches PickerAction::Delete(f) && f@ == file
        }
    } else if pseudo {
        action is OpenNoSession
    } else {
        action matches PickerAction::Open(f) && f@ == file
    }
}

fn is_text(s: &str, literal: &str) -> (r: bool)
    ensures
        r == (s@ == literal@),
{
    chars_eq(&chars_of(s), &chars_of(literal))
}

/// Decide what the key `key` pressed on the entry `target` starts.
pub fn choose_action(key: &str, target: &str) -> (action: PickerAction)
    ensures
        action_for(key@, target@, action),
{
    if is_text(key, "ctrl-n") {
        return PickerAction::Create;
    }
    if target.is_empty() {
        return PickerAction::Quit;
    }
    let pseudo = is_text(target, NO_SESSION);
    if is_text(key, "ctrl-r") {
        if pseudo {
            PickerAction::Stay
        } else {
            PickerAction::Rename(session_filename(target))
        }
    } else if is_text(key, "ctrl-d") {
        if pseudo {
            PickerAction::Stay
        } else {
            PickerAction::Delete(session_filename(target))
        }
    } else if pseudo {
        PickerAction::OpenNoSession
    } else {
        PickerAction::Open(session_filename(target))
    }
}

} // verus!

verus! {

/// `Ctrl-r` and `Ctrl-d` on `[No Session]` do nothing, and the picker stays open.
pub proof fn law_pseudo_entry_not_renamed_or_deleted(key: Seq<char>, action: PickerAction)
    requires
        key == "ctrl-r"@ || key == "ctrl-d"@,
        action_for(key, NO_SESSION@, action),
    ensures
        action is Stay,
{
    reveal_strlit("ctrl-n");
    reveal_strlit("ctrl-r");
    reveal_strlit("ctrl-d");
    reveal_strlit("[No Session]");
    assert("ctrl-n"@[5] != "ctrl-r"@[5]);
    assert("ctrl-n"@[5] != "ctrl-d"@[5]);
}

/// Enter, `Ctrl-r` or `Ctrl-d` with nothing selected leaves the picker.
pub proof fn law_nothing_selected_quits(key: Seq<char>, action: PickerAction)
    requires
        key != "ctrl-n"@,
        action_for(key, seq![], action),
    ensures
        action is Quit,
{
}

} // verus!

verus! {

/// Only the entry `[No Session]` is the pseudo entry: on any other selected
/// entry, Enter opens, `Ctrl-r` renames and `Ctrl-d` deletes the session file
/// named after the entry.
pub proof fn law_sessions_act_on_their_file(key: Seq<char>, target: Seq<char>, action: PickerAction)
    requires
        action_for(key, target, action),
        target.len() > 0,
        target != "[No Session]"@,
        key != "ctrl-n"@,
    ensures
        match action {
            PickerAction::Rename(f) => key == "ctrl-r"@ && f@ == target + ".kitty-session"@,
            PickerAction::Delete(f) => key == "ctrl-d"@ && f@ == target + ".kitty-session"@,
            PickerAction::Open(f) => key != "ctrl-r"@ && key != "ctrl-d"@ && f@ == target
                + ".kitty-session"@,
            _ => false,
        },
{
    reveal_strlit("ctrl-r");
    reveal_strlit("ctrl-d");
    assert("ctrl-r"@[5] != "ctrl-d"@[5]);
}

} // verus!
