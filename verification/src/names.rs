//! Session names: the rules a typed name must follow and how names map to files.
use vstd::prelude::*;

use crate::chars::{char_is_control, is_control};
use crate::text::{chars_eq, chars_of, ends_with, ends_with_at, trim, trimmed};

verus! {

/// Pseudo entry for tabs that were not created from any session file
/// (e.g. the tabs kitty opens at startup, before anything is saved).
pub const NO_SESSION: &'static str = "[No Session]";

/// The extension of session files.
pub const SESSION_EXTENSION: &'static str = ".kitty-session";

/// Characters a session name must not contain.
pub open spec fn is_forbidden(c: char) -> bool {
    c == '/' || c == '\\' || c == '\'' || c == '"' || is_control(c)
}

/// Index of the first forbidden character of `s`, or `s.len()` when there is none.
pub open spec fn first_forbidden(s: Seq<char>) -> int
    decreases s.len(),
{
    if s.len() == 0 {
        0
    } else if is_forbidden(s[0]) {
        0
    } else {
        1 + first_forbidden(s.drop_first())
    }
}

/// How a refusal names the forbidden character `c`.
pub open spec fn forbidden_label(c: char) -> Seq<char> {
    if c == '/' {
        "a slash"@
    } else if c == '\\' {
        "a backslash"@
    } else if c == '\'' {
        "a single quote"@
    } else if c == '"' {
        "a double quote"@
    } else {
        "control characters"@
    }
}

/// Why the trimmed name `t` is refused, or `None` when it is accepted.
/// The rules are checked in this order, and the first that fails gives the reason.
pub open spec fn refusal(t: Seq<char>) -> Option<Seq<char>> {
    if t.len() == 0 {
        Some("The name is empty."@)
    } else if t[0] == '.' {
        Some("The name must not start with '.'."@)
    } else if first_forbidden(t) < t.len() {
        Some("The name must not contain "@ + forbidden_label(t[first_forbidden(t)]) + "."@)
    } else if ends_with(t, SESSION_EXTENSION@) {
        Some("The name must not end with '"@ + SESSION_EXTENSION@ + "'."@)
    } else if t == NO_SESSION@ {
        Some("'"@ + t + "' is reserved."@)
    } else {
        None
    }
}

/// A trimmed name that the rules accept.
pub open spec fn is_valid_name(t: Seq<char>) -> bool {
    refusal(t) is None
}

proof fn lemma_first_forbidden(s: Seq<char>, i: int)
    requires
        0 <= i <= s.len(),
        forall|k: int| 0 <= k < i ==> !is_forbidden(#[trigger] s[k]),
        i == s.len() || is_forbidden(s[i]),
    ensures
        first_forbidden(s) == i,
    decreases i,
{
    if i > 0 {
        lemma_first_forbidden(s.drop_first(), i - 1);
    }
}

/// Index of the first forbidden character of `v`, or its length.
fn find_forbidden(v: &Vec<char>) -> (i: usize)
    ensures
        i == first_forbidden(v@),
{
    let mut i: usize = 0;
    while i < v.len()
        invariant
            0 <= i <= v.len(),
            forall|k: int| 0 <= k < i ==> !is_forbidden(#[trigger] v@[k]),
        decreases v.len() - i,
    {
        let c = v[i];
        if c == '/' || c == '\\' || c == '\'' || c == '"' || char_is_control(c) {
            proof {
                lemma_first_forbidden(v@, i as int);
            }
            return i;
        }
        i += 1;
    }
    proof {
        lemma_first_forbidden(v@, i as int);
    }
    i
}

/// The label of a forbidden character, as a string.
fn label_of(c: char) -> (s: String)
    ensures
        s@ == forbidden_label(c),
{
    if c == '/' {
        String::from_str("a slash")
    } else if c == '\\' {
        String::from_str("a backslash")
    } else if c == '\'' {
        String::from_str("a single quote")
    } else if c == '"' {
        String::from_str("a double quote")
    } else {
        String::from_str("control characters")
    }
}

/// Check a typed session name and return it trimmed, or say why it is refused.
pub fn validate_session_name(input: &str) -> (r: Result<String, String>)
    ensures
        match r {
            Ok(name) => refusal(trimmed(input@)) is None && name@ == trimmed(input@),
            Err(reason) => refusal(trimmed(input@)) == Some(reason@),
        },
{
    let name = trim(input);
    let t = chars_of(name.as_str());
    if t.len() == 0 {
        return Err(String::from_str("The name is empty."));
    }
    if t[0] == '.' {
        return Err(String::from_str("The name must not start with '.'."));
    }
    let i = find_forbidden(&t);
    if i < t.len() {
        let mut m = String::from_str("The name must not contain ");
        m.append(label_of(t[i]).as_str());
        m.append(".");
        return Err(m);
    }
    let ext = chars_of(SESSION_EXTENSION);
    if ends_with_at(&t, t.len(), &ext) {
        assert(t@.subrange(0, t@.len() as int) =~= t@);
        let mut m = String::from_str("The name must not end with '");
        m.append(SESSION_EXTENSION);
        m.append("'.");
        return Err(m);
    }
    assert(t@.subrange(0, t@.len() as int) =~= t@);
    let reserved = chars_of(NO_SESSION);
    if chars_eq(&t, &reserved) {
        let mut m = String::from_str("'");
        m.append(name.as_str());
        m.append("' is reserved.");
        return Err(m);
    }
    Ok(name)
}

} // verus!

verus! {

/// The file name of the session `session`: the name followed by the extension.
pub fn session_filename(session: &str) -> (f: String)
    ensures
        f@ == session@ + SESSION_EXTENSION@,
{
    let mut f = String::from_str(session);
    f.append(SESSION_EXTENSION);
    f
}

/// `s` with every trailing copy of the session extension removed
/// (`str::trim_end_matches` with the extension as pattern).
pub open spec fn without_extensions(s: Seq<char>) -> Seq<char>
    decreases s.len(),
{
    if SESSION_EXTENSION@.len() > 0 && ends_with(s, SESSION_EXTENSION@) {
        without_extensions(s.subrange(0, s.len() - SESSION_EXTENSION@.len()))
    } else {
        s
    }
}

/// The session name that a session file name stands for: the file name with
/// all trailing extensions removed.
pub fn session_name_of(session: &str) -> (name: String)
    ensures
        name@ == without_extensions(session@),
{
    let v = chars_of(session);
    let ext = chars_of(SESSION_EXTENSION);
    proof {
        reveal_strlit(".kitty-session");
    }
    let mut end = v.len();
    assert(v@.subrange(0, v@.len() as int) =~= v@);
    while ends_with_at(&v, end, &ext)
        invariant
            end <= v.len(),
            ext@ == SESSION_EXTENSION@,
            ext@.len() > 0,
            without_extensions(v@) == without_extensions(v@.subrange(0, end as int)),
        decreases end,
    {
        let ghost s = v@.subrange(0, end as int);
        end = end - ext.len();
        assert(s.subrange(0, s.len() - ext@.len()) =~= v@.subrange(0, end as int));
    }
    crate::text::string_of(&v, 0, end)
}

/// A name the rules accept is given back by the file name made from it.
pub proof fn lemma_valid_name_file_round_trip(name: Seq<char>)
    requires
        is_valid_name(name),
    ensures
        without_extensions(name + SESSION_EXTENSION@) == name,
{
    reveal_strlit(".kitty-session");
    let f = name + SESSION_EXTENSION@;
    assert(f.subrange(f.len() - SESSION_EXTENSION@.len(), f.len() as int) =~= SESSION_EXTENSION@);
    assert(f.subrange(0, f.len() - SESSION_EXTENSION@.len()) =~= name);
    assert(without_extensions(f) == without_extensions(name));
    assert(!ends_with(name, SESSION_EXTENSION@));
    assert(without_extensions(name) == name);
}

} // verus!

verus! {

proof fn lemma_no_forbidden(s: Seq<char>)
    requires
        first_forbidden(s) >= s.len(),
    ensures
        forall|i: int| 0 <= i < s.len() ==> !is_forbidden(#[trigger] s[i]),
    decreases s.len(),
{
    if s.len() > 0 {
        lemma_no_forbidden(s.drop_first());
        assert forall|i: int| 0 <= i < s.len() implies !is_forbidden(#[trigger] s[i]) by {
            if i > 0 {
                assert(s[i] == s.drop_first()[i - 1]);
            }
        }
    }
}

/// The file of an accepted name lies directly in the sessions directory: it
/// holds no `/`, does not start with `.`, and is joined below the directory.
pub proof fn law_valid_name_stays_in_dir(dir: Seq<char>, name: Seq<char>)
    requires
        is_valid_name(name),
    ensures
        !(name + SESSION_EXTENSION@).contains('/'),
        (name + SESSION_EXTENSION@)[0] != '.',
        crate::listing::joined(dir, name + SESSION_EXTENSION@) == dir + (name + SESSION_EXTENSION@)
            || crate::listing::joined(dir, name + SESSION_EXTENSION@) == dir + seq!['/'] + (name
            + SESSION_EXTENSION@),
{
    reveal_strlit(".kitty-session");
    lemma_no_forbidden(name);
    let f = name + SESSION_EXTENSION@;
    assert forall|i: int| 0 <= i < f.len() implies f[i] != '/' by {
        if i < name.len() {
            assert(f[i] == name[i]);
            assert(!is_forbidden(name[i]));
        } else {
            assert(f[i] == SESSION_EXTENSION@[i - name.len()]);
        }
    }
    assert(f[0] == name[0]);
}

} // verus!

verus! {

proof fn lemma_forbidden_found(s: Seq<char>, i: int)
    requires
        0 <= i < s.len(),
        is_forbidden(s[i]),
    ensures
        first_forbidden(s) < s.len(),
    decreases i,
{
    if i > 0 && !is_forbidden(s[0]) {
        lemma_forbidden_found(s.drop_first(), i - 1);
    }
}

/// The rules for session names, stated one by one: a trimmed name is accepted
/// exactly when it is not empty, does not start with `.`, holds none of `/`,
/// `\`, `'`, `"` or a control character, does not end with the session
/// extension, and is not `[No Session]`.
pub proof fn law_name_rules(t: Seq<char>)
    ensures
        is_valid_name(t) <==> {
            &&& t.len() > 0
            &&& t[0] != '.'
            &&& forall|i: int| 0 <= i < t.len() ==> !is_forbidden(#[trigger] t[i])
            &&& !ends_with(t, SESSION_EXTENSION@)
            &&& t != NO_SESSION@
        },
{
    if is_valid_name(t) {
        lemma_no_forbidden(t);
    }
    if exists|i: int| 0 <= i < t.len() && is_forbidden(#[trigger] t[i]) {
        let i = choose|i: int| 0 <= i < t.len() && is_forbidden(#[trigger] t[i]);
        lemma_forbidden_found(t, i);
    } else {
        lemma_first_forbidden(t, t.len() as int);
    }
}

} // verus!
