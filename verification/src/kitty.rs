//! What the picker hands to `kitten @`: quoted action arguments, match
//! expressions that select one session, and the argument lists of each command.
use vstd::prelude::*;

use crate::chars::{char_is_white_space, is_white_space};
use crate::listing::views;
use crate::text::{chars_of, has_white_space, push_char};

verus! {

/// How one character of an action argument is written inside single quotes:
/// a single quote closes the quotes, is escaped, and reopens them.
pub open spec fn quote_piece(c: char) -> Seq<char> {
    if c == '\'' {
        seq!['\'', '\\', '\'', '\'']
    } else {
        seq![c]
    }
}

/// The characters of `s`, each written as [`quote_piece`] gives it.
pub open spec fn quoted_body(s: Seq<char>) -> Seq<char>
    decreases s.len(),
{
    if s.len() == 0 {
        seq![]
    } else {
        quote_piece(s[0]) + quoted_body(s.drop_first())
    }
}

/// `s` as one single-quoted shell word.
pub open spec fn quoted(s: Seq<char>) -> Seq<char> {
    seq!['\''] + quoted_body(s) + seq!['\'']
}

pub proof fn lemma_quoted_body_concat(a: Seq<char>, b: Seq<char>)
    ensures
        quoted_body(a + b) == quoted_body(a) + quoted_body(b),
    decreases a.len(),
{
    if a.len() == 0 {
        assert(a + b =~= b);
    } else {
        lemma_quoted_body_concat(a.drop_first(), b);
        assert((a + b).drop_first() =~= a.drop_first() + b);
        assert(quoted_body(a) + quoted_body(b) =~= quote_piece(a[0]) + (quoted_body(a.drop_first())
            + quoted_body(b)));
    }
}

proof fn lemma_quoted_body_one(c: char)
    ensures
        quoted_body(seq![c]) == quote_piece(c),
{
    let e = seq![c].drop_first();
    assert(e =~= Seq::<char>::empty());
    assert(quoted_body(e) == Seq::<char>::empty());
    assert(seq![c][0] == c);
    assert(quote_piece(c) + Seq::<char>::empty() =~= quote_piece(c));
}

/// Quote an argument for `kitten @ action`, which re-splits its arguments shell-style.
pub fn quote_action_arg(arg: &str) -> (q: String)
    ensures
        q@ == quoted(arg@),
{
    let v = chars_of(arg);
    let mut q = String::new();
    push_char(&mut q, '\'');
    let mut i: usize = 0;
    while i < v.len()
        invariant
            0 <= i <= v.len(),
            q@ == seq!['\''] + quoted_body(v@.take(i as int)),
        decreases v.len() - i,
    {
        let c = v[i];
        let ghost before = q@;
        if c == '\'' {
            push_char(&mut q, '\'');
            push_char(&mut q, '\\');
            push_char(&mut q, '\'');
            push_char(&mut q, '\'');
        } else {
            push_char(&mut q, c);
        }
        proof {
            assert(v@.take(i + 1) =~= v@.take(i as int) + seq![c]);
            lemma_quoted_body_concat(v@.take(i as int), seq![c]);
            lemma_quoted_body_one(c);
            assert(q@ =~= seq!['\''] + quoted_body(v@.take(i + 1)));
        }
        i += 1;
    }
    push_char(&mut q, '\'');
    assert(v@.take(v@.len() as int) =~= v@);
    q
}

/// `c` in front of a parsed word, if there is one.
pub open spec fn prepend(c: char, w: Option<Seq<char>>) -> Option<Seq<char>> {
    match w {
        Some(w) => Some(seq![c] + w),
        None => None,
    }
}

/// The word that a POSIX shell reads from `s`, for words made of plain
/// characters, single-quoted sections and backslash escapes; `in_quote` tells
/// whether a single-quoted section is open. `None` when `s` is not one such
/// word: white space or a double quote outside quotes, a trailing backslash,
/// or a quote left open.
pub open spec fn shell_word(s: Seq<char>, in_quote: bool) -> Option<Seq<char>>
    decreases s.len(),
{
    if s.len() == 0 {
        if in_quote {
            None
        } else {
            Some(seq![])
        }
    } else if in_quote {
        if s[0] == '\'' {
            shell_word(s.drop_first(), false)
        } else {
            prepend(s[0], shell_word(s.drop_first(), true))
        }
    } else if s[0] == '\'' {
        shell_word(s.drop_first(), true)
    } else if s[0] == '\\' {
        if s.len() >= 2 {
            prepend(s[1], shell_word(s.subrange(2, s.len() as int), false))
        } else {
            None
        }
    } else if is_white_space(s[0]) || s[0] == '"' {
        None
    } else {
        prepend(s[0], shell_word(s.drop_first(), false))
    }
}

proof fn lemma_quoted_body_reads_back(a: Seq<char>)
    ensures
        shell_word(quoted_body(a) + seq!['\''], true) == Some(a),
    decreases a.len(),
{
    if a.len() == 0 {
        let s = quoted_body(a) + seq!['\''];
        assert(s =~= seq!['\'']);
        assert(s.drop_first() =~= Seq::<char>::empty());
        assert(shell_word(s.drop_first(), false) == Some(Seq::<char>::empty()));
        assert(a =~= Seq::<char>::empty());
    } else {
        let rest = a.drop_first();
        lemma_quoted_body_reads_back(rest);
        let tail = quoted_body(rest) + seq!['\''];
        let s = quoted_body(a) + seq!['\''];
        assert(a =~= seq![a[0]] + rest);
        if a[0] == '\'' {
            assert(quoted_body(a) == seq!['\'', '\\', '\'', '\''] + quoted_body(rest));
            assert(s =~= seq!['\'', '\\', '\'', '\''] + tail);
            let s1 = s.drop_first();
            assert(s1 =~= seq!['\\', '\'', '\''] + tail);
            let s2 = s1.subrange(2, s1.len() as int);
            assert(s2 =~= seq!['\''] + tail);
            assert(s2.drop_first() =~= tail);
            assert(shell_word(s2, false) == shell_word(tail, true));
            assert(shell_word(s1, false) == prepend('\'', shell_word(s2, false)));
            assert(shell_word(s, true) == shell_word(s1, false));
        } else {
            assert(quoted_body(a) == seq![a[0]] + quoted_body(rest));
            assert(s =~= seq![a[0]] + tail);
            assert(s.drop_first() =~= tail);
            assert(shell_word(s, true) == prepend(a[0], shell_word(tail, true)));
        }
    }
}

/// A quoted argument reads back, shell-style, as exactly one word: the argument itself.
pub proof fn lemma_quoted_reads_back(a: Seq<char>)
    ensures
        shell_word(quoted(a), false) == Some(a),
{
    lemma_quoted_body_reads_back(a);
    let q = quoted(a);
    assert(q.drop_first() =~= quoted_body(a) + seq!['\'']);
}

/// Characters with a meaning in kitty's regular expressions.
pub open spec fn is_regex_special(c: char) -> bool {
    c == '\\' || c == '.' || c == '+' || c == '*' || c == '?' || c == '(' || c == ')' || c
        == '|' || c == '[' || c == ']' || c == '{' || c == '}' || c == '^' || c == '$' || c
        == '#'
}

/// How one character of a session name is written in a match expression:
/// white space as `\s`, so the expression stays one token; regular-expression
/// characters behind a backslash; everything else as it is.
pub open spec fn escape_piece(c: char) -> Seq<char> {
    if is_white_space(c) {
        seq!['\\', 's']
    } else if is_regex_special(c) {
        seq!['\\', c]
    } else {
        seq![c]
    }
}

/// The characters of `s`, each written as [`escape_piece`] gives it.
pub open spec fn escaped(s: Seq<char>) -> Seq<char>
    decreases s.len(),
{
    if s.len() == 0 {
        seq![]
    } else {
        escape_piece(s[0]) + escaped(s.drop_first())
    }
}

pub proof fn lemma_escaped_concat(a: Seq<char>, b: Seq<char>)
    ensures
        escaped(a + b) == escaped(a) + escaped(b),
    decreases a.len(),
{
    if a.len() == 0 {
        assert(a + b =~= b);
    } else {
        lemma_escaped_concat(a.drop_first(), b);
        assert((a + b).drop_first() =~= a.drop_first() + b);
        assert(escaped(a) + escaped(b) =~= escape_piece(a[0]) + (escaped(a.drop_first())
            + escaped(b)));
    }
}

proof fn lemma_escaped_one(c: char)
    ensures
        escaped(seq![c]) == escape_piece(c),
{
    let e = seq![c].drop_first();
    assert(e =~= Seq::<char>::empty());
    assert(escaped(e) == Seq::<char>::empty());
    assert(seq![c][0] == c);
    assert(escape_piece(c) + Seq::<char>::empty() =~= escape_piece(c));
}

fn is_regex_special_char(c: char) -> (r: bool)
    ensures
        r == is_regex_special(c),
{
    c == '\\' || c == '.' || c == '+' || c == '*' || c == '?' || c == '(' || c == ')' || c
        == '|' || c == '[' || c == ']' || c == '{' || c == '}' || c == '^' || c == '$' || c
        == '#'
}

/// Escape a session name so it can be used inside a kitty `session:` match expression.
pub fn regex_escape(name: &str) -> (out: String)
    ensures
        out@ == escaped(name@),
{
    let v = chars_of(name);
    let mut out = String::new();
    let mut i: usize = 0;
    while i < v.len()
        invariant
            0 <= i <= v.len(),
            out@ == escaped(v@.take(i as int)),
        decreases v.len() - i,
    {
        let c = v[i];
        if char_is_white_space(c) {
            push_char(&mut out, '\\');
            push_char(&mut out, 's');
        } else {
            if is_regex_special_char(c) {
                push_char(&mut out, '\\');
            }
            push_char(&mut out, c);
        }
        proof {
            assert(v@.take(i + 1) =~= v@.take(i as int) + seq![c]);
            lemma_escaped_concat(v@.take(i as int), seq![c]);
            lemma_escaped_one(c);
            assert(out@ =~= escaped(v@.take(i + 1)));
        }
        i += 1;
    }
    assert(v@.take(v@.len() as int) =~= v@);
    out
}

/// The expression that matches the tabs of the session `name`, anchored at both ends.
pub open spec fn session_match_of(name: Seq<char>) -> Seq<char> {
    "session:^"@ + escaped(name) + "$"@
}

/// The match expression for the tabs of the session `name`.
pub fn session_match(name: &str) -> (m: String)
    ensures
        m@ == session_match_of(name@),
{
    let mut m = String::from_str("session:^");
    m.append(regex_escape(name).as_str());
    m.append("$");
    m
}

/// The expression that matches the focused tab when it belongs to `name`.
pub open spec fn focused_match_of(name: Seq<char>) -> Seq<char> {
    "state:focused and "@ + session_match_of(name)
}

/// The match expression for "the user is in the session `name`".
pub fn focused_match(name: &str) -> (m: String)
    ensures
        m@ == focused_match_of(name@),
{
    let mut m = String::from_str("state:focused and ");
    m.append(session_match(name).as_str());
    m
}

/// The expression that matches a tab outside `name` that the user can move to.
/// The focused tab is excluded: it holds the picker's overlay, which belongs to
/// no session and would otherwise always match.
pub open spec fn elsewhere_match_of(name: Seq<char>) -> Seq<char> {
    "not state:focused and not "@ + session_match_of(name)
}

/// The match expression for a tab outside the session `name` to move to.
pub fn elsewhere_match(name: &str) -> (m: String)
    ensures
        m@ == elsewhere_match_of(name@),
{
    let mut m = String::from_str("not state:focused and not ");
    m.append(session_match(name).as_str());
    m
}

/// The expression that matches tabs created in no session.
pub open spec fn no_session_match_of() -> Seq<char> {
    "session:^$"@
}

proof fn lemma_escape_piece_no_white_space(c: char)
    ensures
        !has_white_space(escape_piece(c)),
{
    let p = escape_piece(c);
    assert forall|i: int| 0 <= i < p.len() implies !is_white_space(#[trigger] p[i]) by {
        if is_white_space(c) {
            assert(p[i] == '\\' || p[i] == 's');
        } else if is_regex_special(c) {
            assert(p[i] == '\\' || p[i] == c);
        } else {
            assert(p[i] == c);
        }
    }
}

/// An escaped name holds no white space.
pub proof fn lemma_escaped_no_white_space(s: Seq<char>)
    ensures
        !has_white_space(escaped(s)),
    decreases s.len(),
{
    if s.len() > 0 {
        lemma_escaped_no_white_space(s.drop_first());
        lemma_escape_piece_no_white_space(s[0]);
        let p = escape_piece(s[0]);
        let r = escaped(s.drop_first());
        assert forall|i: int| 0 <= i < (p + r).len() implies !is_white_space(#[trigger] (p
            + r)[i]) by {
            if i < p.len() {
                assert((p + r)[i] == p[i]);
            } else {
                assert((p + r)[i] == r[i - p.len()]);
            }
        }
    }
}

/// The match expression for a session is a single token: it holds no white
/// space, whatever the name.
pub proof fn lemma_session_match_one_token(name: Seq<char>)
    ensures
        !has_white_space(session_match_of(name)),
{
    reveal_strlit("session:^");
    reveal_strlit("$");
    lemma_escaped_no_white_space(name);
    let a = "session:^"@;
    let e = escaped(name);
    let m = session_match_of(name);
    assert forall|i: int| 0 <= i < m.len() implies !is_white_space(#[trigger] m[i]) by {
        if i < a.len() {
            assert(m[i] == a[i]);
        } else if i < a.len() + e.len() {
            assert(m[i] == e[i - a.len()]);
        } else {
            assert(m[i] == '$');
        }
    }
}

/// `a` and `b` are equal but for which white space characters they hold.
pub open spec fn equal_but_white_space(a: Seq<char>, b: Seq<char>) -> bool {
    a.len() == b.len() && forall|i: int|
        0 <= i < a.len() ==> (a[i] == b[i] || (is_white_space(a[i]) && is_white_space(b[i])))
}

/// Two names give the same escaped form only when they differ at most in
/// which white space characters they hold; so `test` and `test2` never share
/// a match expression.
pub proof fn lemma_escaped_injective(a: Seq<char>, b: Seq<char>)
    requires
        escaped(a) == escaped(b),
    ensures
        equal_but_white_space(a, b),
    decreases a.len(),
{
    if a.len() == 0 {
        if b.len() > 0 {
            assert(escaped(b).len() > 0);
        }
    } else if b.len() == 0 {
        assert(escaped(a).len() > 0);
    } else {
        let pa = escape_piece(a[0]);
        let pb = escape_piece(b[0]);
        let ra = escaped(a.drop_first());
        let rb = escaped(b.drop_first());
        assert(escaped(a) == pa + ra);
        assert(escaped(b) == pb + rb);
        assert(pa[0] == (pa + ra)[0]);
        assert(pb[0] == (pb + rb)[0]);
        assert(pa.len() == pb.len()) by {
            if pa.len() == 2 && pb.len() == 1 {
                assert(pa[0] == '\\');
                assert(pb[0] == b[0]);
                assert(false);
            }
            if pa.len() == 1 && pb.len() == 2 {
                assert(pb[0] == '\\');
                assert(pa[0] == a[0]);
                assert(false);
            }
        }
        assert forall|k: int| 0 <= k < pa.len() implies pa[k] == pb[k] by {
            assert(pa[k] == (pa + ra)[k]);
            assert(pb[k] == (pb + rb)[k]);
        }
        assert(ra =~= (pa + ra).subrange(pa.len() as int, (pa + ra).len() as int));
        assert(rb =~= (pb + rb).subrange(pb.len() as int, (pb + rb).len() as int));
        lemma_escaped_injective(a.drop_first(), b.drop_first());
        assert(a[0] == b[0] || (is_white_space(a[0]) && is_white_space(b[0])));
        assert forall|i: int| 0 <= i < a.len() implies (a[i] == b[i] || (is_white_space(a[i])
            && is_white_space(b[i]))) by {
            if i > 0 {
                assert(a[i] == a.drop_first()[i - 1]);
                assert(b[i] == b.drop_first()[i - 1]);
            }
        }
    }
}

} // verus!

verus! {

/// `kitten @ ls --match-tab <expr>`: exits with success exactly when some tab matches.
pub open spec fn match_tab_args_of(expr: Seq<char>) -> Seq<Seq<char>> {
    seq!["@"@, "ls"@, "--match-tab"@, expr]
}

/// The arguments of the query "does some tab match `expr`".
pub fn match_tab_args(expr: &str) -> (v: Vec<String>)
    ensures
        views(v@) == match_tab_args_of(expr@),
{
    let v = vec![
        String::from_str("@"),
        String::from_str("ls"),
        String::from_str("--match-tab"),
        String::from_str(expr),
    ];
    assert(views(v@) =~= match_tab_args_of(expr@));
    v
}

/// `kitten @ focus-tab --match <expr>`.
pub open spec fn focus_tab_args_of(expr: Seq<char>) -> Seq<Seq<char>> {
    seq!["@"@, "focus-tab"@, "--match"@, expr]
}

/// The arguments that focus a tab matching `expr`.
pub fn focus_tab_args(expr: &str) -> (v: Vec<String>)
    ensures
        views(v@) == focus_tab_args_of(expr@),
{
    let v = vec![
        String::from_str("@"),
        String::from_str("focus-tab"),
        String::from_str("--match"),
        String::from_str(expr),
    ];
    assert(views(v@) =~= focus_tab_args_of(expr@));
    v
}

/// `kitten @ action goto_session '<path>'`.
pub open spec fn goto_session_args_of(path: Seq<char>) -> Seq<Seq<char>> {
    seq!["@"@, "action"@, "goto_session"@, quoted(path)]
}

/// The arguments that switch kitty to the session file `path`.
pub fn goto_session_args(path: &str) -> (v: Vec<String>)
    ensures
        views(v@) == goto_session_args_of(path@),
{
    let v = vec![
        String::from_str("@"),
        String::from_str("action"),
        String::from_str("goto_session"),
        quote_action_arg(path),
    ];
    assert(views(v@) =~= goto_session_args_of(path@));
    v
}

/// `kitten @ action goto_session -1`: back to the previously active session.
pub open spec fn goto_previous_args_of() -> Seq<Seq<char>> {
    seq!["@"@, "action"@, "goto_session"@, "-1"@]
}

/// The arguments that switch kitty back to the previously active session.
pub fn goto_previous_args() -> (v: Vec<String>)
    ensures
        views(v@) == goto_previous_args_of(),
{
    let v = vec![
        String::from_str("@"),
        String::from_str("action"),
        String::from_str("goto_session"),
        String::from_str("-1"),
    ];
    assert(views(v@) =~= goto_previous_args_of());
    v
}

/// `kitten @ launch --type=tab --cwd=current`: a new tab in no session.
pub open spec fn launch_tab_args_of() -> Seq<Seq<char>> {
    seq!["@"@, "launch"@, "--type=tab"@, "--cwd=current"@]
}

/// The arguments that open a new tab belonging to no session.
pub fn launch_tab_args() -> (v: Vec<String>)
    ensures
        views(v@) == launch_tab_args_of(),
{
    let v = vec![
        String::from_str("@"),
        String::from_str("launch"),
        String::from_str("--type=tab"),
        String::from_str("--cwd=current"),
    ];
    assert(views(v@) =~= launch_tab_args_of());
    v
}

/// `kitten @ action close_session '<name>'`: closes every window of the session.
pub open spec fn close_session_args_of(name: Seq<char>) -> Seq<Seq<char>> {
    seq!["@"@, "action"@, "close_session"@, quoted(name)]
}

/// The arguments that close every window of the session `name`.
pub fn close_session_args(name: &str) -> (v: Vec<String>)
    ensures
        views(v@) == close_session_args_of(name@),
{
    let v = vec![
        String::from_str("@"),
        String::from_str("action"),
        String::from_str("close_session"),
        quote_action_arg(name),
    ];
    assert(views(v@) =~= close_session_args_of(name@));
    v
}

/// `kitten @ action save_as_session` for the session `name`, written to the
/// file `session` in `dir`, with foreground processes recorded.
pub open spec fn save_as_session_args_of(
    dir: Seq<char>,
    name: Seq<char>,
    session: Seq<char>,
) -> Seq<Seq<char>> {
    seq![
        "@"@,
        "action"@,
        "save_as_session"@,
        "--base-dir"@,
        quoted(dir),
        "--save-only"@,
        "--use-foreground-process"@,
        quoted("--match="@ + session_match_of(name)),
        quoted(session),
    ]
}

/// The arguments that save the current state of the session `name` to its file `session`.
pub fn save_as_session_args(dir: &str, name: &str, session: &str) -> (v: Vec<String>)
    ensures
        views(v@) == save_as_session_args_of(dir@, name@, session@),
{
    let mut m = String::from_str("--match=");
    m.append(session_match(name).as_str());
    let v = vec![
        String::from_str("@"),
        String::from_str("action"),
        String::from_str("save_as_session"),
        String::from_str("--base-dir"),
        quote_action_arg(dir),
        String::from_str("--save-only"),
        String::from_str("--use-foreground-process"),
        quote_action_arg(m.as_str()),
        quote_action_arg(session),
    ];
    assert(views(v@) =~= save_as_session_args_of(dir@, name@, session@));
    v
}

} // verus!

verus! {

/// The characters that get a backslash in a match expression are exactly
/// those of `\.+*?()|[]{}^$#`; white space becomes `\s`; every other
/// character, every letter and digit among them, is written as itself.
pub proof fn law_escape_piece(c: char)
    ensures
        is_white_space(c) ==> escape_piece(c) == seq!['\\', 's'],
        !is_white_space(c) && "\\.+*?()|[]{}^$#"@.contains(c) ==> escape_piece(c) == seq!['\\', c],
        !is_white_space(c) && !"\\.+*?()|[]{}^$#"@.contains(c) ==> escape_piece(c) == seq![c],
        ('a' <= c <= 'z' || 'A' <= c <= 'Z' || '0' <= c <= '9') ==> escape_piece(c) == seq![c],
{
    reveal_strlit("\\.+*?()|[]{}^$#");
    let set = "\\.+*?()|[]{}^$#"@;
    if is_regex_special(c) {
        assert(set.contains(c)) by {
            if c == '\\' { assert(set[0] == c); }
            else if c == '.' { assert(set[1] == c); }
            else if c == '+' { assert(set[2] == c); }
            else if c == '*' { assert(set[3] == c); }
            else if c == '?' { assert(set[4] == c); }
            else if c == '(' { assert(set[5] == c); }
            else if c == ')' { assert(set[6] == c); }
            else if c == '|' { assert(set[7] == c); }
            else if c == '[' { assert(set[8] == c); }
            else if c == ']' { assert(set[9] == c); }
            else if c == '{' { assert(set[10] == c); }
            else if c == '}' { assert(set[11] == c); }
            else if c == '^' { assert(set[12] == c); }
            else if c == '$' { assert(set[13] == c); }
            else { assert(set[14] == c); }
        }
    }
    if set.contains(c) {
        let i = choose|i: int| 0 <= i < set.len() && set[i] == c;
        assert(is_regex_special(c));
    }
    if 'a' <= c <= 'z' || 'A' <= c <= 'Z' || '0' <= c <= '9' {
        assert(!is_white_space(c));
    }
}

/// A name with no white space and none of `\.+*?()|[]{}^$#` is escaped to itself.
pub proof fn law_plain_name_unescaped(s: Seq<char>)
    requires
        forall|i: int|
            0 <= i < s.len() ==> !is_white_space(#[trigger] s[i]) && !"\\.+*?()|[]{}^$#"@.contains(
                s[i],
            ),
    ensures
        escaped(s) == s,
    decreases s.len(),
{
    if s.len() > 0 {
        law_escape_piece(s[0]);
        let r = s.drop_first();
        assert forall|i: int| 0 <= i < r.len() implies !is_white_space(#[trigger] r[i])
            && !"\\.+*?()|[]{}^$#"@.contains(r[i]) by {
            assert(r[i] == s[i + 1]);
        }
        law_plain_name_unescaped(r);
        assert(s =~= seq![s[0]] + r);
    }
}

} // verus!
