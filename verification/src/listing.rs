//! Where session files live, and which of them the picker lists.
use vstd::prelude::*;

use crate::names::SESSION_EXTENSION;
use crate::text::{chars_of, ends_with, ends_with_at, push_char, string_of};

verus! {

broadcast use vstd::seq_lib::group_to_multiset_ensures;

/// The path `part` joined onto `dir` (`Path::join` on Unix): an absolute
/// `part` replaces `dir`; otherwise a `/` separates them unless `dir` is
/// empty or already ends with one.
pub open spec fn joined(dir: Seq<char>, part: Seq<char>) -> Seq<char> {
    if part.len() > 0 && part[0] == '/' {
        part
    } else if dir.len() == 0 || dir.last() == '/' {
        dir + part
    } else {
        dir + seq!['/'] + part
    }
}

/// `part` joined onto `dir`, as [`joined`] describes.
pub fn join_path(dir: &str, part: &str) -> (p: String)
    ensures
        p@ == joined(dir@, part@),
{
    let d = chars_of(dir);
    let q = chars_of(part);
    if q.len() > 0 && q[0] == '/' {
        return String::from_str(part);
    }
    let mut p = String::from_str(dir);
    if !(d.len() == 0 || d[d.len() - 1] == '/') {
        push_char(&mut p, '/');
    }
    p.append(part);
    p
}

/// The sessions directory below the home directory `home`, or why there is none.
pub fn session_dir(home: Option<String>) -> (r: Result<String, String>)
    ensures
        match home {
            None => r matches Err(m) && m@ == "HOME is not set."@,
            Some(h) => r matches Ok(d) && d@ == joined(h@, ".config/kitty/sessions"@),
        },
{
    match home {
        None => Err(String::from_str("HOME is not set.")),
        Some(h) => Ok(join_path(h.as_str(), ".config/kitty/sessions")),
    }
}

/// Code-point lexicographic order, which is how `String`s compare.
pub open spec fn lex_le(a: Seq<char>, b: Seq<char>) -> bool
    decreases a.len(),
{
    if a.len() == 0 {
        true
    } else if b.len() == 0 {
        false
    } else if a[0] != b[0] {
        (a[0] as int) < (b[0] as int)
    } else {
        lex_le(a.drop_first(), b.drop_first())
    }
}

/// The names in `s` are in ascending order.
pub open spec fn is_sorted(s: Seq<Seq<char>>) -> bool {
    forall|i: int, j: int| 0 <= i < j < s.len() ==> lex_le(#[trigger] s[i], #[trigger] s[j])
}

/// The character views of a sequence of strings.
pub open spec fn views(v: Seq<String>) -> Seq<Seq<char>> {
    v.map_values(|s: String| s@)
}

/// The character views of a sequence of character vectors.
pub open spec fn vviews(v: Seq<Vec<char>>) -> Seq<Seq<char>> {
    v.map_values(|s: Vec<char>| s@)
}

/// The session names that the directory entries `entries` stand for, in
/// entry order: each entry that ends with the extension, without it.
pub open spec fn listed_names(entries: Seq<Seq<char>>) -> Seq<Seq<char>>
    decreases entries.len(),
{
    if entries.len() == 0 {
        seq![]
    } else {
        let rest = listed_names(entries.drop_last());
        let e = entries.last();
        if ends_with(e, SESSION_EXTENSION@) {
            rest.push(e.subrange(0, e.len() - SESSION_EXTENSION@.len()))
        } else {
            rest
        }
    }
}

proof fn lemma_lex_total(a: Seq<char>, b: Seq<char>)
    ensures
        lex_le(a, b) || lex_le(b, a),
    decreases a.len(),
{
    if a.len() > 0 && b.len() > 0 {
        if a[0] == b[0] {
            lemma_lex_total(a.drop_first(), b.drop_first());
        } else {
            assert((a[0] as int) != (b[0] as int));
        }
    }
}

proof fn lemma_lex_trans(a: Seq<char>, b: Seq<char>, c: Seq<char>)
    requires
        lex_le(a, b),
        lex_le(b, c),
    ensures
        lex_le(a, c),
    decreases a.len(),
{
    if a.len() > 0 && b.len() > 0 && c.len() > 0 && a[0] == b[0] && b[0] == c[0] {
        lemma_lex_trans(a.drop_first(), b.drop_first(), c.drop_first());
    }
}

proof fn lemma_lex_skip(a: Seq<char>, b: Seq<char>, i: int)
    requires
        0 <= i <= a.len(),
        i <= b.len(),
        forall|k: int| 0 <= k < i ==> a[k] == b[k],
    ensures
        lex_le(a, b) == lex_le(a.skip(i), b.skip(i)),
    decreases i,
{
    if i > 0 {
        lemma_lex_skip(a.drop_first(), b.drop_first(), i - 1);
        assert(a.drop_first().skip(i - 1) =~= a.skip(i));
        assert(b.drop_first().skip(i - 1) =~= b.skip(i));
    } else {
        assert(a.skip(0) =~= a);
        assert(b.skip(0) =~= b);
    }
}

/// Whether `a` comes no later than `b` in [`lex_le`] order.
fn lex_le_chars(a: &Vec<char>, b: &Vec<char>) -> (r: bool)
    ensures
        r == lex_le(a@, b@),
{
    let mut i: usize = 0;
    while i < a.len() && i < b.len() && a[i] == b[i]
        invariant
            0 <= i <= a.len(),
            i <= b.len(),
            forall|k: int| 0 <= k < i ==> a@[k] == b@[k],
        decreases a.len() - i,
    {
        i += 1;
    }
    proof {
        lemma_lex_skip(a@, b@, i as int);
    }
    if i == a.len() {
        true
    } else if i == b.len() {
        false
    } else {
        a[i] < b[i]
    }
}

/// The names of `v` in ascending order.
fn sort_names(v: Vec<Vec<char>>) -> (r: Vec<Vec<char>>)
    ensures
        vviews(r@).to_multiset() == vviews(v@).to_multiset(),
        is_sorted(vviews(r@)),
{
    let mut rest = v;
    let mut sorted: Vec<Vec<char>> = Vec::new();
    assert(vviews(rest@) =~= vviews(v@));
    assert(vviews(sorted@) =~= Seq::<Seq<char>>::empty());
    while rest.len() > 0
        invariant
            vviews(sorted@).to_multiset().add(vviews(rest@).to_multiset())
                == vviews(v@).to_multiset(),
            is_sorted(vviews(sorted@)),
        decreases rest.len(),
    {
        let ghost before = rest@;
        let x = rest.pop().unwrap();
        assert(vviews(before) =~= vviews(rest@).push(x@));
        let mut p: usize = 0;
        while p < sorted.len() && lex_le_chars(&sorted[p], &x)
            invariant
                0 <= p <= sorted.len(),
                forall|k: int| 0 <= k < p ==> lex_le(#[trigger] sorted@[k]@, x@),
            decreases sorted.len() - p,
        {
            p += 1;
        }
        let ghost s = vviews(sorted@);
        proof {
            if p < sorted.len() {
                lemma_lex_total(sorted@[p as int]@, x@);
            }
        }
        sorted.insert(p, x);
        let ghost t = vviews(sorted@);
        assert(t =~= s.insert(p as int, x@));
        assert forall|i: int, j: int| 0 <= i < j < t.len() implies lex_le(
            #[trigger] t[i],
            #[trigger] t[j],
        ) by {
            if j < p {
                assert(lex_le(s[i], s[j]));
            } else if j == p {
                assert(lex_le(s[i], x@));
            } else if i < p {
                assert(lex_le(s[i], x@));
                assert(lex_le(x@, s[p as int]));
                if j - 1 > p {
                    assert(lex_le(s[p as int], s[j - 1]));
                    lemma_lex_trans(x@, s[p as int], s[j - 1]);
                }
                lemma_lex_trans(s[i], x@, s[j - 1]);
            } else if i == p {
                assert(lex_le(x@, s[p as int]));
                if j - 1 > p {
                    assert(lex_le(s[p as int], s[j - 1]));
                    lemma_lex_trans(x@, s[p as int], s[j - 1]);
                }
            } else {
                assert(lex_le(s[i - 1], s[j - 1]));
            }
        }
        assert(vviews(sorted@).to_multiset() == s.to_multiset().insert(x@));
    }
    assert(vviews(rest@) =~= Seq::<Seq<char>>::empty());
    sorted
}

/// What reading the sessions directory gave.
#[derive(Debug, PartialEq, Eq)]
pub enum DirListing {
    /// The directory does not exist.
    Missing,
    /// The directory exists but could not be read.
    Unreadable {
        /// The directory, as shown to the user.
        dir: String,
        /// Why it could not be read.
        reason: String,
    },
    /// The names of the directory's entries.
    Entries(Vec<String>),
}

/// The sessions to list, in ascending order, or why the directory could not be read.
/// A missing directory is an empty list; it is created when the first session is created.
pub fn list_sessions(listing: DirListing) -> (r: Result<Vec<String>, String>)
    ensures
        match listing {
            DirListing::Missing => r matches Ok(names) && names@.len() == 0,
            DirListing::Unreadable { dir, reason } => r matches Err(m) && m@
                == "Could not read the sessions directory '"@ + dir@ + "': "@ + reason@ + "."@,
            DirListing::Entries(entries) => r matches Ok(names) && is_sorted(views(names@))
                && views(names@).to_multiset() == listed_names(views(entries@)).to_multiset(),
        },
{
    match listing {
        DirListing::Missing => Ok(Vec::new()),
        DirListing::Unreadable { dir, reason } => {
            let mut m = String::from_str("Could not read the sessions directory '");
            m.append(dir.as_str());
            m.append("': ");
            m.append(reason.as_str());
            m.append(".");
            Err(m)
        },
        DirListing::Entries(entries) => {
            let ext = chars_of(SESSION_EXTENSION);
            let mut found: Vec<Vec<char>> = Vec::new();
            let mut i: usize = 0;
            while i < entries.len()
                invariant
                    0 <= i <= entries.len(),
                    ext@ == SESSION_EXTENSION@,
                    vviews(found@) == listed_names(views(entries@).take(i as int)),
                decreases entries.len() - i,
            {
                let e = chars_of(entries[i].as_str());
                let ghost es = views(entries@);
                assert(es.take(i + 1).drop_last() =~= es.take(i as int));
                assert(es.take(i + 1).last() == e@);
                if ends_with_at(&e, e.len(), &ext) {
                    assert(e@.subrange(0, e@.len() as int) =~= e@);
                    let ghost old_found = vviews(found@);
                    let mut stem: Vec<char> = Vec::new();
                    let mut k: usize = 0;
                    let stop = e.len() - ext.len();
                    while k < stop
                        invariant
                            0 <= k <= stop <= e.len(),
                            stem@ == e@.subrange(0, k as int),
                        decreases stop - k,
                    {
                        stem.push(e[k]);
                        k += 1;
                        assert(stem@ =~= e@.subrange(0, k as int));
                    }
                    found.push(stem);
                    assert(vviews(found@) =~= old_found.push(e@.subrange(0, stop as int)));
                } else {
                    assert(e@.subrange(0, e@.len() as int) =~= e@);
                }
                i += 1;
            }
            assert(views(entries@).take(entries@.len() as int) =~= views(entries@));
            let sorted = sort_names(found);
            let mut names: Vec<String> = Vec::new();
            let mut j: usize = 0;
            while j < sorted.len()
                invariant
                    0 <= j <= sorted.len(),
                    views(names@) == vviews(sorted@).take(j as int),
                decreases sorted.len() - j,
            {
                let s = string_of(&sorted[j], 0, sorted[j].len());
                assert(sorted@[j as int]@.subrange(0, sorted@[j as int]@.len() as int) =~= sorted@[j as int]@);
                let ghost before = names@;
                names.push(s);
                assert(names@ == before.push(s));
                assert(views(names@) =~= views(before).push(s@));
                assert(vviews(sorted@).take(j + 1) =~= vviews(sorted@).take(j as int).push(sorted@[j as int]@));
                assert(views(names@) =~= vviews(sorted@).take(j + 1));
                j += 1;
            }
            assert(vviews(sorted@).take(sorted@.len() as int) =~= vviews(sorted@));
            Ok(names)
        },
    }
}

} // verus!

verus! {

/// The picker lists a name exactly when the directory holds a file of that
/// name with the session extension; files with any other extension are not listed.
pub proof fn law_listed_iff_session_file(entries: Seq<Seq<char>>, name: Seq<char>)
    ensures
        listed_names(entries).contains(name) <==> entries.contains(name + SESSION_EXTENSION@),
    decreases entries.len(),
{
    if entries.len() > 0 {
        let init = entries.drop_last();
        let e = entries.last();
        let f = name + SESSION_EXTENSION@;
        law_listed_iff_session_file(init, name);
        let rest = listed_names(init);
        let k = SESSION_EXTENSION@.len();
        if listed_names(entries).contains(name) {
            let i = choose|i: int| 0 <= i < listed_names(entries).len() && listed_names(entries)[i] == name;
            if ends_with(e, SESSION_EXTENSION@) && i == rest.len() {
                assert(e =~= f);
                assert(entries[entries.len() - 1] == f);
            } else {
                assert(rest[i] == name);
                let j = choose|j: int| 0 <= j < init.len() && init[j] == f;
                assert(entries[j] == f);
            }
        }
        if entries.contains(f) {
            let j = choose|j: int| 0 <= j < entries.len() && entries[j] == f;
            if j == entries.len() - 1 {
                assert(e.subrange(e.len() - k, e.len() as int) =~= SESSION_EXTENSION@);
                assert(e.subrange(0, e.len() - k) =~= name);
                assert(listed_names(entries)[rest.len() as int] == name);
            } else {
                assert(init[j] == f);
                let i = choose|i: int| 0 <= i < rest.len() && rest[i] == name;
                assert(listed_names(entries)[i] == name);
            }
        }
    }
}

} // verus!

verus! {

/// The listing order is code-point lexicographic order: at the first position
/// where two names differ, the one with the smaller code point comes first.
pub proof fn law_order_first_difference(a: Seq<char>, b: Seq<char>, i: int)
    requires
        0 <= i < a.len(),
        i < b.len(),
        forall|k: int| 0 <= k < i ==> a[k] == b[k],
        a[i] != b[i],
    ensures
        lex_le(a, b) <==> (a[i] as int) < (b[i] as int),
        lex_le(b, a) <==> (b[i] as int) < (a[i] as int),
    decreases i,
{
    if i > 0 {
        law_order_first_difference(a.drop_first(), b.drop_first(), i - 1);
    } else {
        assert((a[0] as int) != (b[0] as int));
    }
}

/// A name comes no later than every name it is a prefix of.
pub proof fn law_order_prefix_first(a: Seq<char>, b: Seq<char>)
    requires
        a.len() <= b.len(),
        forall|k: int| 0 <= k < a.len() ==> a[k] == b[k],
    ensures
        lex_le(a, b),
    decreases a.len(),
{
    if a.len() > 0 {
        law_order_prefix_first(a.drop_first(), b.drop_first());
    }
}

/// The listing order never puts two different names on the same footing: if
/// each comes no later than the other, they are the same name. With
/// [`list_sessions`]'s contract this makes the listed sequence the only sorted
/// arrangement of the names.
pub proof fn law_order_antisymmetric(a: Seq<char>, b: Seq<char>)
    requires
        lex_le(a, b),
        lex_le(b, a),
    ensures
        a == b,
    decreases a.len(),
{
    if a.len() > 0 && b.len() > 0 {
        if a[0] == b[0] {
            law_order_antisymmetric(a.drop_first(), b.drop_first());
            assert(a =~= seq![a[0]] + a.drop_first());
            assert(b =~= seq![b[0]] + b.drop_first());
        } else {
            assert((a[0] as int) != (b[0] as int));
        }
    } else {
        assert(a.len() == 0 && b.len() == 0);
        assert(a =~= b);
    }
}

} // verus!
