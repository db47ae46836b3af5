//! Text as sequences of characters: searching, cutting and joining.
//!
//! Every function states its result over the `Seq<char>` view of its
//! arguments.
use vstd::prelude::*;
use vstd::string::*;

verus! {

/// `text` with every occurrence of `pat` taken out, scanning from the left
/// and never looking again at characters that belonged to a removed
/// occurrence. An empty `pat` removes nothing.
pub open spec fn without(text: Seq<char>, pat: Seq<char>) -> Seq<char>
    decreases text.len(),
{
    if pat.len() == 0 || text.len() == 0 {
        text
    } else if pat.is_prefix_of(text) {
        without(text.skip(pat.len() as int), pat)
    } else {
        seq![text[0]] + without(text.skip(1), pat)
    }
}

/// Two token texts side by side: a single blank separates them, and an
/// empty text leaves the other as it is.
pub open spec fn spaced(left: Seq<char>, right: Seq<char>) -> Seq<char> {
    if left.len() == 0 {
        right
    } else if right.len() == 0 {
        left
    } else {
        left + seq![' '] + right
    }
}

/// Two list items side by side: a comma between blanks separates them, and
/// an empty left side leaves the right as it is.
pub open spec fn listed(left: Seq<char>, right: Seq<char>) -> Seq<char> {
    if left.len() == 0 {
        right
    } else {
        left + seq![' ', ',', ' '] + right
    }
}

/// The characters of `s`, in order, for constant-time indexing.
pub fn chars_of(s: &str) -> (v: Vec<char>)
    ensures
        v@ == s@,
{
    let mut v: Vec<char> = Vec::new();
    for c in it: s.chars()
        invariant
            v@ == it.seq().take(it.index()),
            it.seq() == s@,
    {
        v.push(c);
    }
    v
}

/// Whether `pat` occurs in `text` starting at index `at`.
pub open spec fn occurs_at(text: Seq<char>, at: int, pat: Seq<char>) -> bool {
    0 <= at && at + pat.len() <= text.len() && text.subrange(at, at + pat.len()) == pat
}

/// Tests `occurs_at` on character vectors.
pub fn matches_at(text: &Vec<char>, at: usize, pat: &Vec<char>) -> (r: bool)
    ensures
        r == occurs_at(text@, at as int, pat@),
{
    if at > text.len() || pat.len() > text.len() - at {
        return false;
    }
    let mut k: usize = 0;
    while k < pat.len()
        invariant
            at + pat.len() <= text.len(),
            k <= pat.len(),
            forall|j: int| 0 <= j < k ==> text@[at + j] == pat@[j],
        decreases pat.len() - k,
    {
        if text[at + k] != pat[k] {
            proof {
                assert(text@.subrange(at as int, at + pat.len())[k as int] != pat@[k as int]);
            }
            return false;
        }
        k += 1;
    }
    proof {
        assert(text@.subrange(at as int, at + pat.len()) =~= pat@);
    }
    true
}

/// Whether `text` begins with `prefix`.
pub fn has_prefix(text: &str, prefix: &str) -> (r: bool)
    ensures
        r == prefix@.is_prefix_of(text@),
{
    let t = chars_of(text);
    let p = chars_of(prefix);
    let r = matches_at(&t, 0, &p);
    proof {
        if prefix@.len() <= text@.len() {
            assert(text@.subrange(0, prefix@.len() as int) =~= text@.take(prefix@.len() as int));
        }
    }
    r
}

/// Whether the two texts hold the same characters.
pub fn same_text(a: &str, b: &str) -> (r: bool)
    ensures
        r == (a@ == b@),
{
    let x = chars_of(a);
    let y = chars_of(b);
    if x.len() != y.len() {
        return false;
    }
    let r = matches_at(&x, 0, &y);
    proof {
        assert(x@.subrange(0, x@.len() as int) =~= x@);
    }
    r
}

/// `without`, computed: a copy of `text` with every occurrence of `pat` removed.
pub fn remove_all(text: &str, pat: &str) -> (out: String)
    ensures
        out@ == without(text@, pat@),
{
    let t = chars_of(text);
    let p = chars_of(pat);
    let mut out = String::new();
    if p.len() == 0 {
        out.append(text);
        assert(out@ =~= text@);
        return out;
    }
    let mut start: usize = 0;
    let mut i: usize = 0;
    assert(t@.subrange(0, 0) =~= Seq::<char>::empty());
    assert(t@.skip(0) =~= t@);
    assert(out@ + t@.subrange(0, 0) =~= Seq::<char>::empty());
    while i < t.len()
        invariant
            p@ == pat@,
            t@ == text@,
            p.len() > 0,
            start <= i <= t.len(),
            out@ + t@.subrange(start as int, i as int) + without(t@.skip(i as int), p@) == without(
                t@,
                p@,
            ),
        decreases t.len() - i,
    {
        let ghost rest = t@.skip(i as int);
        if matches_at(&t, i, &p) {
            proof {
                assert(rest.subrange(0, p@.len() as int) =~= t@.subrange(
                    i as int,
                    i + p@.len(),
                ));
                assert(p@.is_prefix_of(rest));
                assert(rest.skip(p@.len() as int) =~= t@.skip(i + p@.len()));
                assert(t@.subrange(i + p@.len(), i + p@.len()) =~= Seq::<char>::empty());
            }
            out.append(text.substring_char(start, i));
            i += p.len();
            start = i;
            assert(out@ + t@.subrange(start as int, i as int) =~= out@);
        } else {
            proof {
                if p@.len() <= rest.len() {
                    assert(rest.subrange(0, p@.len() as int) =~= t@.subrange(
                        i as int,
                        i + p@.len(),
                    ));
                }
                assert(!p@.is_prefix_of(rest));
                assert(rest.skip(1) =~= t@.skip(i + 1));
                assert(t@.subrange(start as int, i as int) + seq![rest[0]] =~= t@.subrange(
                    start as int,
                    i + 1,
                ));
                assert(out@ + t@.subrange(start as int, i as int) + (seq![rest[0]] + without(
                    rest.skip(1),
                    p@,
                )) =~= out@ + t@.subrange(start as int, i + 1) + without(rest.skip(1), p@));
            }
            i += 1;
        }
    }
    proof {
        assert(t@.skip(i as int) =~= Seq::<char>::empty());
        assert(out@ + t@.subrange(start as int, i as int) + Seq::<char>::empty() =~= out@
            + t@.subrange(start as int, i as int));
    }
    out.append(text.substring_char(start, i));
    out
}

/// Appends `piece` to `out`, with a blank between them when neither is empty.
pub fn push_spaced(out: &mut String, piece: &str)
    ensures
        final(out)@ == spaced(old(out)@, piece@),
{
    if piece.is_empty() {
        return ;
    }
    if !out.as_str().is_empty() {
        proof {
            reveal_strlit(" ");
        }
        out.append(" ");
        assert(" "@ =~= seq![' ']);
    }
    out.append(piece);
    assert(out@ =~= spaced(old(out)@, piece@));
}

/// Appends `item` to the list text `out`, after a comma when `out` is not empty.
pub fn push_listed(out: &mut String, item: &str)
    ensures
        final(out)@ == listed(old(out)@, item@),
{
    if !out.as_str().is_empty() {
        proof {
            reveal_strlit(" , ");
        }
        out.append(" , ");
        assert(" , "@ =~= seq![' ', ',', ' ']);
    }
    out.append(item);
    assert(out@ =~= listed(old(out)@, item@));
}

} // verus!
