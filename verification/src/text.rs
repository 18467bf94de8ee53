//! Verified helpers on strings: comparison, joining, and replacing
//! substrings.

use vstd::prelude::*;

verus! {

/// Whether two strings hold the same characters.
pub fn text_eq(a: &str, b: &str) -> (r: bool)
    ensures
        r == (a@ == b@),
{
    let n = a.unicode_len();
    if n != b.unicode_len() {
        return false;
    }
    let mut i: usize = 0;
    while i < n
        invariant
            n == a@.len(),
            n == b@.len(),
            i <= n,
            forall|j: int| 0 <= j < i ==> a@[j] == b@[j],
        decreases n - i,
    {
        if a.get_char(i) != b.get_char(i) {
            return false;
        }
        i += 1;
    }
    assert(a@ =~= b@);
    true
}

/// The characters of a string.
pub fn chars_of(s: &str) -> (v: Vec<char>)
    ensures
        v@ == s@,
{
    let n = s.unicode_len();
    let mut v: Vec<char> = Vec::new();
    let mut i: usize = 0;
    while i < n
        invariant
            n == s@.len(),
            i <= n,
            v@ == s@.take(i as int),
        decreases n - i,
    {
        v.push(s.get_char(i));
        assert(v@ =~= s@.take(i + 1));
        i += 1;
    }
    assert(s@.take(n as int) =~= s@);
    v
}

/// The concatenation of two strings.
pub fn concat(a: &str, b: &str) -> (r: String)
    ensures
        r@ == a@ + b@,
{
    let mut r = a.to_owned();
    r.append(b);
    r
}

/// The elements of `list` in order, with `sep` between each two of them.
pub open spec fn join(list: Seq<Seq<char>>, sep: Seq<char>) -> Seq<char>
    decreases list.len(),
{
    if list.len() == 0 {
        seq![]
    } else if list.len() == 1 {
        list[0]
    } else {
        join(list.drop_last(), sep) + sep + list.last()
    }
}

/// Joining a list whose first element is `x` puts `x` first, then the
/// separator, then the rest joined, when there is a rest.
pub proof fn lemma_join_prepend(x: Seq<char>, rest: Seq<Seq<char>>, sep: Seq<char>)
    requires
        rest.len() > 0,
    ensures
        join(seq![x] + rest, sep) == x + sep + join(rest, sep),
    decreases rest.len(),
{
    let l = seq![x] + rest;
    if rest.len() == 1 {
        assert(l.drop_last() =~= seq![x]);
        assert(l.last() == rest[0]);
        assert(join(seq![x], sep) == x);
        assert(join(l, sep) == join(l.drop_last(), sep) + sep + l.last());
        assert(join(rest, sep) == rest[0]);
    } else {
        assert(l.drop_last() =~= seq![x] + rest.drop_last());
        lemma_join_prepend(x, rest.drop_last(), sep);
        assert(l.last() == rest.last());
        assert(join(l, sep) == join(seq![x] + rest.drop_last(), sep) + sep + rest.last());
        assert(join(rest, sep) == join(rest.drop_last(), sep) + sep + rest.last());
        assert((x + sep + join(rest.drop_last(), sep)) + sep + rest.last() =~= x + sep + (
        join(rest.drop_last(), sep) + sep + rest.last()));
    }
}

/// The elements of `list` in order, one after the other.
pub open spec fn concat_all(list: Seq<Seq<char>>) -> Seq<char>
    decreases list.len(),
{
    if list.len() == 0 {
        seq![]
    } else {
        concat_all(list.drop_last()) + list.last()
    }
}

/// The views of a list of strings.
pub open spec fn views(list: Seq<String>) -> Seq<Seq<char>> {
    list.map_values(|s: String| s@)
}

/// Joins strings with a separator between each two of them.
pub fn join_strings(list: &Vec<String>, sep: &str) -> (r: String)
    ensures
        r@ == join(views(list@), sep@),
{
    let mut r = String::new();
    let ghost all = views(list@);
    let mut i: usize = 0;
    while i < list.len()
        invariant
            all == views(list@),
            i <= list.len(),
            r@ == join(all.take(i as int), sep@),
        decreases list.len() - i,
    {
        if i != 0 {
            r.append(sep);
        }
        r.append(list[i].as_str());
        assert(all.take(i + 1).drop_last() =~= all.take(i as int));
        i += 1;
    }
    assert(all.take(list.len() as int) =~= all);
    r
}

/// The result of replacing, from left to right, each non-overlapping
/// occurrence of the non-empty pattern `pat` in `s` by `rep`.
pub open spec fn replace_all(s: Seq<char>, pat: Seq<char>, rep: Seq<char>) -> Seq<char>
    decreases s.len(),
{
    if pat.len() == 0 || s.len() < pat.len() {
        s
    } else if s.take(pat.len() as int) == pat {
        rep + replace_all(s.skip(pat.len() as int), pat, rep)
    } else {
        seq![s[0]] + replace_all(s.skip(1), pat, rep)
    }
}

/// Replacing the pattern in a string that is exactly the pattern gives
/// the replacement.
pub proof fn lemma_replace_all_whole(pat: Seq<char>, rep: Seq<char>)
    requires
        pat.len() > 0,
    ensures
        replace_all(pat, pat, rep) == rep,
{
    assert(pat.take(pat.len() as int) =~= pat);
    assert(pat.skip(pat.len() as int).len() == 0);
    assert(replace_all(pat.skip(pat.len() as int), pat, rep) == pat.skip(pat.len() as int));
    assert(rep + pat.skip(pat.len() as int) =~= rep);
}

/// A string shorter than the pattern is left as it is.
pub proof fn lemma_replace_all_shorter(s: Seq<char>, pat: Seq<char>, rep: Seq<char>)
    requires
        s.len() < pat.len(),
    ensures
        replace_all(s, pat, rep) == s,
{
}

/// A string in which the first character of the pattern does not occur is
/// left as it is.
pub proof fn lemma_replace_all_absent(s: Seq<char>, pat: Seq<char>, rep: Seq<char>)
    requires
        pat.len() > 0,
        forall|i: int| 0 <= i < s.len() ==> s[i] != pat[0],
    ensures
        replace_all(s, pat, rep) == s,
    decreases s.len(),
{
    if s.len() >= pat.len() {
        assert(s.take(pat.len() as int)[0] != pat[0]);
        lemma_replace_all_absent(s.skip(1), pat, rep);
        assert(seq![s[0]] + s.skip(1) =~= s);
    }
}

/// Whether `pat` occurs in `s` at position `i`.
fn occurs_at(s: &Vec<char>, i: usize, pat: &Vec<char>) -> (r: bool)
    requires
        i + pat@.len() <= s@.len(),
    ensures
        r == (s@.subrange(i as int, i + pat@.len()) == pat@),
{
    let mut j: usize = 0;
    while j < pat.len()
        invariant
            i + pat@.len() <= s@.len(),
            j <= pat@.len(),
            forall|k: int| 0 <= k < j ==> s@[i + k] == pat@[k],
        decreases pat@.len() - j,
    {
        assert(i + j < s.len());
        if s[i + j] != pat[j] {
            assert(s@.subrange(i as int, i + pat@.len())[j as int] != pat@[j as int]);
            return false;
        }
        j += 1;
    }
    assert(s@.subrange(i as int, i + pat@.len()) =~= pat@);
    true
}

/// Replaces each non-overlapping occurrence of the non-empty pattern `pat`
/// in `s` by `rep`, scanning from left to right (as `str::replace` does).
pub fn replace(s: &str, pat: &str, rep: &str) -> (r: String)
    requires
        pat@.len() > 0,
    ensures
        r@ == replace_all(s@, pat@, rep@),
{
    let sc = chars_of(s);
    let pc = chars_of(pat);
    let n = sc.len();
    let m = pc.len();
    let mut out = String::new();
    // `s[start..i]` has been scanned without a match and is not yet copied.
    let mut start: usize = 0;
    let mut i: usize = 0;
    assert(s@.skip(0) =~= s@);
    assert(out@ + s@.subrange(0, 0) + s@ =~= s@);
    while i < n
        invariant
            sc@ == s@,
            pc@ == pat@,
            n == s@.len(),
            m == pat@.len(),
            m > 0,
            start <= i <= n,
            out@ + s@.subrange(start as int, i as int) + replace_all(s@.skip(i as int), pat@, rep@)
                == replace_all(s@, pat@, rep@),
        decreases n - i,
    {
        let ghost rest = s@.skip(i as int);
        let ghost pending = s@.subrange(start as int, i as int);
        if m <= n - i && occurs_at(&sc, i, &pc) {
            assert(rest.take(m as int) =~= s@.subrange(i as int, i + m));
            assert(rest.skip(m as int) =~= s@.skip(i + m));
            let ghost before = out@;
            let run = s.substring_char(start, i);
            out.append(run);
            out.append(rep);
            assert(out@ + s@.subrange((i + m) as int, (i + m) as int) + replace_all(
                s@.skip(i + m),
                pat@,
                rep@,
            ) =~= before + pending + replace_all(rest, pat@, rep@));
            i += m;
            start = i;
        } else {
            proof {
                if i + m <= n {
                    assert(rest.take(m as int) =~= s@.subrange(i as int, i + m));
                }
                assert(rest.skip(1) =~= s@.skip(i + 1));
                if rest.len() < m {
                    assert(replace_all(rest, pat@, rep@) == rest);
                    assert(rest.skip(1).len() < m);
                    assert(replace_all(rest.skip(1), pat@, rep@) == rest.skip(1));
                    assert(rest =~= seq![rest[0]] + rest.skip(1));
                }
                assert(replace_all(rest, pat@, rep@) == seq![s@[i as int]] + replace_all(
                    s@.skip(i + 1),
                    pat@,
                    rep@,
                ));
                assert(s@.subrange(start as int, i + 1) =~= pending + seq![s@[i as int]]);
            }
            i += 1;
        }
    }
    let run = s.substring_char(start, n);
    proof {
        assert(s@.skip(n as int) =~= Seq::<char>::empty());
    }
    out.append(run);
    proof {
        assert(out@ =~= out@ + replace_all(s@.skip(n as int), pat@, rep@));
    }
    out
}

} // verus!
