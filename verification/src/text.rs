use vstd::prelude::*;

verus! {

/// Whether `pat` occurs in `s` at position `i`.
pub open spec fn occurs_at(s: Seq<char>, pat: Seq<char>, i: int) -> bool {
    0 <= i && i + pat.len() <= s.len() && s.subrange(i, i + pat.len()) == pat
}

/// `s` with every occurrence of the non-empty pattern `pat` replaced by `rep`,
/// the occurrences taken from left to right without overlap.
pub open spec fn spec_replace_all(s: Seq<char>, pat: Seq<char>, rep: Seq<char>) -> Seq<char>
    recommends
        pat.len() > 0,
    decreases s.len(),
{
    if pat.len() == 0 || s.len() < pat.len() {
        s
    } else if s.take(pat.len() as int) == pat {
        rep + spec_replace_all(s.skip(pat.len() as int), pat, rep)
    } else {
        seq![s[0]] + spec_replace_all(s.skip(1), pat, rep)
    }
}

/// Where the pattern does not start the text, the first character is kept
/// and the rest is handled on its own.
proof fn lemma_replace_step_keep(s: Seq<char>, pat: Seq<char>, rep: Seq<char>)
    requires
        pat.len() > 0,
        s.len() > 0,
        !occurs_at(s, pat, 0),
    ensures
        spec_replace_all(s, pat, rep) == seq![s[0]] + spec_replace_all(s.skip(1), pat, rep),
{
    if s.len() < pat.len() {
        assert(seq![s[0]] + s.skip(1) =~= s);
    } else {
        assert(s.take(pat.len() as int) =~= s.subrange(0, pat.len() as int));
    }
}

/// Whether `pat` occurs in `s` at character position `i`.
fn occurs_at_exec(s: &str, pat: &str, i: usize, n: usize, pl: usize) -> (r: bool)
    requires
        n == s@.len(),
        pl == pat@.len(),
        i <= n,
    ensures
        r == occurs_at(s@, pat@, i as int),
{
    if n - i < pl {
        return false;
    }
    let mut j: usize = 0;
    while j < pl
        invariant
            n == s@.len(),
            pl == pat@.len(),
            i + pl <= n,
            j <= pl,
            forall|k: int| 0 <= k < j ==> s@[i + k] == pat@[k],
        decreases pl - j,
    {
        if s.get_char(i + j) != pat.get_char(j) {
            assert(s@.subrange(i as int, i + pl)[j as int] != pat@[j as int]);
            return false;
        }
        j = j + 1;
    }
    assert(s@.subrange(i as int, i + pl) =~= pat@);
    true
}

/// Replaces every occurrence of `pat` in `s` by `rep`, scanning from the left.
pub fn replace_all(s: &str, pat: &str, rep: &str) -> (r: String)
    requires
        pat@.len() > 0,
    ensures
        r@ == spec_replace_all(s@, pat@, rep@),
{
    let n = s.unicode_len();
    let pl = pat.unicode_len();
    let mut res = String::new();
    let mut i: usize = 0;
    assert(s@.skip(0) =~= s@);
    while i < n
        invariant
            n == s@.len(),
            pl == pat@.len(),
            pl > 0,
            i <= n,
            spec_replace_all(s@, pat@, rep@) == res@ + spec_replace_all(s@.skip(i as int), pat@, rep@),
        decreases n - i,
    {
        let ghost rest = s@.skip(i as int);
        if occurs_at_exec(s, pat, i, n, pl) {
            proof {
                assert(rest.take(pl as int) =~= s@.subrange(i as int, i + pl));
                assert(rest.skip(pl as int) =~= s@.skip(i + pl));
                assert(res@ + (rep@ + spec_replace_all(rest.skip(pl as int), pat@, rep@))
                    =~= (res@ + rep@) + spec_replace_all(rest.skip(pl as int), pat@, rep@));
            }
            res.append(rep);
            i = i + pl;
        } else {
            let c = s.substring_char(i, i + 1);
            proof {
                assert(!occurs_at(rest, pat@, 0)) by {
                    if rest.len() >= pl {
                        assert(rest.subrange(0, pl as int) =~= s@.subrange(i as int, i + pl));
                    }
                }
                lemma_replace_step_keep(rest, pat@, rep@);
                assert(c@ =~= seq![rest[0]]);
                assert(rest.skip(1) =~= s@.skip(i + 1));
                assert(res@ + (c@ + spec_replace_all(rest.skip(1), pat@, rep@))
                    =~= (res@ + c@) + spec_replace_all(rest.skip(1), pat@, rep@));
            }
            res.append(c);
            i = i + 1;
        }
    }
    assert(s@.skip(n as int) =~= Seq::<char>::empty());
    assert(res@ + Seq::<char>::empty() =~= res@);
    res
}

/// A text in which the pattern occurs nowhere comes back unchanged.
pub proof fn lemma_replace_all_without_occurrence(s: Seq<char>, pat: Seq<char>, rep: Seq<char>)
    requires
        pat.len() > 0,
        forall|i: int| !occurs_at(s, pat, i),
    ensures
        spec_replace_all(s, pat, rep) == s,
    decreases s.len(),
{
    if s.len() > 0 {
        assert(!occurs_at(s, pat, 0));
        assert forall|i: int| !occurs_at(s.skip(1), pat, i) by {
            if occurs_at(s.skip(1), pat, i) {
                assert(s.subrange(i + 1, i + 1 + pat.len()) =~= s.skip(1).subrange(i, i + pat.len()));
                assert(occurs_at(s, pat, i + 1));
            }
        }
        lemma_replace_step_keep(s, pat, rep);
        lemma_replace_all_without_occurrence(s.skip(1), pat, rep);
        assert(seq![s[0]] + s.skip(1) =~= s);
    }
}

/// Whether two texts hold the same characters.
pub fn str_eq(a: &str, b: &str) -> (r: bool)
    ensures
        r == (a@ == b@),
{
    let n = a.unicode_len();
    if n != b.unicode_len() {
        return false;
    }
    let mut i: usize = 0;
    while i < n
        invariant
            n == a@.len(),
            n == b@.len(),
            i <= n,
            forall|k: int| 0 <= k < i ==> a@[k] == b@[k],
        decreases n - i,
    {
        if a.get_char(i) != b.get_char(i) {
            return false;
        }
        i = i + 1;
    }
    assert(a@ =~= b@);
    true
}

} // verus!
