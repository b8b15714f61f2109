//! Low-level verified helpers over `&str` and `String`.
//!
//! Everything here is stated over the character-sequence view of a string
//! (`s@: Seq<char>`), so the higher-level normalization contracts can speak
//! purely in terms of `Seq<char>`.

use vstd::prelude::*;

verus! {

/// `s` holds the character `c` somewhere.
pub open spec fn spec_contains_char(s: Seq<char>, c: char) -> bool {
    exists|i: int| 0 <= i < s.len() && s[i] == c
}

/// Relies on std's `String::push`: appends exactly the given character.
#[verifier::external_body]
pub(crate) fn push_char(s: &mut String, c: char)
    ensures
        final(s)@ == old(s)@.push(c),
{
    s.push(c)
}

/// Whether `s` holds the character `c`; a linear scan.
pub fn contains_char(s: &str, c: char) -> (r: bool)
    ensures
        r == spec_contains_char(s@, c),
{
    let n: usize = s.unicode_len();
    let mut i: usize = 0;
    while i < n
        invariant
            n == s@.len(),
            i <= n,
            forall|k: int| 0 <= k < i ==> s@[k] != c,
        decreases n - i,
    {
        if s.get_char(i) == c {
            return true;
        }
        i = i + 1;
    }
    false
}

/// An ASCII alphabetic character, `a`-`z` or `A`-`Z`.
pub open spec fn spec_is_letter(c: char) -> bool {
    ('a' as u32) <= (c as u32) <= ('z' as u32) || ('A' as u32) <= (c as u32) <= ('Z' as u32)
}

/// `s` holds at least one ASCII alphabetic character.  A token with a letter
/// is taken to be unit-qualified already (`px`, `em`, `vh`, `calc`, keywords).
pub open spec fn spec_has_letter(s: Seq<char>) -> bool {
    exists|i: int| 0 <= i < s.len() && spec_is_letter(s[i])
}

/// Whether the character is ASCII alphabetic.
pub fn is_letter(c: char) -> (r: bool)
    ensures
        r == spec_is_letter(c),
{
    let v: u32 = c as u32;
    (97 <= v && v <= 122) || (65 <= v && v <= 90)
}

/// Whether `s` holds any ASCII alphabetic character.
pub fn contains_letter(s: &str) -> (r: bool)
    ensures
        r == spec_has_letter(s@),
{
    let n: usize = s.unicode_len();
    let mut i: usize = 0;
    while i < n
        invariant
            n == s@.len(),
            i <= n,
            forall|k: int| 0 <= k < i ==> !spec_is_letter(s@[k]),
        decreases n - i,
    {
        if is_letter(s.get_char(i)) {
            return true;
        }
        i = i + 1;
    }
    false
}

/// Character-for-character string equality.
pub fn str_eq(a: &str, b: &str) -> (r: bool)
    ensures
        r == (a@ == b@),
{
    let an: usize = a.unicode_len();
    let bn: usize = b.unicode_len();
    if an != bn {
        return false;
    }
    let mut i: usize = 0;
    while i < an
        invariant
            an == a@.len(),
            an == b@.len(),
            i <= an,
            forall|k: int| 0 <= k < i ==> a@[k] == b@[k],
        decreases an - i,
    {
        if a.get_char(i) != b.get_char(i) {
            return false;
        }
        i = i + 1;
    }
    proof {
        assert(a@ =~= b@);
    }
    true
}

/// `pat` occurs in `s` as a contiguous run starting at index `i`.
pub open spec fn spec_match_at(s: Seq<char>, pat: Seq<char>, i: int) -> bool {
    0 <= i && i + pat.len() <= s.len() && s.subrange(i, i + pat.len()) == pat
}

/// `pat` occurs somewhere in `s`.
pub open spec fn spec_contains_substr(s: Seq<char>, pat: Seq<char>) -> bool {
    exists|i: int| spec_match_at(s, pat, i)
}

/// Whether `pat` matches `s` at position `i`.
fn match_at(s: &str, pat: &str, i: usize) -> (r: bool)
    requires
        i + pat@.len() <= s@.len(),
        s@.len() <= usize::MAX,
    ensures
        r == spec_match_at(s@, pat@, i as int),
{
    let m: usize = pat.unicode_len();
    let mut j: usize = 0;
    while j < m
        invariant
            m == pat@.len(),
            i + m <= s@.len(),
            s@.len() <= usize::MAX,
            j <= m,
            forall|k: int| 0 <= k < j ==> s@[i + k] == pat@[k],
        decreases m - j,
    {
        if s.get_char(i + j) != pat.get_char(j) {
            proof {
                assert(!spec_match_at(s@, pat@, i as int)) by {
                    if spec_match_at(s@, pat@, i as int) {
                        assert(s@.subrange(i as int, i + m)[j as int] == s@[i + j]);
                    }
                }
            }
            return false;
        }
        j = j + 1;
    }
    proof {
        assert(s@.subrange(i as int, i + m) =~= pat@);
    }
    true
}

/// Naive substring search.
pub fn contains_substr(s: &str, pat: &str) -> (r: bool)
    ensures
        r == spec_contains_substr(s@, pat@),
{
    let n: usize = s.unicode_len();
    let m: usize = pat.unicode_len();
    if m > n {
        return false;
    }
    if m == 0 {
        proof {
            assert(s@.subrange(0, 0) =~= pat@);
            assert(spec_match_at(s@, pat@, 0));
        }
        return true;
    }
    let mut i: usize = 0;
    while i <= n - m
        invariant
            n == s@.len(),
            m == pat@.len(),
            1 <= m <= n,
            i <= n - m + 1,
            forall|k: int| 0 <= k < i ==> !spec_match_at(s@, pat@, k),
        decreases n + 1 - m - i,
    {
        if match_at(s, pat, i) {
            return true;
        }
        i = i + 1;
    }
    proof {
        assert(forall|k: int| spec_match_at(s@, pat@, k) ==> 0 <= k && k + m <= n);
    }
    false
}

/// The tokens of `s` split on the space character, in order.  Splitting the
/// empty string yields one empty token; adjacent spaces yield empty tokens,
/// as `str::split(" ")` does.
pub open spec fn spec_split(s: Seq<char>) -> Seq<Seq<char>>
    decreases s.len(),
{
    if s.len() == 0 {
        seq![Seq::<char>::empty()]
    } else {
        let prev = spec_split(s.drop_last());
        if s.last() == ' ' {
            prev.push(Seq::<char>::empty())
        } else {
            prev.update(prev.len() - 1, prev.last().push(s.last()))
        }
    }
}

/// Splitting always yields at least one token.
pub proof fn lemma_split_nonempty(s: Seq<char>)
    ensures
        spec_split(s).len() >= 1,
    decreases s.len(),
{
    if s.len() != 0 {
        lemma_split_nonempty(s.drop_last());
    }
}

/// The tokens rejoined with single spaces.
pub open spec fn spec_join(ts: Seq<Seq<char>>) -> Seq<char>
    decreases ts.len(),
{
    if ts.len() == 0 {
        Seq::<char>::empty()
    } else if ts.len() == 1 {
        ts[0]
    } else {
        spec_join(ts.drop_last()) + seq![' '] + ts.last()
    }
}

/// Split `s` on the space character.
pub fn split_spaces(s: &str) -> (r: Vec<String>)
    ensures
        r.deep_view() == spec_split(s@),
        r.len() >= 1,
{
    let n: usize = s.unicode_len();
    let mut toks: Vec<String> = Vec::new();
    let mut cur: String = String::new();
    let mut i: usize = 0;
    proof {
        assert(s@.take(0) =~= Seq::<char>::empty());
        assert(toks.deep_view().push(cur@) =~= spec_split(s@.take(0)));
    }
    while i < n
        invariant
            n == s@.len(),
            i <= n,
            toks.deep_view().push(cur@) == spec_split(s@.take(i as int)),
        decreases n - i,
    {
        proof {
            lemma_split_nonempty(s@.take(i as int));
            assert(s@.take(i + 1).drop_last() =~= s@.take(i as int));
            assert(s@.take(i + 1).last() == s@[i as int]);
        }
        let ghost prev_toks = toks.deep_view();
        let ghost prev_cur = cur@;
        let c = s.get_char(i);
        if c == ' ' {
            toks.push(cur);
            cur = String::new();
            proof {
                assert(toks.deep_view() =~= prev_toks.push(prev_cur));
                assert(toks.deep_view().push(cur@) =~= spec_split(s@.take(i + 1)));
            }
        } else {
            push_char(&mut cur, c);
            proof {
                let prev = spec_split(s@.take(i as int));
                assert(prev.last() == prev_cur);
                assert(toks.deep_view().push(cur@) =~= prev.update(
                    prev.len() - 1,
                    prev.last().push(c),
                ));
            }
        }
        i = i + 1;
    }
    proof {
        assert(s@.take(n as int) =~= s@);
    }
    toks.push(cur);
    proof {
        assert(toks.deep_view() =~= spec_split(s@));
    }
    toks
}

/// Join tokens with single spaces.
pub fn join_spaces(toks: &Vec<String>) -> (r: String)
    ensures
        r@ == spec_join(toks.deep_view()),
{
    let n: usize = toks.len();
    if n == 0 {
        return String::new();
    }
    let mut res: String = String::from_str(toks[0].as_str());
    let mut i: usize = 1;
    proof {
        assert(toks.deep_view().take(1) =~= seq![toks.deep_view()[0]]);
    }
    while i < n
        invariant
            n == toks.len(),
            1 <= i <= n,
            res@ == spec_join(toks.deep_view().take(i as int)),
        decreases n - i,
    {
        proof {
            assert(toks.deep_view().take(i + 1).drop_last() =~= toks.deep_view().take(i as int));
            assert(toks.deep_view().take(i + 1).last() == toks.deep_view()[i as int]);
        }
        push_char(&mut res, ' ');
        res.append(toks[i].as_str());
        i = i + 1;
    }
    proof {
        assert(toks.deep_view().take(n as int) =~= toks.deep_view());
    }
    res
}

} // verus!
