//! The two shared style-string utilities: coarse unit detection and
//! operator spacing for `calc()`-like arithmetic expressions.

use vstd::prelude::*;

use crate::strutil::{contains_char, push_char, spec_contains_char};

verus! {

/// One of the letters `p`, `e`, `v`, `m`, `c`, `i`, which together cover the
/// CSS units `px`, `pt`, `pc`, `rem`, `em`, `mm`, `in`, `vw`, `vh` and the
/// `calc` function.
pub open spec fn spec_is_unit_letter(c: char) -> bool {
    c == 'p' || c == 'e' || c == 'v' || c == 'm' || c == 'c' || c == 'i'
}

/// The unit-detection heuristic: some character of `s` is a unit letter.
pub open spec fn spec_is_have_unit(s: Seq<char>) -> bool {
    exists|i: int| 0 <= i < s.len() && spec_is_unit_letter(s[i])
}

/// Coarse check for an existing CSS unit: accepts the presence of any of the
/// letters `p`, `e`, `v`, `m`, `c`, `i` anywhere in the token.  The letter
/// set is deliberate and deliberately imprecise; callers rely on exactly
/// these six letters.
pub fn is_have_unit(data: &str) -> (r: bool)
    ensures
        r == spec_is_have_unit(data@),
{
    if contains_char(data, 'p') {
        return true;
    }
    if contains_char(data, 'e') {
        return true;
    }
    if contains_char(data, 'v') {
        return true;
    }
    if contains_char(data, 'm') {
        return true;
    }
    if contains_char(data, 'c') {
        return true;
    }
    if contains_char(data, 'i') {
        return true;
    }
    false
}

/// Every occurrence of `c` in `s` replaced by the three characters
/// space, `c`, space.
pub open spec fn spec_replace_op(s: Seq<char>, c: char) -> Seq<char>
    decreases s.len(),
{
    if s.len() == 0 {
        Seq::<char>::empty()
    } else if s.last() == c {
        spec_replace_op(s.drop_last(), c) + seq![' ', c, ' ']
    } else {
        spec_replace_op(s.drop_last(), c).push(s.last())
    }
}

/// The result of spacing out operators: the first operator kind present, in
/// the priority order `+`, `-`, `*`, `/`, has every occurrence spaced; the
/// remaining kinds are left alone, and a string with no operator is
/// unchanged.
pub open spec fn spec_add_op_space(s: Seq<char>) -> Seq<char> {
    if spec_contains_char(s, '+') {
        spec_replace_op(s, '+')
    } else if spec_contains_char(s, '-') {
        spec_replace_op(s, '-')
    } else if spec_contains_char(s, '*') {
        spec_replace_op(s, '*')
    } else if spec_contains_char(s, '/') {
        spec_replace_op(s, '/')
    } else {
        s
    }
}

/// Replace every occurrence of `c` with space-`c`-space.
fn replace_op(s: &str, c: char) -> (r: String)
    ensures
        r@ == spec_replace_op(s@, c),
{
    let n: usize = s.unicode_len();
    let mut res: String = String::new();
    let mut i: usize = 0;
    proof {
        assert(s@.take(0) =~= Seq::<char>::empty());
    }
    while i < n
        invariant
            n == s@.len(),
            i <= n,
            res@ == spec_replace_op(s@.take(i as int), c),
        decreases n - i,
    {
        proof {
            assert(s@.take(i + 1).drop_last() =~= s@.take(i as int));
            assert(s@.take(i + 1).last() == s@[i as int]);
        }
        let d = s.get_char(i);
        if d == c {
            push_char(&mut res, ' ');
            push_char(&mut res, c);
            push_char(&mut res, ' ');
            proof {
                assert(res@ =~= spec_replace_op(s@.take(i + 1), c));
            }
        } else {
            push_char(&mut res, d);
        }
        i = i + 1;
    }
    proof {
        assert(s@.take(n as int) =~= s@);
    }
    res
}

/// Insert one space before and after the first operator kind found, trying
/// `+`, then `-`, then `*`, then `/`; once one kind is present, every
/// occurrence of that kind is spaced and the function is done, so a string
/// mixing operator kinds only has its first-priority kind spaced.
pub fn add_op_space(data: &str) -> (r: String)
    ensures
        r@ == spec_add_op_space(data@),
{
    if contains_char(data, '+') {
        return replace_op(data, '+');
    }
    if contains_char(data, '-') {
        return replace_op(data, '-');
    }
    if contains_char(data, '*') {
        return replace_op(data, '*');
    }
    if contains_char(data, '/') {
        return replace_op(data, '/');
    }
    String::from_str(data)
}

/// `s` with every space character removed.
pub open spec fn spec_strip_spaces(s: Seq<char>) -> Seq<char>
    decreases s.len(),
{
    if s.len() == 0 {
        Seq::<char>::empty()
    } else if s.last() == ' ' {
        spec_strip_spaces(s.drop_last())
    } else {
        spec_strip_spaces(s.drop_last()).push(s.last())
    }
}

/// Stripping spaces distributes over concatenation.
pub proof fn lemma_strip_spaces_append(a: Seq<char>, b: Seq<char>)
    ensures
        spec_strip_spaces(a + b) == spec_strip_spaces(a) + spec_strip_spaces(b),
    decreases b.len(),
{
    if b.len() == 0 {
        assert(a + b =~= a);
        assert(spec_strip_spaces(a) + spec_strip_spaces(b) =~= spec_strip_spaces(a));
    } else {
        lemma_strip_spaces_append(a, b.drop_last());
        assert((a + b).drop_last() =~= a + b.drop_last());
        assert((a + b).last() == b.last());
        if b.last() != ' ' {
            assert(spec_strip_spaces(a) + spec_strip_spaces(b) =~= (spec_strip_spaces(a)
                + spec_strip_spaces(b.drop_last())).push(b.last()));
        }
    }
}

/// Replacing an operator with its spaced form only adds spaces: stripping
/// spaces from the result recovers the stripped input.
pub proof fn lemma_replace_op_strip(s: Seq<char>, c: char)
    requires
        c != ' ',
    ensures
        spec_strip_spaces(spec_replace_op(s, c)) == spec_strip_spaces(s),
    decreases s.len(),
{
    if s.len() != 0 {
        lemma_replace_op_strip(s.drop_last(), c);
        if s.last() == c {
            lemma_strip_spaces_append(spec_replace_op(s.drop_last(), c), seq![' ', c, ' ']);
            assert(spec_strip_spaces(seq![' ', c, ' ']) =~= seq![c]) by {
                reveal_with_fuel(spec_strip_spaces, 4);
                assert(seq![' ', c, ' '].drop_last() =~= seq![' ', c]);
                assert(seq![' ', c].drop_last() =~= seq![' ']);
                assert(seq![' '].drop_last() =~= Seq::<char>::empty());
            }
            assert(spec_strip_spaces(s) =~= spec_strip_spaces(s.drop_last()) + seq![c]);
        } else {
            let q = spec_replace_op(s.drop_last(), c);
            assert(q.push(s.last()).drop_last() =~= q);
            assert(q.push(s.last()).last() == s.last());
        }
    }
}

/// Spacing operators preserves the string's content apart from spaces.
pub proof fn lemma_add_op_space_strip(s: Seq<char>)
    ensures
        spec_strip_spaces(spec_add_op_space(s)) == spec_strip_spaces(s),
{
    if spec_contains_char(s, '+') {
        lemma_replace_op_strip(s, '+');
    } else if spec_contains_char(s, '-') {
        lemma_replace_op_strip(s, '-');
    } else if spec_contains_char(s, '*') {
        lemma_replace_op_strip(s, '*');
    } else if spec_contains_char(s, '/') {
        lemma_replace_op_strip(s, '/');
    }
}

} // verus!
