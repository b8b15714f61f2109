//! The style-value normalizer: raw tokens to CSS-legal value strings.
//!
//! A raw token is turned into a CSS value by a three-way branch, evaluated
//! in order: the keyword `auto` is kept (or becomes `none` for max-size
//! constraints); a token holding any letter is taken as unit-qualified
//! already and only gets operator spacing; anything else is a bare number
//! and gets the default `px` unit, except that a token holding `%` passes
//! through unchanged.
//!
//! Compound properties (padding, margin, radius, border-width) hold 1-4
//! space-separated tokens, each given the `px` default per token - unless
//! any token of the string holds a letter, in which case the whole string
//! passes through unchanged.  A size string supplies width and height from
//! its first one or two tokens, and hover / dark-mode overrides fall back
//! to the base value when they are the empty string.

use vstd::prelude::*;

use crate::strutil::{
    contains_char, contains_letter, contains_substr, spec_contains_char, spec_contains_substr,
    spec_has_letter, spec_join, spec_split, split_spaces, str_eq,
};
use crate::utils::{add_op_space, lemma_add_op_space_strip, spec_add_op_space, spec_strip_spaces};

verus! {

/// A single width/height-like token normalized: `auto` kept (`none` in the
/// max-size context), lettered tokens operator-spaced, `%` tokens kept,
/// bare numbers suffixed with `px`.
pub open spec fn spec_axis_token(t: Seq<char>, max_ctx: bool) -> Seq<char> {
    if t == "auto"@ {
        if max_ctx {
            "none"@
        } else {
            "auto"@
        }
    } else if spec_has_letter(t) {
        spec_add_op_space(t)
    } else if spec_contains_char(t, '%') {
        t
    } else {
        t + "px"@
    }
}

/// The token supplying the width: the first space-separated token.
pub open spec fn spec_width_token(s: Seq<char>) -> Seq<char> {
    spec_split(s)[0]
}

/// The token supplying the height: the second token, or the first again
/// when the string has a single token.  Tokens beyond the second are
/// ignored.
pub open spec fn spec_height_token(s: Seq<char>) -> Seq<char> {
    let ts = spec_split(s);
    if ts.len() == 1 {
        ts[0]
    } else {
        ts[1]
    }
}

/// The size string a hover override selects: the override itself, or the
/// base size when the override is the unset sentinel (the empty string).
pub open spec fn spec_hover_source(base: Seq<char>, over: Seq<char>) -> Seq<char> {
    if over.len() == 0 {
        base
    } else {
        over
    }
}

/// One token of a compound property: `%` tokens pass through, anything
/// else gets the `px` default.
pub open spec fn spec_unit_token(t: Seq<char>) -> Seq<char> {
    if spec_contains_char(t, '%') {
        t
    } else {
        t + "px"@
    }
}

/// A whole compound property string normalized: unchanged when any letter
/// occurs anywhere in it, otherwise each token gets the `px` default and
/// the tokens are rejoined with single spaces.
pub open spec fn spec_compound(s: Seq<char>) -> Seq<char> {
    if spec_has_letter(s) {
        s
    } else {
        spec_join(spec_split(s).map_values(|t: Seq<char>| spec_unit_token(t)))
    }
}

/// A scalar font metric (font-size, letter-spacing, line-height):
/// unchanged when it holds a letter, otherwise suffixed with `px`.
pub open spec fn spec_px_scalar(v: Seq<char>) -> Seq<char> {
    if spec_has_letter(v) {
        v
    } else {
        v + "px"@
    }
}

/// A position offset (top, right, bottom, left): `%` values and the
/// keyword `auto` pass through, anything else gets the `px` default.
pub open spec fn spec_offset(v: Seq<char>) -> Seq<char> {
    if spec_contains_char(v, '%') {
        v
    } else if v == "auto"@ {
        v
    } else {
        v + "px"@
    }
}

/// An override value with the empty string as unset sentinel: empty
/// falls back to the base value.
pub open spec fn spec_fallback(base: Seq<char>, over: Seq<char>) -> Seq<char> {
    if over.len() == 0 {
        base
    } else {
        over
    }
}

/// A background-image property: the default sentinel `0` becomes `none`, a
/// gradient passes through, anything else is wrapped as a `url(..)`.
pub open spec fn spec_bg_image(v: Seq<char>) -> Seq<char> {
    if v == "0"@ {
        "none"@
    } else if spec_contains_substr(v, "linear-gradient"@) {
        v
    } else {
        "url("@ + v + ")"@
    }
}

/// A numeric token - one with no letter and no percent sign - always gets
/// the default unit: it is returned with `px` appended, whatever the
/// context.
pub proof fn lemma_numeric_token_px(t: Seq<char>, max_ctx: bool)
    requires
        !spec_has_letter(t),
        !spec_contains_char(t, '%'),
    ensures
        spec_axis_token(t, max_ctx) == t + "px"@,
{
    reveal_strlit("auto");
    assert(t != "auto"@) by {
        if t == "auto"@ {
            assert(crate::strutil::spec_is_letter(t[0]));
        }
    }
}

/// A token holding a percent sign is returned unchanged apart from
/// operator spacing: stripping spaces from the result recovers the
/// space-stripped token, and when the token has no letter it is returned
/// exactly as it came.
pub proof fn lemma_percent_token_preserved(t: Seq<char>, max_ctx: bool)
    requires
        spec_contains_char(t, '%'),
    ensures
        spec_strip_spaces(spec_axis_token(t, max_ctx)) == spec_strip_spaces(t),
        !spec_has_letter(t) ==> spec_axis_token(t, max_ctx) == t,
        spec_has_letter(t) ==> spec_axis_token(t, max_ctx) == spec_add_op_space(t),
{
    reveal_strlit("auto");
    assert(t != "auto"@) by {
        if t == "auto"@ {
            let i = choose|i: int| 0 <= i < t.len() && t[i] == '%';
            assert(t[i] == '%');
        }
    }
    if spec_has_letter(t) {
        lemma_add_op_space_strip(t);
    }
}

/// Splitting a string with no space yields that string as its only token.
pub proof fn lemma_split_single(s: Seq<char>)
    requires
        !spec_contains_char(s, ' '),
    ensures
        spec_split(s) == seq![s],
    decreases s.len(),
{
    if s.len() == 0 {
        assert(s =~= Seq::<char>::empty());
        assert(spec_split(s) =~= seq![s]);
    } else {
        assert(!spec_contains_char(s.drop_last(), ' ')) by {
            if spec_contains_char(s.drop_last(), ' ') {
                let i = choose|i: int|
                    0 <= i < s.drop_last().len() && s.drop_last()[i] == ' ';
                assert(s[i] == ' ');
            }
        }
        lemma_split_single(s.drop_last());
        assert(s.last() != ' ');
        let prev = spec_split(s.drop_last());
        assert(prev.len() == 1);
        assert(spec_split(s) == prev.update(0, prev.last().push(s.last())));
        assert(prev.last() == s.drop_last());
        assert(prev.update(0, s.drop_last().push(s.last())) =~= seq![
            s.drop_last().push(s.last()),
        ]);
        assert(s.drop_last().push(s.last()) =~= s);
    }
}

/// A single-token size string supplies both axes: the width token and the
/// height token are the string itself.
pub proof fn lemma_single_token_size(s: Seq<char>)
    requires
        !spec_contains_char(s, ' '),
    ensures
        spec_width_token(s) == s,
        spec_height_token(s) == s,
{
    lemma_split_single(s);
}

/// The hover fallback law for sizes: an empty hover override resolves both
/// axes exactly as the base size does.
pub proof fn lemma_hover_empty_is_base(size: Seq<char>)
    ensures
        spec_axis_token(spec_width_token(spec_hover_source(size, Seq::<char>::empty())), false)
            == spec_axis_token(spec_width_token(size), false),
        spec_axis_token(spec_height_token(spec_hover_source(size, Seq::<char>::empty())), false)
            == spec_axis_token(spec_height_token(size), false),
{
}

/// The hover fallback law for scalar overrides: the empty override
/// resolves to the base value, and a non-empty one to itself.
pub proof fn lemma_fallback_law(base: Seq<char>, over: Seq<char>)
    ensures
        over.len() == 0 ==> spec_fallback(base, over) == base,
        over.len() != 0 ==> spec_fallback(base, over) == over,
{
}

/// Normalize one width/height-like token.
pub fn normalize_axis(t: &str, max_ctx: bool) -> (r: String)
    ensures
        r@ == spec_axis_token(t@, max_ctx),
{
    if str_eq(t, "auto") {
        if max_ctx {
            String::from_str("none")
        } else {
            String::from_str("auto")
        }
    } else if contains_letter(t) {
        add_op_space(t)
    } else if contains_char(t, '%') {
        String::from_str(t)
    } else {
        let mut r = String::from_str(t);
        r.append("px");
        r
    }
}

/// Normalize one compound-property token.
fn unit_token(t: &str) -> (r: String)
    ensures
        r@ == spec_unit_token(t@),
{
    if contains_char(t, '%') {
        String::from_str(t)
    } else {
        let mut r = String::from_str(t);
        r.append("px");
        r
    }
}

/// Normalize a compound property string (padding, margin, radius,
/// border-width).
pub fn normalize_compound(s: &str) -> (r: String)
    ensures
        r@ == spec_compound(s@),
{
    if contains_letter(s) {
        return String::from_str(s);
    }
    let toks = split_spaces(s);
    let ghost target = spec_split(s@).map_values(|t: Seq<char>| spec_unit_token(t));
    let mut out: Vec<String> = Vec::new();
    let mut i: usize = 0;
    proof {
        assert(out.deep_view() =~= target.take(0));
    }
    while i < toks.len()
        invariant
            toks.deep_view() == spec_split(s@),
            target == spec_split(s@).map_values(|t: Seq<char>| spec_unit_token(t)),
            i <= toks.len(),
            out.deep_view() == target.take(i as int),
        decreases toks.len() - i,
    {
        let tok = unit_token(toks[i].as_str());
        proof {
            assert(toks.deep_view()[i as int] == toks@[i as int]@);
            assert(target[i as int] == spec_unit_token(spec_split(s@)[i as int]));
            assert(tok@ == target[i as int]);
        }
        let ghost old_dv = out.deep_view();
        out.push(tok);
        proof {
            assert(out.deep_view() =~= old_dv.push(tok@));
            assert(old_dv.push(tok@) =~= target.take(i + 1));
        }
        i = i + 1;
    }
    proof {
        assert(target.take(toks.len() as int) =~= target);
    }
    crate::strutil::join_spaces(&out)
}

/// Resolve a size string into its normalized (width, height) pair.
pub fn resolve_pair(size: &str, max_ctx: bool) -> (r: (String, String))
    ensures
        r.0@ == spec_axis_token(spec_width_token(size@), max_ctx),
        r.1@ == spec_axis_token(spec_height_token(size@), max_ctx),
{
    let toks = split_spaces(size);
    let w = normalize_axis(toks[0].as_str(), max_ctx);
    let h = if toks.len() == 1 {
        normalize_axis(toks[0].as_str(), max_ctx)
    } else {
        normalize_axis(toks[1].as_str(), max_ctx)
    };
    (w, h)
}

/// Resolve a hover size override against its base size: the empty override
/// falls back to the base size string.
pub fn resolve_hover_pair(size: &str, h_size: &str) -> (r: (String, String))
    ensures
        r.0@ == spec_axis_token(spec_width_token(spec_hover_source(size@, h_size@)), false),
        r.1@ == spec_axis_token(spec_height_token(spec_hover_source(size@, h_size@)), false),
{
    if h_size.is_empty() {
        resolve_pair(size, false)
    } else {
        resolve_pair(h_size, false)
    }
}

/// Resolve a compound-property hover override against its base: the empty
/// override falls back to the base string, and either way the chosen
/// string is normalized as a compound property.
pub fn resolve_hover_compound(base: &str, over: &str) -> (r: String)
    ensures
        r@ == spec_compound(spec_hover_source(base@, over@)),
{
    if over.is_empty() {
        normalize_compound(base)
    } else {
        normalize_compound(over)
    }
}

/// Resolve an override string with empty-string fallback to the base.
pub fn fallback(base: &str, over: &str) -> (r: String)
    ensures
        r@ == spec_fallback(base@, over@),
{
    if over.is_empty() {
        String::from_str(base)
    } else {
        String::from_str(over)
    }
}

/// Normalize a scalar font metric.
pub fn px_scalar(v: &str) -> (r: String)
    ensures
        r@ == spec_px_scalar(v@),
{
    if contains_letter(v) {
        String::from_str(v)
    } else {
        let mut r = String::from_str(v);
        r.append("px");
        r
    }
}

/// Normalize a position offset.
pub fn offset(v: &str) -> (r: String)
    ensures
        r@ == spec_offset(v@),
{
    if contains_char(v, '%') {
        String::from_str(v)
    } else if str_eq(v, "auto") {
        String::from_str(v)
    } else {
        let mut r = String::from_str(v);
        r.append("px");
        r
    }
}

/// Resolve a background-image property.
pub fn bg_image(v: &str) -> (r: String)
    ensures
        r@ == spec_bg_image(v@),
{
    if str_eq(v, "0") {
        String::from_str("none")
    } else if contains_substr(v, "linear-gradient") {
        String::from_str(v)
    } else {
        let mut r = String::from_str("url(");
        r.append(v);
        r.append(")");
        r
    }
}

} // verus!
