use stylenorm::normalize::{
    bg_image, fallback, normalize_axis, normalize_compound, offset, px_scalar,
    resolve_hover_pair, resolve_pair,
};
use stylenorm::strutil::{contains_letter, contains_substr, split_spaces, str_eq};
use stylenorm::utils::{add_op_space, is_have_unit};

#[test]
fn numeric_token_gets_px() {
    assert_eq!(normalize_axis("10", false), "10px");
    assert_eq!(normalize_axis("22", false), "22px");
    assert_eq!(normalize_axis("0", true), "0px");
}

#[test]
fn auto_keyword_by_context() {
    assert_eq!(normalize_axis("auto", false), "auto");
    assert_eq!(normalize_axis("auto", true), "none");
}

#[test]
fn percent_token_unchanged() {
    assert_eq!(normalize_axis("50%", false), "50%");
    assert_eq!(normalize_axis("100%", true), "100%");
}

#[test]
fn lettered_token_gets_operator_spacing() {
    assert_eq!(normalize_axis("calc(50vh-100px)", false), "calc(50vh - 100px)");
    assert_eq!(normalize_axis("100px", false), "100px");
    assert_eq!(normalize_axis("10em", true), "10em");
}

#[test]
fn op_space_priority() {
    assert_eq!(add_op_space("10+5"), "10 + 5");
    assert_eq!(add_op_space("10+5-3"), "10 + 5-3");
    assert_eq!(add_op_space("10-5"), "10 - 5");
    assert_eq!(add_op_space("10*2"), "10 * 2");
    assert_eq!(add_op_space("10/2"), "10 / 2");
    assert_eq!(add_op_space("8"), "8");
}

#[test]
fn op_space_spaces_every_occurrence_of_first_kind() {
    assert_eq!(add_op_space("1+2+3"), "1 + 2 + 3");
    assert_eq!(add_op_space("1-2*3"), "1 - 2*3");
}

#[test]
fn unit_heuristic_letter_set() {
    assert!(is_have_unit("10px"));
    assert!(is_have_unit("2rem"));
    assert!(is_have_unit("50vh"));
    assert!(is_have_unit("3mm"));
    assert!(is_have_unit("calc(1px)"));
    assert!(is_have_unit("2in"));
    assert!(!is_have_unit("100"));
    assert!(!is_have_unit("50%"));
    // The set is deliberately coarse: these letters fire wherever they occur.
    assert!(is_have_unit("pizza"));
    assert!(!is_have_unit("0"));
}

#[test]
fn compound_all_numeric() {
    assert_eq!(normalize_compound("1 2 2 1"), "1px 2px 2px 1px");
    assert_eq!(normalize_compound("0"), "0px");
}

#[test]
fn compound_mixed_passes_through() {
    assert_eq!(normalize_compound("1px 2 2 1"), "1px 2 2 1");
    assert_eq!(normalize_compound("1em 2"), "1em 2");
}

#[test]
fn compound_percent_tokens_kept() {
    assert_eq!(normalize_compound("10 50%"), "10px 50%");
}

#[test]
fn compound_slash_tokens_get_px() {
    assert_eq!(normalize_compound("10 30% 50/60 7"), "10px 30% 50/60px 7px");
    assert_eq!(normalize_compound("50/60"), "50/60px");
}

#[test]
fn size_pair_single_token() {
    let (w, h) = resolve_pair("22", false);
    assert_eq!(w, "22px");
    assert_eq!(h, "22px");
}

#[test]
fn size_pair_two_tokens() {
    let (w, h) = resolve_pair("10 20", false);
    assert_eq!(w, "10px");
    assert_eq!(h, "20px");
}

#[test]
fn size_pair_extra_tokens_ignored() {
    let (w, h) = resolve_pair("1 2 3", false);
    assert_eq!(w, "1px");
    assert_eq!(h, "2px");
}

#[test]
fn size_pair_mixed_kinds() {
    let (w, h) = resolve_pair("auto 100%", false);
    assert_eq!(w, "auto");
    assert_eq!(h, "100%");
    let (w, h) = resolve_pair("50% calc(50vh-100px)", false);
    assert_eq!(w, "50%");
    assert_eq!(h, "calc(50vh - 100px)");
}

#[test]
fn size_pair_empty_string() {
    let (w, h) = resolve_pair("", false);
    assert_eq!(w, "px");
    assert_eq!(h, "px");
}

#[test]
fn hover_pair_empty_override_is_base() {
    let (w, h) = resolve_hover_pair("10 20", "");
    assert_eq!(w, "10px");
    assert_eq!(h, "20px");
}

#[test]
fn hover_pair_override_wins() {
    let (w, h) = resolve_hover_pair("10 20", "5 6");
    assert_eq!(w, "5px");
    assert_eq!(h, "6px");
}

#[test]
fn fallback_sentinel() {
    assert_eq!(fallback("base", ""), "base");
    assert_eq!(fallback("base", "over"), "over");
}

#[test]
fn scalar_font_metric() {
    assert_eq!(px_scalar("14"), "14px");
    assert_eq!(px_scalar("medium"), "medium");
    assert_eq!(px_scalar("1.5em"), "1.5em");
}

#[test]
fn offset_normalization() {
    assert_eq!(offset("10"), "10px");
    assert_eq!(offset("auto"), "auto");
    assert_eq!(offset("50%"), "50%");
}

#[test]
fn background_image_forms() {
    assert_eq!(bg_image("0"), "none");
    assert_eq!(bg_image("https://host/pic.png"), "url(https://host/pic.png)");
    assert_eq!(
        bg_image("linear-gradient(#e66465, #9198e5)"),
        "linear-gradient(#e66465, #9198e5)"
    );
}

#[test]
fn string_helpers() {
    assert!(str_eq("auto", "auto"));
    assert!(!str_eq("auto", "aut"));
    assert!(contains_letter("10px"));
    assert!(!contains_letter("100%"));
    assert!(contains_substr("linear-gradient(red)", "linear-gradient"));
    assert!(!contains_substr("radial-gradient", "linear"));
    assert_eq!(split_spaces("a b"), vec!["a", "b"]);
    assert_eq!(split_spaces(""), vec![""]);
    assert_eq!(split_spaces("a  b"), vec!["a", "", "b"]);
}
