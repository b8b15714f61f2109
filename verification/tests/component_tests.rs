use stylenorm::box_css::BoxProps;
use stylenorm::flex_css::FlexProps;
use stylenorm::image_css::ImageProps;
use stylenorm::line_css::LineProps;
use stylenorm::text_css::TextProps;
use stylenorm::text_ellipsis_css::TextEllipsisProps;
use stylenorm::types::{FlexWay, SafeType};

#[test]
fn box_defaults_resolve() {
    let css = BoxProps::default().resolve();
    assert_eq!(css.display, "inline-block");
    assert_eq!(css.width, "auto");
    assert_eq!(css.height, "auto");
    assert_eq!(css.padding, "0px");
    assert_eq!(css.margin, "0px");
    assert_eq!(css.box_sizing, "border-box");
    assert_eq!(css.border_radius, "0px");
    assert_eq!(css.background_image, "none");
    assert_eq!(css.max_width, "none");
    assert_eq!(css.max_height, "none");
    assert_eq!(css.font_size, "medium");
    assert_eq!(css.top, "auto");
}

#[test]
fn box_sizes_and_compounds() {
    let mut p = BoxProps::default();
    p.size = "10 20".to_string();
    p.min_size = "100 auto".to_string();
    p.max_size = "200 auto".to_string();
    p.padding = "1 2 2 1".to_string();
    p.radius = "10% 30% 50% 70%".to_string();
    p.border_width = "10 2 6 0".to_string();
    let css = p.resolve();
    assert_eq!(css.width, "10px");
    assert_eq!(css.height, "20px");
    assert_eq!(css.min_width, "100px");
    assert_eq!(css.min_height, "auto");
    assert_eq!(css.max_width, "200px");
    assert_eq!(css.max_height, "none");
    assert_eq!(css.padding, "1px 2px 2px 1px");
    assert_eq!(css.border_radius, "10% 30% 50% 70%");
    assert_eq!(css.border_width, "10px 2px 6px 0px");
}

#[test]
fn box_hover_fallbacks() {
    let mut p = BoxProps::default();
    p.bg_color = "#f22".to_string();
    p.color = "#333".to_string();
    p.shadow = "10px 5px 5px red".to_string();
    let css = p.resolve();
    assert_eq!(css.hover_bg_color, "#f22");
    assert_eq!(css.hover_color, "#333");
    assert_eq!(css.hover_shadow, "10px 5px 5px red");
    assert_eq!(css.hover_width, css.width);
    assert_eq!(css.hover_height, css.height);

    p.h_bg_color = "#0aa".to_string();
    p.h_size = "1 2".to_string();
    let css = p.resolve();
    assert_eq!(css.hover_bg_color, "#0aa");
    assert_eq!(css.hover_width, "1px");
    assert_eq!(css.hover_height, "2px");
}

#[test]
fn flex_axes_from_code() {
    let css = FlexProps::with_flex(FlexWay::Frab).resolve();
    assert_eq!(css.flex_direction, "row");
    assert_eq!(css.justify_content, "space-around");
    assert_eq!(css.align_items, "space-between");

    let css = FlexProps::with_flex(FlexWay::Fcbs).resolve();
    assert_eq!(css.flex_direction, "column");
    assert_eq!(css.justify_content, "space-between");
    assert_eq!(css.align_items, "flex-start");

    let css = FlexProps::with_flex(FlexWay::Frcc).resolve();
    assert_eq!(css.flex_direction, "row");
    assert_eq!(css.justify_content, "center");
    assert_eq!(css.align_items, "center");

    let css = FlexProps::with_flex(FlexWay::Free).resolve();
    assert_eq!(css.flex_direction, "row");
    assert_eq!(css.justify_content, "flex-end");
    assert_eq!(css.align_items, "flex-end");
}

#[test]
fn flex_offsets_normalized() {
    let mut p = FlexProps::with_flex(FlexWay::Fraa);
    p.top = "10".to_string();
    p.left = "50%".to_string();
    let css = p.resolve();
    assert_eq!(css.top, "10px");
    assert_eq!(css.left, "50%");
    assert_eq!(css.right, "auto");
    assert_eq!(css.bottom, "auto");
}

#[test]
fn flex_hover_and_dark_fallbacks() {
    let mut p = FlexProps::with_flex(FlexWay::Fraa);
    p.padding = "4".to_string();
    p.bg_color = "#abc".to_string();
    let css = p.resolve();
    // Hover spacing falls back to the base-resolved values.
    assert_eq!(css.hover_padding, "4px");
    assert_eq!(css.hover_margin, css.margin);
    // Hover colors fall back to the base.
    assert_eq!(css.hover_bg_color, "#abc");
    assert_eq!(css.hover_color, "#181818");
    // Dark-mode values fall back to the base.
    assert_eq!(css.dark_bg_color, "#abc");
    assert_eq!(css.dark_color, "#181818");

    p.h_padding = "1 2".to_string();
    p.d_bg_color = "#000".to_string();
    let css = p.resolve();
    assert_eq!(css.hover_padding, "1px 2px");
    assert_eq!(css.dark_bg_color, "#000");
}

#[test]
fn image_resolve() {
    let mut p = ImageProps::with_src("https://host/pic.png".to_string());
    p.size = "100 100".to_string();
    p.radius = "50%".to_string();
    p.h_radius = "12".to_string();
    let css = p.resolve();
    assert_eq!(css.width, "100px");
    assert_eq!(css.height, "100px");
    assert_eq!(css.border_radius, "50%");
    assert_eq!(css.hover_radius, "12px");
    assert_eq!(css.pointer_events, "auto");
    assert_eq!(css.cursor, "unset");
}

#[test]
fn line_defaults_resolve() {
    let css = LineProps::default().resolve();
    assert_eq!(css.width, "auto");
    assert_eq!(css.height, "auto");
    assert_eq!(css.margin, "0px");
    assert_eq!(css.border_radius, "0px");
    assert_eq!(css.padding_top, "0");
    assert_eq!(css.padding_bottom, "0");
    assert_eq!(css.timing_fn, "ease");
    assert_eq!(css.background_image, "none");
    // Unset hover and dark backgrounds fall back to the base.
    assert_eq!(css.hover_bg_color, "transparent");
    assert_eq!(css.dark_bg_color, "transparent");
}

#[test]
fn line_safe_area_padding() {
    let mut p = LineProps::default();
    p.safe = SafeType::Top;
    let css = p.resolve();
    assert_eq!(css.padding_top, "env(safe-area-inset-top)");
    assert_eq!(css.padding_bottom, "0");
    p.safe = SafeType::Bottom;
    let css = p.resolve();
    assert_eq!(css.padding_top, "0");
    assert_eq!(css.padding_bottom, "env(safe-area-inset-bottom)");
}

#[test]
fn line_hover_overrides() {
    let mut p = LineProps::default();
    p.size = "auto 1".to_string();
    p.h_size = "auto 2".to_string();
    p.h_margin = "0 0 12 12".to_string();
    p.h_radius = "12".to_string();
    let css = p.resolve();
    assert_eq!(css.width, "auto");
    assert_eq!(css.height, "1px");
    assert_eq!(css.hover_width, "auto");
    assert_eq!(css.hover_height, "2px");
    assert_eq!(css.hover_margin, "0px 0px 12px 12px");
    assert_eq!(css.hover_radius, "12px");
}

#[test]
fn text_resolve() {
    let mut p = TextProps::default();
    p.size = "auto auto".to_string();
    p.color = "#222".to_string();
    let css = p.resolve();
    assert_eq!(css.display, "block");
    assert_eq!(css.color, "#222");
    // Unset hover and dark colors fall back to the base.
    assert_eq!(css.hover_color, "#222");
    assert_eq!(css.dark_color, "#222");

    p.h_color = "#fff".to_string();
    p.d_color = "#eee".to_string();
    let css = p.resolve();
    assert_eq!(css.hover_color, "#fff");
    assert_eq!(css.dark_color, "#eee");
}

#[test]
fn text_ellipsis_resolve() {
    let mut p = TextEllipsisProps::with_line("2".to_string());
    p.size = "100 auto".to_string();
    let css = p.resolve();
    assert_eq!(css.line, "2");
    assert_eq!(css.width, "100px");
    assert_eq!(css.height, "auto");
    // Unset hover color falls back to the base color.
    assert_eq!(css.hover_color, "#181818");
    p.h_color = "#00f".to_string();
    let css = p.resolve();
    assert_eq!(css.hover_color, "#00f");
}
