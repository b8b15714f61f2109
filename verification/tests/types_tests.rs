use stylenorm::types::{
    BorderStyle, BoxSizing, Cursor, Display, FlexWay, FontStyle, FontWeight, ImageMode, Overflow,
    PointerEvents, Position, SafeType, TextAlign, TimingFn, WhiteSpace, WordBreak,
};

#[test]
fn box_sizing_names() {
    assert_eq!(BoxSizing::BorderBox.get_name(), "border-box");
    assert_eq!(BoxSizing::ContentBox.get_name(), "content-box");
}

#[test]
fn border_style_names() {
    assert_eq!(BorderStyle::No.get_name(), "none");
    assert_eq!(BorderStyle::Dotted.get_name(), "dotted");
    assert_eq!(BorderStyle::Solid.get_name(), "solid");
    assert_eq!(BorderStyle::Outset.get_name(), "outset");
}

#[test]
fn overflow_names() {
    assert_eq!(Overflow::Visible.get_name(), "visible");
    assert_eq!(Overflow::Auto.get_name(), "auto");
    assert_eq!(Overflow::VisibleHidden.get_name(), "visible hidden");
    assert_eq!(Overflow::ScrollHidden.get_name(), "scroll hidden");
}

#[test]
fn image_mode_names() {
    assert_eq!(ImageMode::Auto.get_name(), "auto");
    assert_eq!(ImageMode::AspectFit.get_name(), "contain");
    assert_eq!(ImageMode::AspectFill.get_name(), "cover");
}

#[test]
fn cursor_names() {
    assert_eq!(Cursor::Unset.get_name(), "unset");
    assert_eq!(Cursor::Pointer.get_name(), "pointer");
    assert_eq!(Cursor::NotAllowed.get_name(), "not-allowed");
    assert_eq!(Cursor::ZoomIn.get_name(), "zoom-in");
}

#[test]
fn white_space_names() {
    assert_eq!(WhiteSpace::Normal.get_name(), "normal");
    assert_eq!(WhiteSpace::PreWrap.get_name(), "pre-wrap");
    assert_eq!(WhiteSpace::BreakSpaces.get_name(), "break-spaces");
}

#[test]
fn display_names() {
    assert_eq!(Display::Block.get_name(), "block");
    assert_eq!(Display::InlineBlock.get_name(), "inline-block");
    assert_eq!(Display::FlowRoot.get_name(), "flow-root");
    assert_eq!(Display::NoneValue.get_name(), "none");
}

#[test]
fn position_names() {
    assert_eq!(Position::Absolute.get_name(), "absolute");
    assert_eq!(Position::Static.get_name(), "static");
    assert_eq!(Position::Sticky.get_name(), "sticky");
}

#[test]
fn font_style_names() {
    assert_eq!(FontStyle::Normal.get_name(), "normal");
    assert_eq!(FontStyle::Italic.get_name(), "italic");
    assert_eq!(FontStyle::Oblique.get_name(), "oblique");
}

#[test]
fn font_weight_names() {
    assert_eq!(FontWeight::Normal.get_name(), "normal");
    assert_eq!(FontWeight::Bold.get_name(), "bold");
    assert_eq!(FontWeight::Num900.get_name(), "900");
    assert_eq!(FontWeight::Num100.get_name(), "100");
}

#[test]
fn text_align_names() {
    assert_eq!(TextAlign::Left.get_name(), "left");
    assert_eq!(TextAlign::Center.get_name(), "center");
    assert_eq!(TextAlign::Justify.get_name(), "justify");
}

#[test]
fn word_break_names() {
    assert_eq!(WordBreak::BreakAll.get_name(), "break-all");
    assert_eq!(WordBreak::KeepAll.get_name(), "keep-all");
    assert_eq!(WordBreak::BreakWord.get_name(), "break-word");
}

#[test]
fn pointer_events_names() {
    assert_eq!(PointerEvents::Auto.get_name(), "auto");
    assert_eq!(PointerEvents::NoneValue.get_name(), "none");
}

#[test]
fn timing_fn_names() {
    assert_eq!(TimingFn::Ease.get_name(), "ease");
    assert_eq!(TimingFn::Linear.get_name(), "linear");
    assert_eq!(TimingFn::EaseInOut.get_name(), "ease-in-out");
}

#[test]
fn safe_type_paddings() {
    assert_eq!(SafeType::NoneValue.padding_top(), "0");
    assert_eq!(SafeType::NoneValue.padding_bottom(), "0");
    assert_eq!(SafeType::Top.padding_top(), "env(safe-area-inset-top)");
    assert_eq!(SafeType::Top.padding_bottom(), "0");
    assert_eq!(SafeType::Bottom.padding_top(), "0");
    assert_eq!(SafeType::Bottom.padding_bottom(), "env(safe-area-inset-bottom)");
}

#[test]
fn flex_way_names() {
    assert_eq!(FlexWay::Fraa.get_name(), "fraa");
    assert_eq!(FlexWay::Frbc.get_name(), "frbc");
    assert_eq!(FlexWay::Fcss.get_name(), "fcss");
}

#[test]
fn flex_way_axes() {
    assert_eq!(FlexWay::Fraa.direction_name(), "row");
    assert_eq!(FlexWay::Fcaa.direction_name(), "column");
    assert_eq!(FlexWay::Frae.justify_name(), "space-around");
    assert_eq!(FlexWay::Frae.align_name(), "flex-end");
    assert_eq!(FlexWay::Frcs.justify_name(), "center");
    assert_eq!(FlexWay::Frcs.align_name(), "flex-start");
}
