//! The flex container primitive: a four-letter layout code plus the full
//! property bag, deriving a CSS ruleset with hover and dark-mode
//! overrides.

use vstd::prelude::*;

use crate::normalize::{
    bg_image, fallback, normalize_compound, offset, px_scalar, resolve_hover_compound,
    resolve_hover_pair, resolve_pair, spec_axis_token, spec_bg_image, spec_compound,
    spec_fallback, spec_height_token, spec_hover_source, spec_offset, spec_px_scalar,
    spec_width_token,
};
use crate::types::{
    BorderStyle, BoxSizing, Cursor, FlexWay, FontStyle, FontWeight, ImageMode, Overflow, Position,
    TextAlign, TimingFn, WhiteSpace, WordBreak,
};

verus! {

/// The style properties of a flex container.  The `h_*` hover overrides
/// and `d_*` dark-mode overrides use the empty string as their unset
/// sentinel.
#[derive(Clone, PartialEq)]
pub struct FlexProps {
    pub flex: FlexWay,
    pub size: String,
    pub padding: String,
    pub margin: String,
    pub box_sizing: BoxSizing,
    pub radius: String,
    pub border_width: String,
    pub border_color: String,
    pub border_style: BorderStyle,
    pub bg_color: String,
    pub bg_image: String,
    pub image_mode: ImageMode,
    pub overflow: Overflow,
    pub backdrop: String,
    pub cursor: Cursor,
    pub white_space: WhiteSpace,
    pub min_size: String,
    pub max_size: String,
    pub shadow: String,
    pub position: Position,
    pub top: String,
    pub right: String,
    pub bottom: String,
    pub left: String,
    pub z_index: String,
    pub opacity: String,
    pub font_size: String,
    pub color: String,
    pub font_style: FontStyle,
    pub font_weight: FontWeight,
    pub letter_spacing: String,
    pub line_height: String,
    pub text_decoration: String,
    pub text_align: TextAlign,
    pub word_break: WordBreak,
    pub flex_shrink: String,
    pub duration: String,
    pub timing_fn: TimingFn,
    pub h_opacity: String,
    pub h_padding: String,
    pub h_margin: String,
    pub h_radius: String,
    pub h_border_width: String,
    pub h_border_color: String,
    pub h_bg_color: String,
    pub h_color: String,
    pub h_shadow: String,
    pub h_size: String,
    pub d_bg_color: String,
    pub d_shadow: String,
    pub d_border_color: String,
    pub d_color: String,
}

/// The CSS ruleset a flex container renders with.
#[derive(Clone, PartialEq)]
pub struct FlexCss {
    pub flex_direction: String,
    pub justify_content: String,
    pub align_items: String,
    pub width: String,
    pub height: String,
    pub padding: String,
    pub margin: String,
    pub box_sizing: String,
    pub border_radius: String,
    pub border_width: String,
    pub border_color: String,
    pub border_style: String,
    pub background_color: String,
    pub overflow: String,
    pub background_image: String,
    pub background_size: String,
    pub backdrop_filter: String,
    pub cursor: String,
    pub white_space: String,
    pub min_width: String,
    pub min_height: String,
    pub max_width: String,
    pub max_height: String,
    pub box_shadow: String,
    pub position: String,
    pub top: String,
    pub right: String,
    pub bottom: String,
    pub left: String,
    pub z_index: String,
    pub opacity: String,
    pub font_size: String,
    pub color: String,
    pub font_style: String,
    pub font_weight: String,
    pub letter_spacing: String,
    pub line_height: String,
    pub text_decoration: String,
    pub text_align: String,
    pub word_break: String,
    pub flex_shrink: String,
    pub duration: String,
    pub timing_fn: String,
    pub hover_opacity: String,
    pub hover_padding: String,
    pub hover_margin: String,
    pub hover_radius: String,
    pub hover_border_width: String,
    pub hover_border_color: String,
    pub hover_bg_color: String,
    pub hover_color: String,
    pub hover_shadow: String,
    pub hover_width: String,
    pub hover_height: String,
    pub dark_bg_color: String,
    pub dark_shadow: String,
    pub dark_border_color: String,
    pub dark_color: String,
}

impl FlexProps {
    /// A flex container with the given layout code and every other
    /// property at its default: automatic size, no spacing, transparent
    /// colors, every override unset.
    pub fn with_flex(flex: FlexWay) -> (r: Self)
        ensures
            r.flex == flex,
            r.size@ == "auto auto"@,
            r.padding@ == "0"@,
            r.margin@ == "0"@,
            r.box_sizing is BorderBox,
            r.radius@ == "0"@,
            r.border_width@ == "0"@,
            r.border_color@ == "transparent"@,
            r.border_style is No,
            r.bg_color@ == "transparent"@,
            r.bg_image@ == "0"@,
            r.image_mode is Auto,
            r.overflow is Visible,
            r.backdrop@ == "none"@,
            r.cursor is Unset,
            r.white_space is Normal,
            r.min_size@ == "auto auto"@,
            r.max_size@ == "auto auto"@,
            r.shadow@ == "none"@,
            r.position is Static,
            r.top@ == "auto"@,
            r.right@ == "auto"@,
            r.bottom@ == "auto"@,
            r.left@ == "auto"@,
            r.z_index@ == "auto"@,
            r.opacity@ == "inherit"@,
            r.font_size@ == "medium"@,
            r.color@ == "#181818"@,
            r.font_style is Normal,
            r.font_weight is Normal,
            r.letter_spacing@ == "normal"@,
            r.line_height@ == "normal"@,
            r.text_decoration@ == "none"@,
            r.text_align is Left,
            r.word_break is Normal,
            r.flex_shrink@ == "1"@,
            r.duration@ == "0"@,
            r.timing_fn is Ease,
            r.h_opacity@.len() == 0,
            r.h_padding@.len() == 0,
            r.h_margin@.len() == 0,
            r.h_radius@.len() == 0,
            r.h_border_width@.len() == 0,
            r.h_border_color@.len() == 0,
            r.h_bg_color@.len() == 0,
            r.h_color@.len() == 0,
            r.h_shadow@.len() == 0,
            r.h_size@.len() == 0,
            r.d_bg_color@.len() == 0,
            r.d_shadow@.len() == 0,
            r.d_border_color@.len() == 0,
            r.d_color@.len() == 0,
    {
        FlexProps {
            flex,
            size: "auto auto".to_owned(),
            padding: "0".to_owned(),
            margin: "0".to_owned(),
            box_sizing: BoxSizing::BorderBox,
            radius: "0".to_owned(),
            border_width: "0".to_owned(),
            border_color: "transparent".to_owned(),
            border_style: BorderStyle::No,
            bg_color: "transparent".to_owned(),
            bg_image: "0".to_owned(),
            image_mode: ImageMode::Auto,
            overflow: Overflow::Visible,
            backdrop: "none".to_owned(),
            cursor: Cursor::Unset,
            white_space: WhiteSpace::Normal,
            min_size: "auto auto".to_owned(),
            max_size: "auto auto".to_owned(),
            shadow: "none".to_owned(),
            position: Position::Static,
            top: "auto".to_owned(),
            right: "auto".to_owned(),
            bottom: "auto".to_owned(),
            left: "auto".to_owned(),
            z_index: "auto".to_owned(),
            opacity: "inherit".to_owned(),
            font_size: "medium".to_owned(),
            color: "#181818".to_owned(),
            font_style: FontStyle::Normal,
            font_weight: FontWeight::Normal,
            letter_spacing: "normal".to_owned(),
            line_height: "normal".to_owned(),
            text_decoration: "none".to_owned(),
            text_align: TextAlign::Left,
            word_break: WordBreak::Normal,
            flex_shrink: "1".to_owned(),
            duration: "0".to_owned(),
            timing_fn: TimingFn::Ease,
            h_opacity: String::new(),
            h_padding: String::new(),
            h_margin: String::new(),
            h_radius: String::new(),
            h_border_width: String::new(),
            h_border_color: String::new(),
            h_bg_color: String::new(),
            h_color: String::new(),
            h_shadow: String::new(),
            h_size: String::new(),
            d_bg_color: String::new(),
            d_shadow: String::new(),
            d_border_color: String::new(),
            d_color: String::new(),
        }
    }

    /// Derive the CSS ruleset: the three flex-layout keywords from the
    /// four-letter code, sizes per axis, compound spacing properties per
    /// token, position offsets with the `px` default, and hover /
    /// dark-mode values falling back to the base when unset.
    pub fn resolve(&self) -> (r: FlexCss)
        ensures
            r.flex_direction@ == self.flex.spec_direction(),
            r.justify_content@ == self.flex.spec_justify(),
            r.align_items@ == self.flex.spec_align(),
            r.width@ == spec_axis_token(spec_width_token(self.size@), false),
            r.height@ == spec_axis_token(spec_height_token(self.size@), false),
            r.padding@ == spec_compound(self.padding@),
            r.margin@ == spec_compound(self.margin@),
            r.box_sizing@ == self.box_sizing.spec_name(),
            r.border_radius@ == spec_compound(self.radius@),
            r.border_width@ == spec_compound(self.border_width@),
            r.border_color@ == self.border_color@,
            r.border_style@ == self.border_style.spec_name(),
            r.background_color@ == self.bg_color@,
            r.overflow@ == self.overflow.spec_name(),
            r.background_image@ == spec_bg_image(self.bg_image@),
            r.background_size@ == self.image_mode.spec_name(),
            r.backdrop_filter@ == self.backdrop@,
            r.cursor@ == self.cursor.spec_name(),
            r.white_space@ == self.white_space.spec_name(),
            r.min_width@ == spec_axis_token(spec_width_token(self.min_size@), false),
            r.min_height@ == spec_axis_token(spec_height_token(self.min_size@), false),
            r.max_width@ == spec_axis_token(spec_width_token(self.max_size@), true),
            r.max_height@ == spec_axis_token(spec_height_token(self.max_size@), true),
            r.box_shadow@ == self.shadow@,
            r.position@ == self.position.spec_name(),
            r.top@ == spec_offset(self.top@),
            r.right@ == spec_offset(self.right@),
            r.bottom@ == spec_offset(self.bottom@),
            r.left@ == spec_offset(self.left@),
            r.z_index@ == self.z_index@,
            r.opacity@ == self.opacity@,
            r.font_size@ == spec_px_scalar(self.font_size@),
            r.color@ == self.color@,
            r.font_style@ == self.font_style.spec_name(),
            r.font_weight@ == self.font_weight.spec_name(),
            r.letter_spacing@ == spec_px_scalar(self.letter_spacing@),
            r.line_height@ == spec_px_scalar(self.line_height@),
            r.text_decoration@ == self.text_decoration@,
            r.text_align@ == self.text_align.spec_name(),
            r.word_break@ == self.word_break.spec_name(),
            r.flex_shrink@ == self.flex_shrink@,
            r.duration@ == self.duration@,
            r.timing_fn@ == self.timing_fn.spec_name(),
            r.hover_opacity@ == spec_fallback(self.opacity@, self.h_opacity@),
            r.hover_padding@ == spec_compound(spec_hover_source(self.padding@, self.h_padding@)),
            r.hover_margin@ == spec_compound(spec_hover_source(self.margin@, self.h_margin@)),
            r.hover_radius@ == spec_compound(spec_hover_source(self.radius@, self.h_radius@)),
            r.hover_border_width@ == spec_compound(spec_hover_source(self.border_width@, self.h_border_width@)),
            r.hover_border_color@ == spec_fallback(self.border_color@, self.h_border_color@),
            r.hover_bg_color@ == spec_fallback(self.bg_color@, self.h_bg_color@),
            r.hover_color@ == spec_fallback(self.color@, self.h_color@),
            r.hover_shadow@ == spec_fallback(self.shadow@, self.h_shadow@),
            r.hover_width@ == spec_axis_token(
                spec_width_token(spec_hover_source(self.size@, self.h_size@)),
                false,
            ),
            r.hover_height@ == spec_axis_token(
                spec_height_token(spec_hover_source(self.size@, self.h_size@)),
                false,
            ),
            r.dark_bg_color@ == spec_fallback(self.bg_color@, self.d_bg_color@),
            r.dark_shadow@ == spec_fallback(self.shadow@, self.d_shadow@),
            r.dark_border_color@ == spec_fallback(self.border_color@, self.d_border_color@),
            r.dark_color@ == spec_fallback(self.color@, self.d_color@),
    {
        let pair = resolve_pair(self.size.as_str(), false);
        let min_pair = resolve_pair(self.min_size.as_str(), false);
        let max_pair = resolve_pair(self.max_size.as_str(), true);
        let hover_pair = resolve_hover_pair(self.size.as_str(), self.h_size.as_str());
        FlexCss {
            flex_direction: self.flex.direction_name(),
            justify_content: self.flex.justify_name(),
            align_items: self.flex.align_name(),
            width: pair.0,
            height: pair.1,
            padding: normalize_compound(self.padding.as_str()),
            margin: normalize_compound(self.margin.as_str()),
            box_sizing: self.box_sizing.get_name(),
            border_radius: normalize_compound(self.radius.as_str()),
            border_width: normalize_compound(self.border_width.as_str()),
            border_color: self.border_color.clone(),
            border_style: self.border_style.get_name(),
            background_color: self.bg_color.clone(),
            overflow: self.overflow.get_name(),
            background_image: bg_image(self.bg_image.as_str()),
            background_size: self.image_mode.get_name(),
            backdrop_filter: self.backdrop.clone(),
            cursor: self.cursor.get_name(),
            white_space: self.white_space.get_name(),
            min_width: min_pair.0,
            min_height: min_pair.1,
            max_width: max_pair.0,
            max_height: max_pair.1,
            box_shadow: self.shadow.clone(),
            position: self.position.get_name(),
            top: offset(self.top.as_str()),
            right: offset(self.right.as_str()),
            bottom: offset(self.bottom.as_str()),
            left: offset(self.left.as_str()),
            z_index: self.z_index.clone(),
            opacity: self.opacity.clone(),
            font_size: px_scalar(self.font_size.as_str()),
            color: self.color.clone(),
            font_style: self.font_style.get_name(),
            font_weight: self.font_weight.get_name(),
            letter_spacing: px_scalar(self.letter_spacing.as_str()),
            line_height: px_scalar(self.line_height.as_str()),
            text_decoration: self.text_decoration.clone(),
            text_align: self.text_align.get_name(),
            word_break: self.word_break.get_name(),
            flex_shrink: self.flex_shrink.clone(),
            duration: self.duration.clone(),
            timing_fn: self.timing_fn.get_name(),
            hover_opacity: fallback(self.opacity.as_str(), self.h_opacity.as_str()),
            hover_padding: resolve_hover_compound(self.padding.as_str(), self.h_padding.as_str()),
            hover_margin: resolve_hover_compound(self.margin.as_str(), self.h_margin.as_str()),
            hover_radius: resolve_hover_compound(self.radius.as_str(), self.h_radius.as_str()),
            hover_border_width: resolve_hover_compound(self.border_width.as_str(), self.h_border_width.as_str()),
            hover_border_color: fallback(self.border_color.as_str(), self.h_border_color.as_str()),
            hover_bg_color: fallback(self.bg_color.as_str(), self.h_bg_color.as_str()),
            hover_color: fallback(self.color.as_str(), self.h_color.as_str()),
            hover_shadow: fallback(self.shadow.as_str(), self.h_shadow.as_str()),
            hover_width: hover_pair.0,
            hover_height: hover_pair.1,
            dark_bg_color: fallback(self.bg_color.as_str(), self.d_bg_color.as_str()),
            dark_shadow: fallback(self.shadow.as_str(), self.d_shadow.as_str()),
            dark_border_color: fallback(self.border_color.as_str(), self.d_border_color.as_str()),
            dark_color: fallback(self.color.as_str(), self.d_color.as_str()),
        }
    }
}

/// The hover and dark-mode fallback law for a flex container: when every
/// override is unset (the empty string), the hover-resolved and
/// dark-resolved values equal their base-resolved counterparts.
pub proof fn lemma_flex_hover_unset(p: FlexProps)
    requires
        p.h_opacity@.len() == 0,
        p.h_padding@.len() == 0,
        p.h_margin@.len() == 0,
        p.h_radius@.len() == 0,
        p.h_border_width@.len() == 0,
        p.h_border_color@.len() == 0,
        p.h_bg_color@.len() == 0,
        p.h_color@.len() == 0,
        p.h_shadow@.len() == 0,
        p.h_size@.len() == 0,
        p.d_bg_color@.len() == 0,
        p.d_shadow@.len() == 0,
        p.d_border_color@.len() == 0,
        p.d_color@.len() == 0,
    ensures
        spec_fallback(p.opacity@, p.h_opacity@) == p.opacity@,
        spec_compound(spec_hover_source(p.padding@, p.h_padding@)) == spec_compound(p.padding@),
        spec_compound(spec_hover_source(p.margin@, p.h_margin@)) == spec_compound(p.margin@),
        spec_compound(spec_hover_source(p.radius@, p.h_radius@)) == spec_compound(p.radius@),
        spec_compound(spec_hover_source(p.border_width@, p.h_border_width@))
            == spec_compound(p.border_width@),
        spec_fallback(p.border_color@, p.h_border_color@) == p.border_color@,
        spec_fallback(p.bg_color@, p.h_bg_color@) == p.bg_color@,
        spec_fallback(p.color@, p.h_color@) == p.color@,
        spec_fallback(p.shadow@, p.h_shadow@) == p.shadow@,
        spec_axis_token(spec_width_token(spec_hover_source(p.size@, p.h_size@)), false)
            == spec_axis_token(spec_width_token(p.size@), false),
        spec_axis_token(spec_height_token(spec_hover_source(p.size@, p.h_size@)), false)
            == spec_axis_token(spec_height_token(p.size@), false),
        spec_fallback(p.bg_color@, p.d_bg_color@) == p.bg_color@,
        spec_fallback(p.shadow@, p.d_shadow@) == p.shadow@,
        spec_fallback(p.border_color@, p.d_border_color@) == p.border_color@,
        spec_fallback(p.color@, p.d_color@) == p.color@,
{
}

} // verus!
