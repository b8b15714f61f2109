//! The line-clamped text primitive: like the text block, but clamped to a
//! number of lines after which an ellipsis is shown.

use vstd::prelude::*;

use crate::normalize::{
    bg_image, fallback, normalize_compound, px_scalar, resolve_hover_pair, resolve_pair,
    spec_axis_token, spec_bg_image, spec_compound, spec_fallback, spec_height_token,
    spec_hover_source, spec_px_scalar, spec_width_token,
};
use crate::types::{Cursor, FontStyle, FontWeight, TextAlign, WhiteSpace, WordBreak};

verus! {

/// The style properties of a clamped text block: `line` is the number of
/// lines shown before the ellipsis, `d` the transition duration in
/// seconds.  The `h_*` hover overrides use the empty string as their
/// unset sentinel.
#[derive(Clone, PartialEq)]
pub struct TextEllipsisProps {
    pub line: String,
    pub size: String,
    pub padding: String,
    pub margin: String,
    pub bg_image: String,
    pub cursor: Cursor,
    pub white_space: WhiteSpace,
    pub min_size: String,
    pub max_size: String,
    pub z_index: String,
    pub opacity: String,
    pub font_size: String,
    pub color: String,
    pub font_style: FontStyle,
    pub font_weight: FontWeight,
    pub letter_spacing: String,
    pub line_height: String,
    pub text_decoration: String,
    pub text_align: TextAlign,
    pub word_break: WordBreak,
    pub d: String,
    pub h_color: String,
    pub h_size: String,
}

/// The CSS ruleset a clamped text block renders with.
#[derive(Clone, PartialEq)]
pub struct TextEllipsisCss {
    pub line: String,
    pub width: String,
    pub height: String,
    pub padding: String,
    pub margin: String,
    pub background_image: String,
    pub cursor: String,
    pub white_space: String,
    pub min_width: String,
    pub min_height: String,
    pub max_width: String,
    pub max_height: String,
    pub z_index: String,
    pub opacity: String,
    pub font_size: String,
    pub color: String,
    pub font_style: String,
    pub font_weight: String,
    pub letter_spacing: String,
    pub line_height: String,
    pub text_decoration: String,
    pub text_align: String,
    pub word_break: String,
    pub d: String,
    pub hover_color: String,
    pub hover_width: String,
    pub hover_height: String,
}

impl TextEllipsisProps {
    /// A clamped text block showing the given number of lines, with every
    /// other property at its default and every override unset.
    pub fn with_line(line: String) -> (r: Self)
        ensures
            r.line == line,
            r.size@ == "auto auto"@,
            r.padding@ == "0"@,
            r.margin@ == "0"@,
            r.bg_image@ == "0"@,
            r.cursor is Unset,
            r.white_space is Normal,
            r.min_size@ == "auto auto"@,
            r.max_size@ == "auto auto"@,
            r.z_index@ == "auto"@,
            r.opacity@ == "inherit"@,
            r.font_size@ == "medium"@,
            r.color@ == "#181818"@,
            r.font_style is Normal,
            r.font_weight is Normal,
            r.letter_spacing@ == "normal"@,
            r.line_height@ == "normal"@,
            r.text_decoration@ == "none"@,
            r.text_align is Left,
            r.word_break is Normal,
            r.d@ == "0"@,
            r.h_color@.len() == 0,
            r.h_size@.len() == 0,
    {
        TextEllipsisProps {
            line,
            size: "auto auto".to_owned(),
            padding: "0".to_owned(),
            margin: "0".to_owned(),
            bg_image: "0".to_owned(),
            cursor: Cursor::Unset,
            white_space: WhiteSpace::Normal,
            min_size: "auto auto".to_owned(),
            max_size: "auto auto".to_owned(),
            z_index: "auto".to_owned(),
            opacity: "inherit".to_owned(),
            font_size: "medium".to_owned(),
            color: "#181818".to_owned(),
            font_style: FontStyle::Normal,
            font_weight: FontWeight::Normal,
            letter_spacing: "normal".to_owned(),
            line_height: "normal".to_owned(),
            text_decoration: "none".to_owned(),
            text_align: TextAlign::Left,
            word_break: WordBreak::Normal,
            d: "0".to_owned(),
            h_color: String::new(),
            h_size: String::new(),
        }
    }

    /// Derive the CSS ruleset: the line clamp passes through, sizes per
    /// axis, padding and margin as compound properties, font metrics with
    /// the `px` default, and hover values falling back to the base when
    /// unset.
    pub fn resolve(&self) -> (r: TextEllipsisCss)
        ensures
            r.line@ == self.line@,
            r.width@ == spec_axis_token(spec_width_token(self.size@), false),
            r.height@ == spec_axis_token(spec_height_token(self.size@), false),
            r.padding@ == spec_compound(self.padding@),
            r.margin@ == spec_compound(self.margin@),
            r.background_image@ == spec_bg_image(self.bg_image@),
            r.cursor@ == self.cursor.spec_name(),
            r.white_space@ == self.white_space.spec_name(),
            r.min_width@ == spec_axis_token(spec_width_token(self.min_size@), false),
            r.min_height@ == spec_axis_token(spec_height_token(self.min_size@), false),
            r.max_width@ == spec_axis_token(spec_width_token(self.max_size@), true),
            r.max_height@ == spec_axis_token(spec_height_token(self.max_size@), true),
            r.z_index@ == self.z_index@,
            r.opacity@ == self.opacity@,
            r.font_size@ == spec_px_scalar(self.font_size@),
            r.color@ == self.color@,
            r.font_style@ == self.font_style.spec_name(),
            r.font_weight@ == self.font_weight.spec_name(),
            r.letter_spacing@ == spec_px_scalar(self.letter_spacing@),
            r.line_height@ == spec_px_scalar(self.line_height@),
            r.text_decoration@ == self.text_decoration@,
            r.text_align@ == self.text_align.spec_name(),
            r.word_break@ == self.word_break.spec_name(),
            r.d@ == self.d@,
            r.hover_color@ == spec_fallback(self.color@, self.h_color@),
            r.hover_width@ == spec_axis_token(
                spec_width_token(spec_hover_source(self.size@, self.h_size@)),
                false,
            ),
            r.hover_height@ == spec_axis_token(
                spec_height_token(spec_hover_source(self.size@, self.h_size@)),
                false,
            ),
    {
        let pair = resolve_pair(self.size.as_str(), false);
        let min_pair = resolve_pair(self.min_size.as_str(), false);
        let max_pair = resolve_pair(self.max_size.as_str(), true);
        let hover_pair = resolve_hover_pair(self.size.as_str(), self.h_size.as_str());
        TextEllipsisCss {
            line: self.line.clone(),
            width: pair.0,
            height: pair.1,
            padding: normalize_compound(self.padding.as_str()),
            margin: normalize_compound(self.margin.as_str()),
            background_image: bg_image(self.bg_image.as_str()),
            cursor: self.cursor.get_name(),
            white_space: self.white_space.get_name(),
            min_width: min_pair.0,
            min_height: min_pair.1,
            max_width: max_pair.0,
            max_height: max_pair.1,
            z_index: self.z_index.clone(),
            opacity: self.opacity.clone(),
            font_size: px_scalar(self.font_size.as_str()),
            color: self.color.clone(),
            font_style: self.font_style.get_name(),
            font_weight: self.font_weight.get_name(),
            letter_spacing: px_scalar(self.letter_spacing.as_str()),
            line_height: px_scalar(self.line_height.as_str()),
            text_decoration: self.text_decoration.clone(),
            text_align: self.text_align.get_name(),
            word_break: self.word_break.get_name(),
            d: self.d.clone(),
            hover_color: fallback(self.color.as_str(), self.h_color.as_str()),
            hover_width: hover_pair.0,
            hover_height: hover_pair.1,
        }
    }
}

/// The hover fallback law for a clamped text block: when the hover color
/// and hover size are unset (the empty string), the hover-resolved values
/// equal their base-resolved counterparts.
pub proof fn lemma_text_ellipsis_hover_unset(p: TextEllipsisProps)
    requires
        p.h_color@.len() == 0,
        p.h_size@.len() == 0,
    ensures
        spec_fallback(p.color@, p.h_color@) == p.color@,
        spec_axis_token(spec_width_token(spec_hover_source(p.size@, p.h_size@)), false)
            == spec_axis_token(spec_width_token(p.size@), false),
        spec_axis_token(spec_height_token(spec_hover_source(p.size@, p.h_size@)), false)
            == spec_axis_token(spec_height_token(p.size@), false),
{
}

} // verus!
