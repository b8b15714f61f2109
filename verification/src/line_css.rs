//! The divider/line primitive: its style properties and the CSS ruleset
//! derived from them.

use vstd::prelude::*;

use crate::normalize::{
    bg_image, fallback, normalize_compound, resolve_hover_compound, resolve_hover_pair,
    resolve_pair, spec_axis_token, spec_bg_image, spec_compound, spec_fallback, spec_height_token,
    spec_hover_source, spec_width_token,
};
use crate::types::{Cursor, SafeType, TimingFn};

verus! {

/// The style properties of a line.  Hover overrides (`h_*`) and the
/// dark-mode background (`d_bg_color`) use the empty string as their unset
/// sentinel.
#[derive(Clone, PartialEq)]
pub struct LineProps {
    pub size: String,
    pub safe: SafeType,
    pub radius: String,
    pub margin: String,
    pub bg_color: String,
    pub bg_image: String,
    pub cursor: Cursor,
    pub flex_shrink: String,
    pub opacity: String,
    pub duration: String,
    pub timing_fn: TimingFn,
    pub h_opacity: String,
    pub h_margin: String,
    pub h_radius: String,
    pub h_bg_color: String,
    pub h_size: String,
    pub d_bg_color: String,
}

/// The CSS ruleset a line renders with.
#[derive(Clone, PartialEq)]
pub struct LineCss {
    pub width: String,
    pub height: String,
    pub margin: String,
    pub padding_top: String,
    pub padding_bottom: String,
    pub border_radius: String,
    pub background_color: String,
    pub background_image: String,
    pub cursor: String,
    pub opacity: String,
    pub duration: String,
    pub timing_fn: String,
    pub hover_opacity: String,
    pub hover_margin: String,
    pub hover_radius: String,
    pub hover_bg_color: String,
    pub hover_width: String,
    pub hover_height: String,
    pub flex_shrink: String,
    pub dark_bg_color: String,
}

impl Default for LineProps {
    /// A line defaults to automatic size, no rounding, no margin, a
    /// transparent background and every override unset.
    fn default() -> (r: Self)
        ensures
            r.size@ == "auto auto"@,
            r.safe is NoneValue,
            r.radius@ == "0"@,
            r.margin@ == "0"@,
            r.bg_color@ == "transparent"@,
            r.bg_image@ == "0"@,
            r.cursor is Unset,
            r.flex_shrink@ == "1"@,
            r.opacity@ == "inherit"@,
            r.duration@ == "0"@,
            r.timing_fn is Ease,
            r.h_opacity@.len() == 0,
            r.h_margin@.len() == 0,
            r.h_radius@.len() == 0,
            r.h_bg_color@.len() == 0,
            r.h_size@.len() == 0,
            r.d_bg_color@.len() == 0,
    {
        LineProps {
            size: "auto auto".to_owned(),
            safe: SafeType::NoneValue,
            radius: "0".to_owned(),
            margin: "0".to_owned(),
            bg_color: "transparent".to_owned(),
            bg_image: "0".to_owned(),
            cursor: Cursor::Unset,
            flex_shrink: "1".to_owned(),
            opacity: "inherit".to_owned(),
            duration: "0".to_owned(),
            timing_fn: TimingFn::Ease,
            h_opacity: String::new(),
            h_margin: String::new(),
            h_radius: String::new(),
            h_bg_color: String::new(),
            h_size: String::new(),
            d_bg_color: String::new(),
        }
    }
}

impl LineProps {
    /// Derive the CSS ruleset: size tokens per axis, margin and radius as
    /// compound properties, safe-area padding, and hover / dark-mode
    /// values falling back to the base when unset.
    pub fn resolve(&self) -> (r: LineCss)
        ensures
            r.width@ == spec_axis_token(spec_width_token(self.size@), false),
            r.height@ == spec_axis_token(spec_height_token(self.size@), false),
            r.margin@ == spec_compound(self.margin@),
            r.padding_top@ == self.safe.spec_padding_top(),
            r.padding_bottom@ == self.safe.spec_padding_bottom(),
            r.border_radius@ == spec_compound(self.radius@),
            r.background_color@ == self.bg_color@,
            r.background_image@ == spec_bg_image(self.bg_image@),
            r.cursor@ == self.cursor.spec_name(),
            r.opacity@ == self.opacity@,
            r.duration@ == self.duration@,
            r.timing_fn@ == self.timing_fn.spec_name(),
            r.hover_opacity@ == spec_fallback(self.opacity@, self.h_opacity@),
            r.hover_margin@ == spec_compound(spec_hover_source(self.margin@, self.h_margin@)),
            r.hover_radius@ == spec_compound(spec_hover_source(self.radius@, self.h_radius@)),
            r.hover_bg_color@ == spec_fallback(self.bg_color@, self.h_bg_color@),
            r.hover_width@ == spec_axis_token(
                spec_width_token(spec_hover_source(self.size@, self.h_size@)),
                false,
            ),
            r.hover_height@ == spec_axis_token(
                spec_height_token(spec_hover_source(self.size@, self.h_size@)),
                false,
            ),
            r.flex_shrink@ == self.flex_shrink@,
            r.dark_bg_color@ == spec_fallback(self.bg_color@, self.d_bg_color@),
    {
        let pair = resolve_pair(self.size.as_str(), false);
        let hover_pair = resolve_hover_pair(self.size.as_str(), self.h_size.as_str());
        LineCss {
            width: pair.0,
            height: pair.1,
            margin: normalize_compound(self.margin.as_str()),
            padding_top: self.safe.padding_top(),
            padding_bottom: self.safe.padding_bottom(),
            border_radius: normalize_compound(self.radius.as_str()),
            background_color: self.bg_color.clone(),
            background_image: bg_image(self.bg_image.as_str()),
            cursor: self.cursor.get_name(),
            opacity: self.opacity.clone(),
            duration: self.duration.clone(),
            timing_fn: self.timing_fn.get_name(),
            hover_opacity: fallback(self.opacity.as_str(), self.h_opacity.as_str()),
            hover_margin: resolve_hover_compound(self.margin.as_str(), self.h_margin.as_str()),
            hover_radius: resolve_hover_compound(self.radius.as_str(), self.h_radius.as_str()),
            hover_bg_color: fallback(self.bg_color.as_str(), self.h_bg_color.as_str()),
            hover_width: hover_pair.0,
            hover_height: hover_pair.1,
            flex_shrink: self.flex_shrink.clone(),
            dark_bg_color: fallback(self.bg_color.as_str(), self.d_bg_color.as_str()),
        }
    }
}

/// The hover and dark-mode fallback law for a line: when every override is
/// unset (the empty string), each hover-resolved and dark-resolved value
/// equals its base-resolved counterpart.
pub proof fn lemma_line_hover_unset(p: LineProps)
    requires
        p.h_opacity@.len() == 0,
        p.h_margin@.len() == 0,
        p.h_radius@.len() == 0,
        p.h_bg_color@.len() == 0,
        p.h_size@.len() == 0,
        p.d_bg_color@.len() == 0,
    ensures
        spec_fallback(p.opacity@, p.h_opacity@) == p.opacity@,
        spec_compound(spec_hover_source(p.margin@, p.h_margin@)) == spec_compound(p.margin@),
        spec_compound(spec_hover_source(p.radius@, p.h_radius@)) == spec_compound(p.radius@),
        spec_fallback(p.bg_color@, p.h_bg_color@) == p.bg_color@,
        spec_axis_token(spec_width_token(spec_hover_source(p.size@, p.h_size@)), false)
            == spec_axis_token(spec_width_token(p.size@), false),
        spec_axis_token(spec_height_token(spec_hover_source(p.size@, p.h_size@)), false)
            == spec_axis_token(spec_height_token(p.size@), false),
        spec_fallback(p.bg_color@, p.d_bg_color@) == p.bg_color@,
{
}

} // verus!
