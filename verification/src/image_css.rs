//! The image primitive: source, sizing, spacing, position and hover
//! overrides, deriving the CSS ruleset the rendered element carries.

use vstd::prelude::*;

use crate::normalize::{
    fallback, normalize_compound, resolve_hover_compound, resolve_hover_pair, resolve_pair,
    spec_axis_token, spec_compound, spec_fallback, spec_height_token, spec_hover_source,
    spec_width_token,
};
use crate::types::{Cursor, PointerEvents, Position};

verus! {

/// The style properties of an image.  The `h_*` hover overrides use the
/// empty string as their unset sentinel.
#[derive(Clone, PartialEq)]
pub struct ImageProps {
    pub src: String,
    pub size: String,
    pub padding: String,
    pub margin: String,
    pub radius: String,
    pub cursor: Cursor,
    pub position: Position,
    pub top: String,
    pub right: String,
    pub bottom: String,
    pub left: String,
    pub z_index: String,
    pub opacity: String,
    pub duration: String,
    pub h_opacity: String,
    pub h_padding: String,
    pub h_margin: String,
    pub h_radius: String,
    pub h_size: String,
    pub pointer_events: PointerEvents,
}

/// The CSS ruleset an image renders with.
#[derive(Clone, PartialEq)]
pub struct ImageCss {
    pub width: String,
    pub height: String,
    pub padding: String,
    pub margin: String,
    pub border_radius: String,
    pub cursor: String,
    pub position: String,
    pub top: String,
    pub right: String,
    pub bottom: String,
    pub left: String,
    pub z_index: String,
    pub opacity: String,
    pub pointer_events: String,
    pub duration: String,
    pub hover_opacity: String,
    pub hover_padding: String,
    pub hover_margin: String,
    pub hover_radius: String,
    pub hover_width: String,
    pub hover_height: String,
}

impl ImageProps {
    /// An image with the given source and every other property at its
    /// default: automatic size, no spacing, static position, every hover
    /// override unset.
    pub fn with_src(src: String) -> (r: Self)
        ensures
            r.src == src,
            r.size@ == "auto auto"@,
            r.padding@ == "0"@,
            r.margin@ == "0"@,
            r.radius@ == "0"@,
            r.cursor is Unset,
            r.position is Static,
            r.top@ == "auto"@,
            r.right@ == "auto"@,
            r.bottom@ == "auto"@,
            r.left@ == "auto"@,
            r.z_index@ == "auto"@,
            r.opacity@ == "inherit"@,
            r.duration@ == "0"@,
            r.h_opacity@.len() == 0,
            r.h_padding@.len() == 0,
            r.h_margin@.len() == 0,
            r.h_radius@.len() == 0,
            r.h_size@.len() == 0,
            r.pointer_events is Auto,
    {
        ImageProps {
            src,
            size: "auto auto".to_owned(),
            padding: "0".to_owned(),
            margin: "0".to_owned(),
            radius: "0".to_owned(),
            cursor: Cursor::Unset,
            position: Position::Static,
            top: "auto".to_owned(),
            right: "auto".to_owned(),
            bottom: "auto".to_owned(),
            left: "auto".to_owned(),
            z_index: "auto".to_owned(),
            opacity: "inherit".to_owned(),
            duration: "0".to_owned(),
            h_opacity: String::new(),
            h_padding: String::new(),
            h_margin: String::new(),
            h_radius: String::new(),
            h_size: String::new(),
            pointer_events: PointerEvents::Auto,
        }
    }

    /// Derive the CSS ruleset: size tokens per axis, padding, margin and
    /// radius as compound properties, raw position offsets, and hover
    /// values falling back to the base when unset.
    pub fn resolve(&self) -> (r: ImageCss)
        ensures
            r.width@ == spec_axis_token(spec_width_token(self.size@), false),
            r.height@ == spec_axis_token(spec_height_token(self.size@), false),
            r.padding@ == spec_compound(self.padding@),
            r.margin@ == spec_compound(self.margin@),
            r.border_radius@ == spec_compound(self.radius@),
            r.cursor@ == self.cursor.spec_name(),
            r.position@ == self.position.spec_name(),
            r.top@ == self.top@,
            r.right@ == self.right@,
            r.bottom@ == self.bottom@,
            r.left@ == self.left@,
            r.z_index@ == self.z_index@,
            r.opacity@ == self.opacity@,
            r.pointer_events@ == self.pointer_events.spec_name(),
            r.duration@ == self.duration@,
            r.hover_opacity@ == spec_fallback(self.opacity@, self.h_opacity@),
            r.hover_padding@ == spec_compound(spec_hover_source(self.padding@, self.h_padding@)),
            r.hover_margin@ == spec_compound(spec_hover_source(self.margin@, self.h_margin@)),
            r.hover_radius@ == spec_compound(spec_hover_source(self.radius@, self.h_radius@)),
            r.hover_width@ == spec_axis_token(
                spec_width_token(spec_hover_source(self.size@, self.h_size@)),
                false,
            ),
            r.hover_height@ == spec_axis_token(
                spec_height_token(spec_hover_source(self.size@, self.h_size@)),
                false,
            ),
    {
        let pair = resolve_pair(self.size.as_str(), false);
        let hover_pair = resolve_hover_pair(self.size.as_str(), self.h_size.as_str());
        ImageCss {
            width: pair.0,
            height: pair.1,
            padding: normalize_compound(self.padding.as_str()),
            margin: normalize_compound(self.margin.as_str()),
            border_radius: normalize_compound(self.radius.as_str()),
            cursor: self.cursor.get_name(),
            position: self.position.get_name(),
            top: self.top.clone(),
            right: self.right.clone(),
            bottom: self.bottom.clone(),
            left: self.left.clone(),
            z_index: self.z_index.clone(),
            opacity: self.opacity.clone(),
            pointer_events: self.pointer_events.get_name(),
            duration: self.duration.clone(),
            hover_opacity: fallback(self.opacity.as_str(), self.h_opacity.as_str()),
            hover_padding: resolve_hover_compound(self.padding.as_str(), self.h_padding.as_str()),
            hover_margin: resolve_hover_compound(self.margin.as_str(), self.h_margin.as_str()),
            hover_radius: resolve_hover_compound(self.radius.as_str(), self.h_radius.as_str()),
            hover_width: hover_pair.0,
            hover_height: hover_pair.1,
        }
    }
}

/// The hover fallback law for an image: when every hover override is
/// unset (the empty string), each hover-resolved value equals its
/// base-resolved counterpart.
pub proof fn lemma_image_hover_unset(p: ImageProps)
    requires
        p.h_opacity@.len() == 0,
        p.h_padding@.len() == 0,
        p.h_margin@.len() == 0,
        p.h_radius@.len() == 0,
        p.h_size@.len() == 0,
    ensures
        spec_fallback(p.opacity@, p.h_opacity@) == p.opacity@,
        spec_compound(spec_hover_source(p.padding@, p.h_padding@)) == spec_compound(p.padding@),
        spec_compound(spec_hover_source(p.margin@, p.h_margin@)) == spec_compound(p.margin@),
        spec_compound(spec_hover_source(p.radius@, p.h_radius@)) == spec_compound(p.radius@),
        spec_axis_token(spec_width_token(spec_hover_source(p.size@, p.h_size@)), false)
            == spec_axis_token(spec_width_token(p.size@), false),
        spec_axis_token(spec_height_token(spec_hover_source(p.size@, p.h_size@)), false)
            == spec_axis_token(spec_height_token(p.size@), false),
{
}

} // verus!
