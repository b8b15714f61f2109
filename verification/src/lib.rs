//! Styled UI primitives: verified normalization of CSS-like style strings.
//!
//! Raw style tokens (`"10"`, `"50%"`, `"auto"`, `"calc(50vh-100px)"`) are
//! turned into CSS-legal value strings: a default `px` unit is appended to
//! bare numbers, keywords and unit-qualified values pass through, and
//! arithmetic expressions get spacing around their operators.  Each UI
//! component (box, flex container, text, image, divider) derives its full
//! CSS ruleset from a bag of such properties, with hover and dark-mode
//! overrides falling back to the base value when unset.

pub mod box_css;
pub mod flex_css;
pub mod image_css;
pub mod line_css;
pub mod normalize;
pub mod strutil;
pub mod text_css;
pub mod text_ellipsis_css;
pub mod types;
pub mod utils;
