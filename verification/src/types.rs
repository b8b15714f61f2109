//! The closed enum-to-string style property tables: each enum maps its
//! variants to fixed CSS keywords through `get_name`, whose contract pins
//! the exact string returned for every variant.

use vstd::prelude::*;

verus! {

/// CSS `box-sizing`.
#[derive(Clone, PartialEq)]
pub enum BoxSizing {
    BorderBox,
    ContentBox,
}

impl BoxSizing {
    /// The CSS keyword for this variant.
    pub open spec fn spec_name(&self) -> Seq<char> {
        match self {
            BoxSizing::BorderBox => "border-box"@,
            BoxSizing::ContentBox => "content-box"@,
        }
    }

    /// The CSS keyword for this variant.
    pub fn get_name(&self) -> (r: String)
        ensures
            r@ == self.spec_name(),
    {
        match self {
            BoxSizing::BorderBox => "border-box".to_owned(),
            BoxSizing::ContentBox => "content-box".to_owned(),
        }
    }
}

/// CSS `border-style`.
#[derive(Clone, PartialEq)]
pub enum BorderStyle {
    No,
    Hidden,
    Dotted,
    Dashed,
    Solid,
    Double,
    Groove,
    Ridge,
    Inset,
    Outset,
}

impl BorderStyle {
    /// The CSS keyword for this variant.
    pub open spec fn spec_name(&self) -> Seq<char> {
        match self {
            BorderStyle::No => "none"@,
            BorderStyle::Hidden => "hidden"@,
            BorderStyle::Dotted => "dotted"@,
            BorderStyle::Dashed => "dashed"@,
            BorderStyle::Solid => "solid"@,
            BorderStyle::Double => "double"@,
            BorderStyle::Groove => "groove"@,
            BorderStyle::Ridge => "ridge"@,
            BorderStyle::Inset => "inset"@,
            BorderStyle::Outset => "outset"@,
        }
    }

    /// The CSS keyword for this variant.
    pub fn get_name(&self) -> (r: String)
        ensures
            r@ == self.spec_name(),
    {
        match self {
            BorderStyle::No => "none".to_owned(),
            BorderStyle::Hidden => "hidden".to_owned(),
            BorderStyle::Dotted => "dotted".to_owned(),
            BorderStyle::Dashed => "dashed".to_owned(),
            BorderStyle::Solid => "solid".to_owned(),
            BorderStyle::Double => "double".to_owned(),
            BorderStyle::Groove => "groove".to_owned(),
            BorderStyle::Ridge => "ridge".to_owned(),
            BorderStyle::Inset => "inset".to_owned(),
            BorderStyle::Outset => "outset".to_owned(),
        }
    }
}

/// CSS `overflow`, including the two-axis shorthand values.
#[derive(Clone, PartialEq)]
pub enum Overflow {
    Visible,
    Hidden,
    Clip,
    Scroll,
    Auto,
    VisibleHidden,
    VisibleScroll,
    HiddenVisible,
    HiddenScroll,
    ScrollVisible,
    ScrollHidden,
}

impl Overflow {
    /// The CSS keyword (or keyword pair) for this variant.
    pub open spec fn spec_name(&self) -> Seq<char> {
        match self {
            Overflow::Visible => "visible"@,
            Overflow::Hidden => "hidden"@,
            Overflow::Clip => "clip"@,
            Overflow::Scroll => "scroll"@,
            Overflow::Auto => "auto"@,
            Overflow::VisibleHidden => "visible hidden"@,
            Overflow::VisibleScroll => "visible scroll"@,
            Overflow::HiddenVisible => "hidden visible"@,
            Overflow::HiddenScroll => "hidden scroll"@,
            Overflow::ScrollVisible => "scroll visible"@,
            Overflow::ScrollHidden => "scroll hidden"@,
        }
    }

    /// The CSS keyword (or keyword pair) for this variant.
    pub fn get_name(&self) -> (r: String)
        ensures
            r@ == self.spec_name(),
    {
        match self {
            Overflow::Visible => "visible".to_owned(),
            Overflow::Hidden => "hidden".to_owned(),
            Overflow::Clip => "clip".to_owned(),
            Overflow::Scroll => "scroll".to_owned(),
            Overflow::Auto => "auto".to_owned(),
            Overflow::VisibleHidden => "visible hidden".to_owned(),
            Overflow::VisibleScroll => "visible scroll".to_owned(),
            Overflow::HiddenVisible => "hidden visible".to_owned(),
            Overflow::HiddenScroll => "hidden scroll".to_owned(),
            Overflow::ScrollVisible => "scroll visible".to_owned(),
            Overflow::ScrollHidden => "scroll hidden".to_owned(),
        }
    }
}

/// How an image fills its box, mapped to CSS `background-size` keywords.
#[derive(Clone, PartialEq)]
pub enum ImageMode {
    Auto,
    AspectFit,
    AspectFill,
}

impl ImageMode {
    /// The CSS keyword for this variant.
    pub open spec fn spec_name(&self) -> Seq<char> {
        match self {
            ImageMode::Auto => "auto"@,
            ImageMode::AspectFit => "contain"@,
            ImageMode::AspectFill => "cover"@,
        }
    }

    /// The CSS keyword for this variant.
    pub fn get_name(&self) -> (r: String)
        ensures
            r@ == self.spec_name(),
    {
        match self {
            ImageMode::Auto => "auto".to_owned(),
            ImageMode::AspectFit => "contain".to_owned(),
            ImageMode::AspectFill => "cover".to_owned(),
        }
    }
}

/// CSS `cursor`.
#[derive(Clone, PartialEq)]
pub enum Cursor {
    Unset,
    Auto,
    Pointer,
    Help,
    Wait,
    Crosshair,
    NotAllowed,
    ZoomIn,
    ZoomOut,
    Grab,
}

impl Cursor {
    /// The CSS keyword for this variant.
    pub open spec fn spec_name(&self) -> Seq<char> {
        match self {
            Cursor::Unset => "unset"@,
            Cursor::Auto => "auto"@,
            Cursor::Pointer => "pointer"@,
            Cursor::Help => "help"@,
            Cursor::Wait => "wait"@,
            Cursor::Crosshair => "crosshair"@,
            Cursor::NotAllowed => "not-allowed"@,
            Cursor::ZoomIn => "zoom-in"@,
            Cursor::ZoomOut => "zoom-out"@,
            Cursor::Grab => "grab"@,
        }
    }

    /// The CSS keyword for this variant.
    pub fn get_name(&self) -> (r: String)
        ensures
            r@ == self.spec_name(),
    {
        match self {
            Cursor::Unset => "unset".to_owned(),
            Cursor::Auto => "auto".to_owned(),
            Cursor::Pointer => "pointer".to_owned(),
            Cursor::Help => "help".to_owned(),
            Cursor::Wait => "wait".to_owned(),
            Cursor::Crosshair => "crosshair".to_owned(),
            Cursor::NotAllowed => "not-allowed".to_owned(),
            Cursor::ZoomIn => "zoom-in".to_owned(),
            Cursor::ZoomOut => "zoom-out".to_owned(),
            Cursor::Grab => "grab".to_owned(),
        }
    }
}

/// CSS `white-space`.
#[derive(Clone, PartialEq)]
pub enum WhiteSpace {
    Normal,
    Nowrap,
    Pre,
    PreWrap,
    PreLine,
    BreakSpaces,
}

impl WhiteSpace {
    /// The CSS keyword for this variant.
    pub open spec fn spec_name(&self) -> Seq<char> {
        match self {
            WhiteSpace::Normal => "normal"@,
            WhiteSpace::Nowrap => "nowrap"@,
            WhiteSpace::Pre => "pre"@,
            WhiteSpace::PreWrap => "pre-wrap"@,
            WhiteSpace::PreLine => "pre-line"@,
            WhiteSpace::BreakSpaces => "break-spaces"@,
        }
    }

    /// The CSS keyword for this variant.
    pub fn get_name(&self) -> (r: String)
        ensures
            r@ == self.spec_name(),
    {
        match self {
            WhiteSpace::Normal => "normal".to_owned(),
            WhiteSpace::Nowrap => "nowrap".to_owned(),
            WhiteSpace::Pre => "pre".to_owned(),
            WhiteSpace::PreWrap => "pre-wrap".to_owned(),
            WhiteSpace::PreLine => "pre-line".to_owned(),
            WhiteSpace::BreakSpaces => "break-spaces".to_owned(),
        }
    }
}

/// CSS `display`.
#[derive(Clone, PartialEq)]
pub enum Display {
    Block,
    Inline,
    InlineBlock,
    Grid,
    InlineGrid,
    FlowRoot,
    NoneValue,
    Contents,
}

impl Display {
    /// The CSS keyword for this variant.
    pub open spec fn spec_name(&self) -> Seq<char> {
        match self {
            Display::Block => "block"@,
            Display::Inline => "inline"@,
            Display::InlineBlock => "inline-block"@,
            Display::Grid => "grid"@,
            Display::InlineGrid => "inline-grid"@,
            Display::FlowRoot => "flow-root"@,
            Display::NoneValue => "none"@,
            Display::Contents => "contents"@,
        }
    }

    /// The CSS keyword for this variant.
    pub fn get_name(&self) -> (r: String)
        ensures
            r@ == self.spec_name(),
    {
        match self {
            Display::Block => "block".to_owned(),
            Display::Inline => "inline".to_owned(),
            Display::InlineBlock => "inline-block".to_owned(),
            Display::Grid => "grid".to_owned(),
            Display::InlineGrid => "inline-grid".to_owned(),
            Display::FlowRoot => "flow-root".to_owned(),
            Display::NoneValue => "none".to_owned(),
            Display::Contents => "contents".to_owned(),
        }
    }
}

/// CSS `position`.
#[derive(Clone, PartialEq)]
pub enum Position {
    Absolute,
    Fixed,
    Relative,
    Static,
    Sticky,
    Inherit,
}

impl Position {
    /// The CSS keyword for this variant.
    pub open spec fn spec_name(&self) -> Seq<char> {
        match self {
            Position::Absolute => "absolute"@,
            Position::Fixed => "fixed"@,
            Position::Relative => "relative"@,
            Position::Static => "static"@,
            Position::Sticky => "sticky"@,
            Position::Inherit => "inherit"@,
        }
    }

    /// The CSS keyword for this variant.
    pub fn get_name(&self) -> (r: String)
        ensures
            r@ == self.spec_name(),
    {
        match self {
            Position::Absolute => "absolute".to_owned(),
            Position::Fixed => "fixed".to_owned(),
            Position::Relative => "relative".to_owned(),
            Position::Static => "static".to_owned(),
            Position::Sticky => "sticky".to_owned(),
            Position::Inherit => "inherit".to_owned(),
        }
    }
}

/// CSS `font-style`.
#[derive(Clone, PartialEq)]
pub enum FontStyle {
    Normal,
    Italic,
    Oblique,
    Inherit,
}

impl FontStyle {
    /// The CSS keyword for this variant.
    pub open spec fn spec_name(&self) -> Seq<char> {
        match self {
            FontStyle::Normal => "normal"@,
            FontStyle::Italic => "italic"@,
            FontStyle::Oblique => "oblique"@,
            FontStyle::Inherit => "inherit"@,
        }
    }

    /// The CSS keyword for this variant.
    pub fn get_name(&self) -> (r: String)
        ensures
            r@ == self.spec_name(),
    {
        match self {
            FontStyle::Normal => "normal".to_owned(),
            FontStyle::Italic => "italic".to_owned(),
            FontStyle::Oblique => "oblique".to_owned(),
            FontStyle::Inherit => "inherit".to_owned(),
        }
    }
}

/// CSS `font-weight`, keywords and the numeric scale.
#[derive(Clone, PartialEq)]
pub enum FontWeight {
    Normal,
    Bold,
    Bolder,
    Lighter,
    Initial,
    Inherit,
    Num900,
    Num800,
    Num700,
    Num600,
    Num500,
    Num400,
    Num300,
    Num200,
    Num100,
}

impl FontWeight {
    /// The CSS keyword or weight number for this variant.
    pub open spec fn spec_name(&self) -> Seq<char> {
        match self {
            FontWeight::Normal => "normal"@,
            FontWeight::Bold => "bold"@,
            FontWeight::Bolder => "bolder"@,
            FontWeight::Lighter => "lighter"@,
            FontWeight::Initial => "initial"@,
            FontWeight::Inherit => "inherit"@,
            FontWeight::Num900 => "900"@,
            FontWeight::Num800 => "800"@,
            FontWeight::Num700 => "700"@,
            FontWeight::Num600 => "600"@,
            FontWeight::Num500 => "500"@,
            FontWeight::Num400 => "400"@,
            FontWeight::Num300 => "300"@,
            FontWeight::Num200 => "200"@,
            FontWeight::Num100 => "100"@,
        }
    }

    /// The CSS keyword or weight number for this variant.
    pub fn get_name(&self) -> (r: String)
        ensures
            r@ == self.spec_name(),
    {
        match self {
            FontWeight::Normal => "normal".to_owned(),
            FontWeight::Bold => "bold".to_owned(),
            FontWeight::Bolder => "bolder".to_owned(),
            FontWeight::Lighter => "lighter".to_owned(),
            FontWeight::Initial => "initial".to_owned(),
            FontWeight::Inherit => "inherit".to_owned(),
            FontWeight::Num900 => "900".to_owned(),
            FontWeight::Num800 => "800".to_owned(),
            FontWeight::Num700 => "700".to_owned(),
            FontWeight::Num600 => "600".to_owned(),
            FontWeight::Num500 => "500".to_owned(),
            FontWeight::Num400 => "400".to_owned(),
            FontWeight::Num300 => "300".to_owned(),
            FontWeight::Num200 => "200".to_owned(),
            FontWeight::Num100 => "100".to_owned(),
        }
    }
}

/// CSS `text-align`.
#[derive(Clone, PartialEq)]
pub enum TextAlign {
    Left,
    Right,
    Center,
    Start,
    End,
    Justify,
}

impl TextAlign {
    /// The CSS keyword for this variant.
    pub open spec fn spec_name(&self) -> Seq<char> {
        match self {
            TextAlign::Left => "left"@,
            TextAlign::Right => "right"@,
            TextAlign::Center => "center"@,
            TextAlign::Start => "start"@,
            TextAlign::End => "end"@,
            TextAlign::Justify => "justify"@,
        }
    }

    /// The CSS keyword for this variant.
    pub fn get_name(&self) -> (r: String)
        ensures
            r@ == self.spec_name(),
    {
        match self {
            TextAlign::Left => "left".to_owned(),
            TextAlign::Right => "right".to_owned(),
            TextAlign::Center => "center".to_owned(),
            TextAlign::Start => "start".to_owned(),
            TextAlign::End => "end".to_owned(),
            TextAlign::Justify => "justify".to_owned(),
        }
    }
}

/// CSS `word-break`.
#[derive(Clone, PartialEq)]
pub enum WordBreak {
    BreakAll,
    Normal,
    KeepAll,
    BreakWord,
}

impl WordBreak {
    /// The CSS keyword for this variant.
    pub open spec fn spec_name(&self) -> Seq<char> {
        match self {
            WordBreak::BreakAll => "break-all"@,
            WordBreak::Normal => "normal"@,
            WordBreak::KeepAll => "keep-all"@,
            WordBreak::BreakWord => "break-word"@,
        }
    }

    /// The CSS keyword for this variant.
    pub fn get_name(&self) -> (r: String)
        ensures
            r@ == self.spec_name(),
    {
        match self {
            WordBreak::BreakAll => "break-all".to_owned(),
            WordBreak::Normal => "normal".to_owned(),
            WordBreak::KeepAll => "keep-all".to_owned(),
            WordBreak::BreakWord => "break-word".to_owned(),
        }
    }
}

/// CSS `pointer-events`.
#[derive(Clone, PartialEq)]
pub enum PointerEvents {
    Auto,
    NoneValue,
}

impl PointerEvents {
    /// The CSS keyword for this variant.
    pub open spec fn spec_name(&self) -> Seq<char> {
        match self {
            PointerEvents::Auto => "auto"@,
            PointerEvents::NoneValue => "none"@,
        }
    }

    /// The CSS keyword for this variant.
    pub fn get_name(&self) -> (r: String)
        ensures
            r@ == self.spec_name(),
    {
        match self {
            PointerEvents::Auto => "auto".to_owned(),
            PointerEvents::NoneValue => "none".to_owned(),
        }
    }
}

/// Which mobile safe-area inset a divider pads for.
#[derive(Clone, PartialEq)]
pub enum SafeType {
    NoneValue,
    Top,
    Bottom,
}

impl SafeType {
    /// The padding-top value this safe-area choice induces.
    pub open spec fn spec_padding_top(&self) -> Seq<char> {
        match self {
            SafeType::NoneValue => "0"@,
            SafeType::Top => "env(safe-area-inset-top)"@,
            SafeType::Bottom => "0"@,
        }
    }

    /// The padding-bottom value this safe-area choice induces.
    pub open spec fn spec_padding_bottom(&self) -> Seq<char> {
        match self {
            SafeType::NoneValue => "0"@,
            SafeType::Top => "0"@,
            SafeType::Bottom => "env(safe-area-inset-bottom)"@,
        }
    }

    /// The padding-top value this safe-area choice induces.
    pub fn padding_top(&self) -> (r: String)
        ensures
            r@ == self.spec_padding_top(),
    {
        match self {
            SafeType::NoneValue => "0".to_owned(),
            SafeType::Top => "env(safe-area-inset-top)".to_owned(),
            SafeType::Bottom => "0".to_owned(),
        }
    }

    /// The padding-bottom value this safe-area choice induces.
    pub fn padding_bottom(&self) -> (r: String)
        ensures
            r@ == self.spec_padding_bottom(),
    {
        match self {
            SafeType::NoneValue => "0".to_owned(),
            SafeType::Top => "0".to_owned(),
            SafeType::Bottom => "env(safe-area-inset-bottom)".to_owned(),
        }
    }
}

/// The flex layout shorthand: a four-letter code `f` + direction +
/// justify-content + align-items, with `r`/`c` for row/column in the
/// direction slot and `a`/`b`/`c`/`e`/`s` for space-around, space-between,
/// center, flex-end and flex-start in the other two.
#[derive(Clone, PartialEq)]
pub enum FlexWay {
    Fraa,
    Frab,
    Frac,
    Frae,
    Fras,
    Frba,
    Frbb,
    Frbc,
    Frbe,
    Frbs,
    Frca,
    Frcb,
    Frcc,
    Frce,
    Frcs,
    Frea,
    Freb,
    Frec,
    Free,
    Fres,
    Frsa,
    Frsb,
    Frsc,
    Frse,
    Frss,
    Fcaa,
    Fcab,
    Fcac,
    Fcae,
    Fcas,
    Fcba,
    Fcbb,
    Fcbc,
    Fcbe,
    Fcbs,
    Fcca,
    Fccb,
    Fccc,
    Fcce,
    Fccs,
    Fcea,
    Fceb,
    Fcec,
    Fcee,
    Fces,
    Fcsa,
    Fcsb,
    Fcsc,
    Fcse,
    Fcss,
}

/// The CSS value one letter of the flex code stands for: `r` is `row`,
/// `b` is `space-between`, `a` is `space-around`, `e` is `flex-end`,
/// `s` is `flex-start`, and anything else (in particular `c`) is `center`.
pub open spec fn spec_flex_pos(c: char) -> Seq<char> {
    if c == 'r' {
        "row"@
    } else if c == 'b' {
        "space-between"@
    } else if c == 'a' {
        "space-around"@
    } else if c == 'e' {
        "flex-end"@
    } else if c == 's' {
        "flex-start"@
    } else {
        "center"@
    }
}

/// Map one letter of the flex code to its CSS value.
pub fn flex_pos(c: char) -> (r: String)
    ensures
        r@ == spec_flex_pos(c),
{
    if c == 'r' {
        "row".to_owned()
    } else if c == 'b' {
        "space-between".to_owned()
    } else if c == 'a' {
        "space-around".to_owned()
    } else if c == 'e' {
        "flex-end".to_owned()
    } else if c == 's' {
        "flex-start".to_owned()
    } else {
        "center".to_owned()
    }
}

impl FlexWay {
    /// The four-letter code for this variant.
    pub open spec fn spec_name(&self) -> Seq<char> {
        match self {
            FlexWay::Fraa => "fraa"@,
            FlexWay::Frab => "frab"@,
            FlexWay::Frac => "frac"@,
            FlexWay::Frae => "frae"@,
            FlexWay::Fras => "fras"@,
            FlexWay::Frba => "frba"@,
            FlexWay::Frbb => "frbb"@,
            FlexWay::Frbc => "frbc"@,
            FlexWay::Frbe => "frbe"@,
            FlexWay::Frbs => "frbs"@,
            FlexWay::Frca => "frca"@,
            FlexWay::Frcb => "frcb"@,
            FlexWay::Frcc => "frcc"@,
            FlexWay::Frce => "frce"@,
            FlexWay::Frcs => "frcs"@,
            FlexWay::Frea => "frea"@,
            FlexWay::Freb => "freb"@,
            FlexWay::Frec => "frec"@,
            FlexWay::Free => "free"@,
            FlexWay::Fres => "fres"@,
            FlexWay::Frsa => "frsa"@,
            FlexWay::Frsb => "frsb"@,
            FlexWay::Frsc => "frsc"@,
            FlexWay::Frse => "frse"@,
            FlexWay::Frss => "frss"@,
            FlexWay::Fcaa => "fcaa"@,
            FlexWay::Fcab => "fcab"@,
            FlexWay::Fcac => "fcac"@,
            FlexWay::Fcae => "fcae"@,
            FlexWay::Fcas => "fcas"@,
            FlexWay::Fcba => "fcba"@,
            FlexWay::Fcbb => "fcbb"@,
            FlexWay::Fcbc => "fcbc"@,
            FlexWay::Fcbe => "fcbe"@,
            FlexWay::Fcbs => "fcbs"@,
            FlexWay::Fcca => "fcca"@,
            FlexWay::Fccb => "fccb"@,
            FlexWay::Fccc => "fccc"@,
            FlexWay::Fcce => "fcce"@,
            FlexWay::Fccs => "fccs"@,
            FlexWay::Fcea => "fcea"@,
            FlexWay::Fceb => "fceb"@,
            FlexWay::Fcec => "fcec"@,
            FlexWay::Fcee => "fcee"@,
            FlexWay::Fces => "fces"@,
            FlexWay::Fcsa => "fcsa"@,
            FlexWay::Fcsb => "fcsb"@,
            FlexWay::Fcsc => "fcsc"@,
            FlexWay::Fcse => "fcse"@,
            FlexWay::Fcss => "fcss"@,
        }
    }

    /// The four-letter code for this variant.
    pub fn get_name(&self) -> (r: String)
        ensures
            r@ == self.spec_name(),
    {
        match self {
            FlexWay::Fraa => "fraa".to_owned(),
            FlexWay::Frab => "frab".to_owned(),
            FlexWay::Frac => "frac".to_owned(),
            FlexWay::Frae => "frae".to_owned(),
            FlexWay::Fras => "fras".to_owned(),
            FlexWay::Frba => "frba".to_owned(),
            FlexWay::Frbb => "frbb".to_owned(),
            FlexWay::Frbc => "frbc".to_owned(),
            FlexWay::Frbe => "frbe".to_owned(),
            FlexWay::Frbs => "frbs".to_owned(),
            FlexWay::Frca => "frca".to_owned(),
            FlexWay::Frcb => "frcb".to_owned(),
            FlexWay::Frcc => "frcc".to_owned(),
            FlexWay::Frce => "frce".to_owned(),
            FlexWay::Frcs => "frcs".to_owned(),
            FlexWay::Frea => "frea".to_owned(),
            FlexWay::Freb => "freb".to_owned(),
            FlexWay::Frec => "frec".to_owned(),
            FlexWay::Free => "free".to_owned(),
            FlexWay::Fres => "fres".to_owned(),
            FlexWay::Frsa => "frsa".to_owned(),
            FlexWay::Frsb => "frsb".to_owned(),
            FlexWay::Frsc => "frsc".to_owned(),
            FlexWay::Frse => "frse".to_owned(),
            FlexWay::Frss => "frss".to_owned(),
            FlexWay::Fcaa => "fcaa".to_owned(),
            FlexWay::Fcab => "fcab".to_owned(),
            FlexWay::Fcac => "fcac".to_owned(),
            FlexWay::Fcae => "fcae".to_owned(),
            FlexWay::Fcas => "fcas".to_owned(),
            FlexWay::Fcba => "fcba".to_owned(),
            FlexWay::Fcbb => "fcbb".to_owned(),
            FlexWay::Fcbc => "fcbc".to_owned(),
            FlexWay::Fcbe => "fcbe".to_owned(),
            FlexWay::Fcbs => "fcbs".to_owned(),
            FlexWay::Fcca => "fcca".to_owned(),
            FlexWay::Fccb => "fccb".to_owned(),
            FlexWay::Fccc => "fccc".to_owned(),
            FlexWay::Fcce => "fcce".to_owned(),
            FlexWay::Fccs => "fccs".to_owned(),
            FlexWay::Fcea => "fcea".to_owned(),
            FlexWay::Fceb => "fceb".to_owned(),
            FlexWay::Fcec => "fcec".to_owned(),
            FlexWay::Fcee => "fcee".to_owned(),
            FlexWay::Fces => "fces".to_owned(),
            FlexWay::Fcsa => "fcsa".to_owned(),
            FlexWay::Fcsb => "fcsb".to_owned(),
            FlexWay::Fcsc => "fcsc".to_owned(),
            FlexWay::Fcse => "fcse".to_owned(),
            FlexWay::Fcss => "fcss".to_owned(),
        }
    }

    /// The CSS `flex-direction` the code's second letter selects: the
    /// letter's mapped value, with `center` (from the column letter `c`)
    /// standing for `column`.
    pub open spec fn spec_direction(&self) -> Seq<char> {
        if spec_flex_pos(self.spec_name()[1]) == "center"@ {
            "column"@
        } else {
            spec_flex_pos(self.spec_name()[1])
        }
    }

    /// The CSS `justify-content` the code's third letter selects.
    pub open spec fn spec_justify(&self) -> Seq<char> {
        spec_flex_pos(self.spec_name()[2])
    }

    /// The CSS `align-items` the code's fourth letter selects.
    pub open spec fn spec_align(&self) -> Seq<char> {
        spec_flex_pos(self.spec_name()[3])
    }

    /// The CSS `flex-direction` for this code.
    pub fn direction_name(&self) -> (r: String)
        ensures
            r@ == self.spec_direction(),
    {
        proof {
            lemma_flex_name_len(self);
        }
        let name = self.get_name();
        let m = flex_pos(name.as_str().get_char(1));
        if crate::strutil::str_eq(m.as_str(), "center") {
            "column".to_owned()
        } else {
            m
        }
    }

    /// The CSS `justify-content` for this code.
    pub fn justify_name(&self) -> (r: String)
        ensures
            r@ == self.spec_justify(),
    {
        proof {
            lemma_flex_name_len(self);
        }
        let name = self.get_name();
        flex_pos(name.as_str().get_char(2))
    }

    /// The CSS `align-items` for this code.
    pub fn align_name(&self) -> (r: String)
        ensures
            r@ == self.spec_align(),
    {
        proof {
            lemma_flex_name_len(self);
        }
        let name = self.get_name();
        flex_pos(name.as_str().get_char(3))
    }
}

/// Every flex code is four letters long.
pub proof fn lemma_flex_name_len(w: &FlexWay)
    ensures
        w.spec_name().len() == 4,
{
    match w {
        FlexWay::Fraa => reveal_strlit("fraa"),
        FlexWay::Frab => reveal_strlit("frab"),
        FlexWay::Frac => reveal_strlit("frac"),
        FlexWay::Frae => reveal_strlit("frae"),
        FlexWay::Fras => reveal_strlit("fras"),
        FlexWay::Frba => reveal_strlit("frba"),
        FlexWay::Frbb => reveal_strlit("frbb"),
        FlexWay::Frbc => reveal_strlit("frbc"),
        FlexWay::Frbe => reveal_strlit("frbe"),
        FlexWay::Frbs => reveal_strlit("frbs"),
        FlexWay::Frca => reveal_strlit("frca"),
        FlexWay::Frcb => reveal_strlit("frcb"),
        FlexWay::Frcc => reveal_strlit("frcc"),
        FlexWay::Frce => reveal_strlit("frce"),
        FlexWay::Frcs => reveal_strlit("frcs"),
        FlexWay::Frea => reveal_strlit("frea"),
        FlexWay::Freb => reveal_strlit("freb"),
        FlexWay::Frec => reveal_strlit("frec"),
        FlexWay::Free => reveal_strlit("free"),
        FlexWay::Fres => reveal_strlit("fres"),
        FlexWay::Frsa => reveal_strlit("frsa"),
        FlexWay::Frsb => reveal_strlit("frsb"),
        FlexWay::Frsc => reveal_strlit("frsc"),
        FlexWay::Frse => reveal_strlit("frse"),
        FlexWay::Frss => reveal_strlit("frss"),
        FlexWay::Fcaa => reveal_strlit("fcaa"),
        FlexWay::Fcab => reveal_strlit("fcab"),
        FlexWay::Fcac => reveal_strlit("fcac"),
        FlexWay::Fcae => reveal_strlit("fcae"),
        FlexWay::Fcas => reveal_strlit("fcas"),
        FlexWay::Fcba => reveal_strlit("fcba"),
        FlexWay::Fcbb => reveal_strlit("fcbb"),
        FlexWay::Fcbc => reveal_strlit("fcbc"),
        FlexWay::Fcbe => reveal_strlit("fcbe"),
        FlexWay::Fcbs => reveal_strlit("fcbs"),
        FlexWay::Fcca => reveal_strlit("fcca"),
        FlexWay::Fccb => reveal_strlit("fccb"),
        FlexWay::Fccc => reveal_strlit("fccc"),
        FlexWay::Fcce => reveal_strlit("fcce"),
        FlexWay::Fccs => reveal_strlit("fccs"),
        FlexWay::Fcea => reveal_strlit("fcea"),
        FlexWay::Fceb => reveal_strlit("fceb"),
        FlexWay::Fcec => reveal_strlit("fcec"),
        FlexWay::Fcee => reveal_strlit("fcee"),
        FlexWay::Fces => reveal_strlit("fces"),
        FlexWay::Fcsa => reveal_strlit("fcsa"),
        FlexWay::Fcsb => reveal_strlit("fcsb"),
        FlexWay::Fcsc => reveal_strlit("fcsc"),
        FlexWay::Fcse => reveal_strlit("fcse"),
        FlexWay::Fcss => reveal_strlit("fcss"),
    }
}

/// CSS `transition-timing-function`.
#[derive(Clone, PartialEq)]
pub enum TimingFn {
    Ease,
    Linear,
    EaseIn,
    EaseOut,
    EaseInOut,
}

impl TimingFn {
    /// The CSS keyword for this variant.
    pub open spec fn spec_name(&self) -> Seq<char> {
        match self {
            TimingFn::Ease => "ease"@,
            TimingFn::Linear => "linear"@,
            TimingFn::EaseIn => "ease-in"@,
            TimingFn::EaseOut => "ease-out"@,
            TimingFn::EaseInOut => "ease-in-out"@,
        }
    }

    /// The CSS keyword for this variant.
    pub fn get_name(&self) -> (r: String)
        ensures
            r@ == self.spec_name(),
    {
        match self {
            TimingFn::Ease => "ease".to_owned(),
            TimingFn::Linear => "linear".to_owned(),
            TimingFn::EaseIn => "ease-in".to_owned(),
            TimingFn::EaseOut => "ease-out".to_owned(),
            TimingFn::EaseInOut => "ease-in-out".to_owned(),
        }
    }
}

} // verus!
