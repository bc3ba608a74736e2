use vstd::prelude::*;

use crate::color::{spec_invert, spec_is_dark, Color};
use crate::stylesheet::{FontSpec, Stylesheet};
use crate::value::Value;

verus! {

/// The smallest font size offered.
pub const FONT_SIZE_MIN: i32 = 10;

/// The largest font size offered.
pub const FONT_SIZE_MAX: i32 = 40;

/// The number of rows of the theme screen.
pub const ROW_COUNT: usize = 13;

pub const DARK_MODE_ROW: usize = 0;

pub const FOREGROUND_ROW: usize = 6;

pub const BACKGROUND_ROW: usize = 7;

/// A stylesheet setting edited on the theme screen.
#[derive(Clone, Copy, Debug, PartialEq, Eq, Structural)]
pub enum Field {
    DarkMode,
    UiFont,
    UiFontSize,
    GuideFont,
    GuideFontSize,
    HighlightColor,
    ForegroundColor,
    BackgroundColor,
    DisabledColor,
    ButtonAColor,
    ButtonBColor,
    ButtonXColor,
    ButtonYColor,
}

/// The row table of the theme screen: row `i` edits this field.
pub open spec fn spec_field_of_row(i: int) -> Option<Field> {
    if i == 0 {
        Some(Field::DarkMode)
    } else if i == 1 {
        Some(Field::UiFont)
    } else if i == 2 {
        Some(Field::UiFontSize)
    } else if i == 3 {
        Some(Field::GuideFont)
    } else if i == 4 {
        Some(Field::GuideFontSize)
    } else if i == 5 {
        Some(Field::HighlightColor)
    } else if i == 6 {
        Some(Field::ForegroundColor)
    } else if i == 7 {
        Some(Field::BackgroundColor)
    } else if i == 8 {
        Some(Field::DisabledColor)
    } else if i == 9 {
        Some(Field::ButtonAColor)
    } else if i == 10 {
        Some(Field::ButtonBColor)
    } else if i == 11 {
        Some(Field::ButtonXColor)
    } else if i == 12 {
        Some(Field::ButtonYColor)
    } else {
        None
    }
}

/// Whether a field holds a color.
pub open spec fn spec_is_color_field(f: Field) -> bool {
    !(f == Field::DarkMode || f == Field::UiFont || f == Field::UiFontSize || f == Field::GuideFont
        || f == Field::GuideFontSize)
}

/// The color that a color field holds; `None` for the other fields.
pub open spec fn spec_color_of(s: Stylesheet, f: Field) -> Option<Color> {
    match f {
        Field::HighlightColor => Some(s.highlight_color),
        Field::ForegroundColor => Some(s.foreground_color),
        Field::BackgroundColor => Some(s.background_color),
        Field::DisabledColor => Some(s.disabled_color),
        Field::ButtonAColor => Some(s.button_a_color),
        Field::ButtonBColor => Some(s.button_b_color),
        Field::ButtonXColor => Some(s.button_x_color),
        Field::ButtonYColor => Some(s.button_y_color),
        _ => None,
    }
}

/// The stylesheet with color field `f` set to `c`.
pub open spec fn spec_with_color(s: Stylesheet, f: Field, c: Color) -> Stylesheet {
    match f {
        Field::HighlightColor => Stylesheet { highlight_color: c, ..s },
        Field::ForegroundColor => Stylesheet { foreground_color: c, ..s },
        Field::BackgroundColor => Stylesheet { background_color: c, ..s },
        Field::DisabledColor => Stylesheet { disabled_color: c, ..s },
        Field::ButtonAColor => Stylesheet { button_a_color: c, ..s },
        Field::ButtonBColor => Stylesheet { button_b_color: c, ..s },
        Field::ButtonXColor => Stylesheet { button_x_color: c, ..s },
        Field::ButtonYColor => Stylesheet { button_y_color: c, ..s },
        _ => s,
    }
}

/// Whether `ValueChanged(i, v)` fits the row table, with `n` fonts on offer:
/// a flag for the dark mode row, a font index for a font row, a number for a
/// size row, a color for a color row.
pub open spec fn spec_admissible(i: int, v: Value, n: nat) -> bool {
    match (spec_field_of_row(i), v) {
        (Some(Field::DarkMode), Value::Bool(_)) => true,
        (Some(Field::UiFont), Value::Int(x)) => 0 <= x < n,
        (Some(Field::GuideFont), Value::Int(x)) => 0 <= x < n,
        (Some(Field::UiFontSize), Value::Int(_)) => true,
        (Some(Field::GuideFontSize), Value::Int(_)) => true,
        (Some(f), Value::Color(_)) => spec_is_color_field(f),
        _ => false,
    }
}

/// The stylesheet with both foreground and background inverted.
pub open spec fn spec_invert_scheme(s: Stylesheet) -> Stylesheet {
    Stylesheet {
        foreground_color: spec_invert(s.foreground_color),
        background_color: spec_invert(s.background_color),
        ..s
    }
}

/// The stylesheet after `ValueChanged(i, v)`; `None` when nothing changes.
///
/// The dark mode row changes nothing when `v` already says whether the
/// background is dark; otherwise it inverts foreground and background. Every
/// other row sets its field.
pub open spec fn spec_apply(s: Stylesheet, fonts: Seq<String>, i: int, v: Value) -> Option<
    Stylesheet,
> {
    match (spec_field_of_row(i), v) {
        (Some(Field::DarkMode), Value::Bool(b)) => if b == spec_is_dark(s.background_color) {
            None
        } else {
            Some(spec_invert_scheme(s))
        },
        (Some(Field::UiFont), Value::Int(x)) => Some(
            Stylesheet { ui_font: FontSpec { path: fonts[x as int], ..s.ui_font }, ..s },
        ),
        (Some(Field::GuideFont), Value::Int(x)) => Some(
            Stylesheet { guide_font: FontSpec { path: fonts[x as int], ..s.guide_font }, ..s },
        ),
        (Some(Field::UiFontSize), Value::Int(x)) => Some(
            Stylesheet { ui_font: FontSpec { size: x as u32, ..s.ui_font }, ..s },
        ),
        (Some(Field::GuideFontSize), Value::Int(x)) => Some(
            Stylesheet { guide_font: FontSpec { size: x as u32, ..s.guide_font }, ..s },
        ),
        (Some(f), Value::Color(c)) => if spec_is_color_field(f) {
            Some(spec_with_color(s, f, c))
        } else {
            None
        },
        _ => None,
    }
}

/// Whether field `i` of `s` holds `v`. For the dark mode row: whether the
/// background is dark exactly when `v` is true.
pub open spec fn spec_field_holds(s: Stylesheet, fonts: Seq<String>, i: int, v: Value) -> bool {
    match (spec_field_of_row(i), v) {
        (Some(Field::DarkMode), Value::Bool(b)) => spec_is_dark(s.background_color) == b,
        (Some(Field::UiFont), Value::Int(x)) => s.ui_font.path == fonts[x as int],
        (Some(Field::GuideFont), Value::Int(x)) => s.guide_font.path == fonts[x as int],
        (Some(Field::UiFontSize), Value::Int(x)) => s.ui_font.size == x as u32,
        (Some(Field::GuideFontSize), Value::Int(x)) => s.guide_font.size == x as u32,
        (Some(f), Value::Color(c)) => spec_color_of(s, f) == Some(c),
        _ => false,
    }
}

pub fn field_of_row(i: usize) -> (f: Option<Field>)
    ensures
        f == spec_field_of_row(i as int),
{
    if i == 0 {
        Some(Field::DarkMode)
    } else if i == 1 {
        Some(Field::UiFont)
    } else if i == 2 {
        Some(Field::UiFontSize)
    } else if i == 3 {
        Some(Field::GuideFont)
    } else if i == 4 {
        Some(Field::GuideFontSize)
    } else if i == 5 {
        Some(Field::HighlightColor)
    } else if i == 6 {
        Some(Field::ForegroundColor)
    } else if i == 7 {
        Some(Field::BackgroundColor)
    } else if i == 8 {
        Some(Field::DisabledColor)
    } else if i == 9 {
        Some(Field::ButtonAColor)
    } else if i == 10 {
        Some(Field::ButtonBColor)
    } else if i == 11 {
        Some(Field::ButtonXColor)
    } else if i == 12 {
        Some(Field::ButtonYColor)
    } else {
        None
    }
}

/// The label of a field's row.
pub open spec fn spec_field_label(f: Field) -> Seq<char> {
    match f {
        Field::DarkMode => "Dark Mode"@,
        Field::UiFont => "UI Font"@,
        Field::UiFontSize => "UI Font Size"@,
        Field::GuideFont => "Guide Font"@,
        Field::GuideFontSize => "Guide Font Size"@,
        Field::HighlightColor => "Highlight Color"@,
        Field::ForegroundColor => "Foreground Color"@,
        Field::BackgroundColor => "Background Color"@,
        Field::DisabledColor => "Disabled Color"@,
        Field::ButtonAColor => "Button A Color"@,
        Field::ButtonBColor => "Button B Color"@,
        Field::ButtonXColor => "Button X Color"@,
        Field::ButtonYColor => "Button Y Color"@,
    }
}

impl Field {
    /// The label of the field's row.
    pub fn label(&self) -> (r: &'static str)
        ensures
            r@ == spec_field_label(*self),
    {
        match self {
            Field::DarkMode => "Dark Mode",
            Field::UiFont => "UI Font",
            Field::UiFontSize => "UI Font Size",
            Field::GuideFont => "Guide Font",
            Field::GuideFontSize => "Guide Font Size",
            Field::HighlightColor => "Highlight Color",
            Field::ForegroundColor => "Foreground Color",
            Field::BackgroundColor => "Background Color",
            Field::DisabledColor => "Disabled Color",
            Field::ButtonAColor => "Button A Color",
            Field::ButtonBColor => "Button B Color",
            Field::ButtonXColor => "Button X Color",
            Field::ButtonYColor => "Button Y Color",
        }
    }
}

/// The color that color field `f` holds.
pub fn color_of(s: &Stylesheet, f: Field) -> (c: Option<Color>)
    ensures
        c == spec_color_of(*s, f),
{
    match f {
        Field::HighlightColor => Some(s.highlight_color),
        Field::ForegroundColor => Some(s.foreground_color),
        Field::BackgroundColor => Some(s.background_color),
        Field::DisabledColor => Some(s.disabled_color),
        Field::ButtonAColor => Some(s.button_a_color),
        Field::ButtonBColor => Some(s.button_b_color),
        Field::ButtonXColor => Some(s.button_x_color),
        Field::ButtonYColor => Some(s.button_y_color),
        _ => None,
    }
}

/// Sets color field `f` of `s` to `c`.
pub fn set_color(s: &mut Stylesheet, f: Field, c: Color)
    ensures
        *final(s) == spec_with_color(*old(s), f, c),
{
    match f {
        Field::HighlightColor => s.highlight_color = c,
        Field::ForegroundColor => s.foreground_color = c,
        Field::BackgroundColor => s.background_color = c,
        Field::DisabledColor => s.disabled_color = c,
        Field::ButtonAColor => s.button_a_color = c,
        Field::ButtonBColor => s.button_b_color = c,
        Field::ButtonXColor => s.button_x_color = c,
        Field::ButtonYColor => s.button_y_color = c,
        _ => {},
    }
}

} // verus!

verus! {

/// Setting dark mode to what the background already is changes nothing.
pub proof fn lemma_dark_mode_agreeing_is_noop(s: Stylesheet, fonts: Seq<String>)
    ensures
        spec_apply(
            s,
            fonts,
            DARK_MODE_ROW as int,
            Value::Bool(spec_is_dark(s.background_color)),
        ) is None,
{
}

/// Setting dark mode against the background inverts foreground and
/// background once; setting it back then restores the stylesheet exactly.
pub proof fn lemma_dark_mode_round_trip(s: Stylesheet, fonts: Seq<String>, b: bool)
    requires
        b != spec_is_dark(s.background_color),
    ensures
        spec_apply(s, fonts, DARK_MODE_ROW as int, Value::Bool(b)) == Some(spec_invert_scheme(s)),
        spec_is_dark(spec_invert_scheme(s).background_color) == b,
        spec_apply(spec_invert_scheme(s), fonts, DARK_MODE_ROW as int, Value::Bool(!b)) == Some(s),
{
    crate::color::lemma_invert_flips_darkness(s.background_color);
    crate::color::lemma_invert_involutive(s.foreground_color);
    crate::color::lemma_invert_involutive(s.background_color);
    assert(spec_invert_scheme(spec_invert_scheme(s)) == s);
}

/// A change that fits the row table leaves its field holding the new value,
/// and it changes the stylesheet unless it sets dark mode to what the
/// background already is.
pub proof fn lemma_change_lands(s: Stylesheet, fonts: Seq<String>, i: int, v: Value)
    requires
        spec_admissible(i, v, fonts.len()),
    ensures
        match spec_apply(s, fonts, i, v) {
            Some(s2) => spec_field_holds(s2, fonts, i, v),
            None => i == DARK_MODE_ROW && spec_field_holds(s, fonts, i, v),
        },
        i != DARK_MODE_ROW ==> spec_apply(s, fonts, i, v) is Some,
{
    crate::color::lemma_invert_flips_darkness(s.background_color);
}

} // verus!
