use vstd::prelude::*;

use crate::color::Color;

verus! {

/// A font choice: the font file and its point size.
#[derive(Clone, Debug, PartialEq, Eq)]
pub struct FontSpec {
    pub path: String,
    pub size: u32,
}

/// The visual configuration shared by every screen.
#[derive(Clone, Debug, PartialEq, Eq)]
pub struct Stylesheet {
    pub ui_font: FontSpec,
    pub guide_font: FontSpec,
    pub highlight_color: Color,
    pub foreground_color: Color,
    pub background_color: Color,
    pub disabled_color: Color,
    pub button_a_color: Color,
    pub button_b_color: Color,
    pub button_x_color: Color,
    pub button_y_color: Color,
}

impl FontSpec {
    pub fn snapshot(&self) -> (f: FontSpec)
        ensures
            f == *self,
    {
        FontSpec { path: self.path.clone(), size: self.size }
    }
}

impl Stylesheet {
    /// A copy of the whole configuration, as handed to persistence.
    pub fn snapshot(&self) -> (s: Stylesheet)
        ensures
            s == *self,
    {
        Stylesheet {
            ui_font: self.ui_font.snapshot(),
            guide_font: self.guide_font.snapshot(),
            highlight_color: self.highlight_color,
            foreground_color: self.foreground_color,
            background_color: self.background_color,
            disabled_color: self.disabled_color,
            button_a_color: self.button_a_color,
            button_b_color: self.button_b_color,
            button_x_color: self.button_x_color,
            button_y_color: self.button_y_color,
        }
    }
}

} // verus!
