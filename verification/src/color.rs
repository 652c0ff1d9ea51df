//! The semantic colors a caller can ask for.

use vstd::prelude::*;

verus! {

/// A semantic color intent, such as "error red" or "inverted text",
/// independent of how the terminal renders it.
#[derive(Clone, Copy, Debug, PartialEq, Eq, Structural)]
pub enum Color {
    Reset,
    Red,
    Green,
    Gray,
    Yellow,
    Orange,
    Blue,
    Purple,
    Cyan,
    RedBg,
    YellowBg,
    OrangeBg,
    NonText,
    Invert,
}

impl Color {
    /// Whether this color fills the background behind the text, a property
    /// callers use for layout and padding decisions.
    pub open spec fn is_background(self) -> bool {
        self is RedBg || self is YellowBg || self is OrangeBg
    }

    /// True exactly for the three background-fill variants, in every
    /// capability tier alike: the property does not depend on how the
    /// color is later rendered.
    pub fn has_bg_color(self) -> (r: bool)
        ensures
            r == self.is_background(),
    {
        matches!(self, Color::YellowBg | Color::RedBg | Color::OrangeBg)
    }
}

} // verus!
