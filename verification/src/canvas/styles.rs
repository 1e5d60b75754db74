use vstd::prelude::*;

use crate::canvas::background::BackgroundKind;

verus! {

/// The colours of the board in the current theme.
pub struct ChalkStyles<'a> {
    /// The background color of the chalkboard
    pub canvas_color: &'a str,
    /// The colour of the background pattern.
    pub canvas_bg_color: &'a str,
    /// The background pattern.
    pub canvas_bg: BackgroundKind,
    /// Whether the theme is the dark one.
    pub is_dark: bool,
}

/// The value of a theme: its colours by their characters.
pub struct StylesModel {
    pub canvas_color: Seq<char>,
    pub canvas_bg_color: Seq<char>,
    pub canvas_bg: BackgroundKind,
    pub is_dark: bool,
}

impl<'a> View for ChalkStyles<'a> {
    type V = StylesModel;

    open spec fn view(&self) -> StylesModel {
        StylesModel {
            canvas_color: self.canvas_color@,
            canvas_bg_color: self.canvas_bg_color@,
            canvas_bg: self.canvas_bg,
            is_dark: self.is_dark,
        }
    }
}

/// The light theme (or the dark one) with the pattern `bg`.
pub open spec fn theme(dark: bool, bg: BackgroundKind) -> StylesModel {
    if dark {
        StylesModel {
            canvas_color: "#F2F0EF"@,
            canvas_bg_color: "rgba(26,26,24,0.20)"@,
            canvas_bg: bg,
            is_dark: true,
        }
    } else {
        StylesModel {
            canvas_color: "#1A1A18"@,
            canvas_bg_color: "rgba(242,240,239,0.25)"@,
            canvas_bg: bg,
            is_dark: false,
        }
    }
}

/// The theme a toggle switches to: the other one, with the same pattern.
pub open spec fn toggled(m: StylesModel) -> StylesModel {
    theme(!m.is_dark, m.canvas_bg)
}

impl ChalkStyles<'_> {
    pub fn light() -> (r: Self)
        ensures
            r@ == theme(false, BackgroundKind::Blank),
    {
        ChalkStyles {
            canvas_color: "#1A1A18",
            canvas_bg_color: "rgba(242,240,239,0.25)",
            canvas_bg: BackgroundKind::Blank,
            is_dark: false,
        }
    }

    pub fn dark() -> (r: Self)
        ensures
            r@ == theme(true, BackgroundKind::Blank),
    {
        ChalkStyles {
            canvas_color: "#F2F0EF",
            canvas_bg_color: "rgba(26,26,24,0.20)",
            canvas_bg: BackgroundKind::Blank,
            is_dark: true,
        }
    }

    /// Switches to the other theme, keeping the background pattern.
    pub fn toggle(&mut self)
        ensures
            final(self)@ == toggled(old(self)@),
    {
        let mut new = if self.is_dark {
            Self::light()
        } else {
            Self::dark()
        };
        new.canvas_bg = self.canvas_bg;
        *self = new;
    }

    pub fn get_bg(&self) -> (r: &str)
        ensures
            r@ == self.canvas_color@,
    {
        self.canvas_color
    }

    pub fn is_dark(&self) -> (r: bool)
        ensures
            r == self.is_dark,
    {
        self.is_dark
    }

    pub fn is_light(&self) -> (r: bool)
        ensures
            r == !self.is_dark,
    {
        !self.is_dark
    }

    pub fn get_canvas_bg_color(&self) -> (r: &str)
        ensures
            r@ == self.canvas_bg_color@,
    {
        self.canvas_bg_color
    }
}

/// Toggling a theme twice gives it back, and each toggle flips between the
/// light and the dark theme while the background pattern stays.
pub proof fn law_toggle_twice(m: StylesModel)
    requires
        m == theme(m.is_dark, m.canvas_bg),
    ensures
        toggled(toggled(m)) == m,
        toggled(m).is_dark == !m.is_dark,
        toggled(m).canvas_bg == m.canvas_bg,
{
}

} // verus!
