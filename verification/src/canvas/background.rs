use vstd::prelude::*;

use crate::text::str_eq;

verus! {

/// The key under which a rendered background is cached: quantised spacing
/// and phase, canvas size, theme and pattern.
#[derive(PartialEq, Eq, Structural, Clone, Copy, Debug)]
pub struct BackgroundCacheKey {
    pub spacing_q: u32,
    pub phase_x_q: u32,
    pub phase_y_q: u32,
    pub width: u32,
    pub height: u32,
    pub dark_mode: bool,
    pub variant: u8,
}

/// The pattern drawn behind the document.
#[derive(PartialEq, Eq, Structural, Clone, Copy, Debug)]
pub enum BackgroundKind {
    Blank,
    Dots,
    Grid,
}

/// The pattern that follows `k` in the cycle Blank → Dots → Grid → Blank.
pub open spec fn next_kind(k: BackgroundKind) -> BackgroundKind {
    match k {
        BackgroundKind::Blank => BackgroundKind::Dots,
        BackgroundKind::Dots => BackgroundKind::Grid,
        BackgroundKind::Grid => BackgroundKind::Blank,
    }
}

/// The names of the patterns.
pub open spec fn is_kind_name(name: Seq<char>) -> bool {
    name == "dots"@ || name == "grid"@ || name == "none"@
}

/// The pattern a name stands for.
pub open spec fn kind_of_name(name: Seq<char>) -> BackgroundKind {
    if name == "dots"@ {
        BackgroundKind::Dots
    } else if name == "grid"@ {
        BackgroundKind::Grid
    } else {
        BackgroundKind::Blank
    }
}

impl BackgroundKind {
    pub fn next(self) -> (r: Self)
        ensures
            r == next_kind(self),
    {
        match self {
            BackgroundKind::Blank => BackgroundKind::Dots,
            BackgroundKind::Dots => BackgroundKind::Grid,
            BackgroundKind::Grid => BackgroundKind::Blank,
        }
    }

    /// The pattern named `name`: "dots", "grid" or "none".
    pub fn from_name(name: &str) -> (r: Self)
        requires
            is_kind_name(name@),
        ensures
            r == kind_of_name(name@),
    {
        if str_eq(name, "dots") {
            BackgroundKind::Dots
        } else if str_eq(name, "grid") {
            BackgroundKind::Grid
        } else {
            BackgroundKind::Blank
        }
    }
}

/// Stepping to the next pattern three times comes back to where it started.
pub proof fn law_next_cycles(k: BackgroundKind)
    ensures
        next_kind(next_kind(next_kind(k))) == k,
        next_kind(k) != k,
{
}

} // verus!
