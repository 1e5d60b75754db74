use vstd::prelude::*;

verus! {

/// The page icon for a dark or a light colour scheme.
pub open spec fn favicon_path(prefers_dark: bool) -> Seq<char> {
    if prefers_dark {
        "public/icons/chalkboard-dark.svg"@
    } else {
        "public/icons/chalkboard-light.svg"@
    }
}

/// The page icon to show, given whether the user prefers a dark colour scheme.
pub fn favicon_for(prefers_dark: bool) -> (r: &'static str)
    ensures
        r@ == favicon_path(prefers_dark),
{
    if prefers_dark {
        "public/icons/chalkboard-dark.svg"
    } else {
        "public/icons/chalkboard-light.svg"
    }
}

} // verus!
