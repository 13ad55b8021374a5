//! The readable-foreground rule and CSS styling for the capability-style
//! colour type.

use vstd::prelude::*;
use crate::system::colour::Colour;

verus! {

/// The readable foreground for a background colour: black on light
/// backgrounds (channel sum at least 382), white otherwise.
pub open spec fn spec_text_colour_from_bg(bg: Colour) -> Colour {
    match bg {
        Colour::Rgb(r, g, b) => if r + g + b >= 255 * 3 / 2 {
            Colour::Rgb(0, 0, 0)
        } else {
            Colour::Rgb(255, 255, 255)
        },
    }
}

pub fn text_colour_from_bg(bg: Colour) -> (r: Colour)
    ensures
        r == spec_text_colour_from_bg(bg),
{
    match bg {
        Colour::Rgb(cr, cg, cb) => {
            if (cr as u16) + (cg as u16) + (cb as u16) >= 255 * 3 / 2 {
                Colour::Rgb(0, 0, 0)
            } else {
                Colour::Rgb(255, 255, 255)
            }
        },
    }
}

/// Rendering a value as CSS colour declarations.
pub trait ToStyle {
    /// What the foreground declaration says.
    spec fn spec_color(&self) -> Seq<char>;

    /// What the background declaration says.
    spec fn spec_bg_color(&self) -> Seq<char>;

    fn to_color(&self) -> (s: String)
        ensures
            s@ == self.spec_color(),
    ;

    fn to_bg_color(&self) -> (s: String)
        ensures
            s@ == self.spec_bg_color(),
    ;
}

impl ToStyle for Colour {
    open spec fn spec_color(&self) -> Seq<char> {
        match *self {
            Colour::Rgb(r, g, b) => crate::colours::spec_css(
                crate::colours::Colour::Colour(crate::colours::Rgb(r, g, b)),
            ),
        }
    }

    open spec fn spec_bg_color(&self) -> Seq<char> {
        match *self {
            Colour::Rgb(r, g, b) => crate::colours::spec_css(
                crate::colours::Colour::BgColour(crate::colours::Rgb(r, g, b)),
            ),
        }
    }

    fn to_color(&self) -> (s: String) {
        match *self {
            Colour::Rgb(r, g, b) => crate::colours::Colour::Colour(
                crate::colours::Rgb(r, g, b),
            ).to_css_string(),
        }
    }

    fn to_bg_color(&self) -> (s: String) {
        match *self {
            Colour::Rgb(r, g, b) => crate::colours::Colour::BgColour(
                crate::colours::Rgb(r, g, b),
            ).to_css_string(),
        }
    }
}

} // verus!
