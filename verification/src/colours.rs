//! Colours: an RGB triple, parsing from `#RRGGBB` hex strings, and the
//! black-or-white contrasting foreground rule.

use vstd::prelude::*;
use vstd::string::{StrSliceExecFns, StringExecFns};
use crate::decimal::{decimal_string, spec_decimal};

verus! {

/// An RGB colour with three 8-bit channels.
#[derive(Clone, Copy, PartialEq, Eq, Structural, Debug)]
pub struct Rgb(pub u8, pub u8, pub u8);

/// Error returned when a string is not `#` followed by six hex digits.
#[derive(Clone, Copy, PartialEq, Eq, Structural, Debug)]
pub struct ParseRgbError;

/// A colour together with the CSS role it plays.
#[derive(Clone, Copy, PartialEq, Eq, Structural, Debug)]
pub enum Colour {
    Colour(Rgb),
    BgColour(Rgb),
}

/// The numeric value of a hex digit, in either case; `-1` for any other character.
pub open spec fn hex_digit_value(c: char) -> int {
    if '0' as int <= c as int && c as int <= '9' as int {
        c as int - '0' as int
    } else if 'a' as int <= c as int && c as int <= 'f' as int {
        c as int - 'a' as int + 10
    } else if 'A' as int <= c as int && c as int <= 'F' as int {
        c as int - 'A' as int + 10
    } else {
        -1
    }
}

pub open spec fn is_hex_digit(c: char) -> bool {
    hex_digit_value(c) >= 0
}

/// The channel encoded by two hex digits.
pub open spec fn hex_pair_value(hi: char, lo: char) -> int {
    hex_digit_value(hi) * 16 + hex_digit_value(lo)
}

/// What parsing a colour string yields: `Some` exactly for `#` plus six hex digits.
pub open spec fn spec_parse_rgb(s: Seq<char>) -> Option<Rgb> {
    if s.len() == 7 && s[0] == '#' && is_hex_digit(s[1]) && is_hex_digit(s[2])
        && is_hex_digit(s[3]) && is_hex_digit(s[4]) && is_hex_digit(s[5])
        && is_hex_digit(s[6]) {
        Some(Rgb(
            hex_pair_value(s[1], s[2]) as u8,
            hex_pair_value(s[3], s[4]) as u8,
            hex_pair_value(s[5], s[6]) as u8,
        ))
    } else {
        None
    }
}

/// Decode one hex digit character.
fn hex_digit(c: char) -> (r: Option<u8>)
    ensures
        match r {
            Some(v) => is_hex_digit(c) && v == hex_digit_value(c),
            None => !is_hex_digit(c),
        },
{
    let n = c as u32;
    if 48 <= n && n <= 57 {
        Some((n - 48) as u8)
    } else if 97 <= n && n <= 102 {
        Some((n - 97 + 10) as u8)
    } else if 65 <= n && n <= 70 {
        Some((n - 65 + 10) as u8)
    } else {
        None
    }
}

impl Rgb {
    /// Parse a `#RRGGBB` string; anything else fails with `ParseRgbError`.
    pub fn from_str(s: &str) -> (r: Result<Rgb, ParseRgbError>)
        ensures
            match r {
                Ok(c) => spec_parse_rgb(s@) == Some(c),
                Err(_) => spec_parse_rgb(s@) is None,
            },
    {
        let n = s.unicode_len();
        if n != 7 {
            return Err(ParseRgbError);
        }
        if s.get_char(0) != '#' {
            return Err(ParseRgbError);
        }
        let d1 = hex_digit(s.get_char(1));
        let d2 = hex_digit(s.get_char(2));
        let d3 = hex_digit(s.get_char(3));
        let d4 = hex_digit(s.get_char(4));
        let d5 = hex_digit(s.get_char(5));
        let d6 = hex_digit(s.get_char(6));
        match (d1, d2, d3, d4, d5, d6) {
            (Some(v1), Some(v2), Some(v3), Some(v4), Some(v5), Some(v6)) => {
                Ok(Rgb(v1 * 16 + v2, v3 * 16 + v4, v5 * 16 + v6))
            },
            _ => Err(ParseRgbError),
        }
    }
}

/// The lowercase character for one hex digit value.
pub open spec fn spec_hex_digit_char(v: int) -> char {
    if v < 10 {
        crate::decimal::spec_decimal_digit(v)
    } else if v == 10 {
        'a'
    } else if v == 11 {
        'b'
    } else if v == 12 {
        'c'
    } else if v == 13 {
        'd'
    } else if v == 14 {
        'e'
    } else {
        'f'
    }
}

/// The canonical (lowercase) `#RRGGBB` rendering of a colour.
pub open spec fn spec_rgb_hex(c: Rgb) -> Seq<char> {
    seq![
        '#',
        spec_hex_digit_char(c.0 as int / 16),
        spec_hex_digit_char(c.0 as int % 16),
        spec_hex_digit_char(c.1 as int / 16),
        spec_hex_digit_char(c.1 as int % 16),
        spec_hex_digit_char(c.2 as int / 16),
        spec_hex_digit_char(c.2 as int % 16),
    ]
}

/// One hex digit value as a lowercase string slice.
fn hex_digit_str(d: u8) -> (r: &'static str)
    requires
        d < 16,
    ensures
        r@ == seq![spec_hex_digit_char(d as int)],
{
    if d < 10 {
        crate::decimal::decimal_digit_str(d)
    } else if d == 10 {
        proof {
            reveal_strlit("a");
            assert("a"@ =~= seq![spec_hex_digit_char(10)]);
        }
        "a"
    } else if d == 11 {
        proof {
            reveal_strlit("b");
            assert("b"@ =~= seq![spec_hex_digit_char(11)]);
        }
        "b"
    } else if d == 12 {
        proof {
            reveal_strlit("c");
            assert("c"@ =~= seq![spec_hex_digit_char(12)]);
        }
        "c"
    } else if d == 13 {
        proof {
            reveal_strlit("d");
            assert("d"@ =~= seq![spec_hex_digit_char(13)]);
        }
        "d"
    } else if d == 14 {
        proof {
            reveal_strlit("e");
            assert("e"@ =~= seq![spec_hex_digit_char(14)]);
        }
        "e"
    } else {
        proof {
            reveal_strlit("f");
            assert("f"@ =~= seq![spec_hex_digit_char(15)]);
        }
        "f"
    }
}

impl Rgb {
    /// Render the colour as a lowercase `#RRGGBB` string.
    pub fn to_hex(&self) -> (s: String)
        ensures
            s@ == spec_rgb_hex(*self),
    {
        let mut s = String::new();
        proof {
            reveal_strlit("#");
            assert("#"@ =~= seq!['#']);
        }
        s.append("#");
        let Rgb(cr, cg, cb) = *self;
        s.append(hex_digit_str(cr / 16));
        s.append(hex_digit_str(cr % 16));
        s.append(hex_digit_str(cg / 16));
        s.append(hex_digit_str(cg % 16));
        s.append(hex_digit_str(cb / 16));
        s.append(hex_digit_str(cb % 16));
        proof {
            assert(s@ =~= spec_rgb_hex(*self));
        }
        s
    }
}

/// The decimal channel triple inside a CSS `rgb(...)` call.
pub open spec fn spec_rgb_args(c: Rgb) -> Seq<char> {
    spec_decimal(c.0 as nat) + ", "@ + spec_decimal(c.1 as nat) + ", "@ + spec_decimal(c.2 as nat)
}

/// The CSS declaration a colour renders to.
pub open spec fn spec_css(c: Colour) -> Seq<char> {
    match c {
        Colour::Colour(rgb) => "color: rgb("@ + spec_rgb_args(rgb) + ");"@,
        Colour::BgColour(rgb) => "background-color: rgb("@ + spec_rgb_args(rgb) + ");"@,
    }
}

/// Append `r, g, b` in decimal.
fn append_rgb_args(s: &mut String, rgb: Rgb)
    ensures
        final(s)@ == old(s)@ + spec_rgb_args(rgb),
{
    let d0 = decimal_string(rgb.0 as u128);
    s.append(d0.as_str());
    s.append(", ");
    let d1 = decimal_string(rgb.1 as u128);
    s.append(d1.as_str());
    s.append(", ");
    let d2 = decimal_string(rgb.2 as u128);
    s.append(d2.as_str());
    proof {
        assert(s@ =~= old(s)@ + spec_rgb_args(rgb));
    }
}

impl Colour {
    /// Render the CSS declaration: `color: rgb(r, g, b);`, or the
    /// `background-color` form.
    pub fn to_css_string(&self) -> (s: String)
        ensures
            s@ == spec_css(*self),
    {
        match self {
            Colour::Colour(rgb) => {
                let mut s = String::from_str("color: rgb(");
                append_rgb_args(&mut s, *rgb);
                s.append(");");
                proof {
                    assert(s@ =~= spec_css(*self));
                }
                s
            },
            Colour::BgColour(rgb) => {
                let mut s = String::from_str("background-color: rgb(");
                append_rgb_args(&mut s, *rgb);
                s.append(");");
                proof {
                    assert(s@ =~= spec_css(*self));
                }
                s
            },
        }
    }
}

/// Hex letters folded to lowercase; all other characters unchanged.
pub open spec fn lower_hex_char(c: char) -> char {
    if c == 'A' {
        'a'
    } else if c == 'B' {
        'b'
    } else if c == 'C' {
        'c'
    } else if c == 'D' {
        'd'
    } else if c == 'E' {
        'e'
    } else if c == 'F' {
        'f'
    } else {
        c
    }
}

/// A hex digit renders back to its own lowercase form.
proof fn lemma_hex_digit_round_trip(c: char)
    requires
        is_hex_digit(c),
    ensures
        spec_hex_digit_char(hex_digit_value(c)) == lower_hex_char(c),
{
}

/// Case-insensitive round trip: rendering a parsed colour gives the
/// original string with its hex letters folded to lowercase.
pub proof fn lemma_hex_round_trip(s: Seq<char>)
    requires
        spec_parse_rgb(s) is Some,
    ensures
        spec_rgb_hex(spec_parse_rgb(s).unwrap()) == s.map_values(|c: char| lower_hex_char(c)),
{
    let c = spec_parse_rgb(s).unwrap();
    lemma_hex_digit_round_trip(s[1]);
    lemma_hex_digit_round_trip(s[2]);
    lemma_hex_digit_round_trip(s[3]);
    lemma_hex_digit_round_trip(s[4]);
    lemma_hex_digit_round_trip(s[5]);
    lemma_hex_digit_round_trip(s[6]);
    assert(c.0 as int / 16 == hex_digit_value(s[1]) && c.0 as int % 16 == hex_digit_value(s[2]));
    assert(c.1 as int / 16 == hex_digit_value(s[3]) && c.1 as int % 16 == hex_digit_value(s[4]));
    assert(c.2 as int / 16 == hex_digit_value(s[5]) && c.2 as int % 16 == hex_digit_value(s[6]));
    assert(spec_rgb_hex(c) =~= s.map_values(|ch: char| lower_hex_char(ch)));
}

/// Rendering any colour and parsing it back yields the colour itself.
pub proof fn lemma_hex_format_parse(c: Rgb)
    ensures
        spec_parse_rgb(spec_rgb_hex(c)) == Some(c),
{
    let s = spec_rgb_hex(c);
    assert(s.len() == 7 && s[0] == '#');
    assert(hex_digit_value(s[1]) == c.0 as int / 16 && hex_digit_value(s[2]) == c.0 as int % 16);
    assert(hex_digit_value(s[3]) == c.1 as int / 16 && hex_digit_value(s[4]) == c.1 as int % 16);
    assert(hex_digit_value(s[5]) == c.2 as int / 16 && hex_digit_value(s[6]) == c.2 as int % 16);
}

/// The readable foreground for a background colour: black on light
/// backgrounds (channel sum at least 382), white otherwise.
pub open spec fn spec_text_colour_from_bg(bg: Rgb) -> Colour {
    if bg.0 + bg.1 + bg.2 >= 255 * 3 / 2 {
        Colour::Colour(Rgb(0, 0, 0))
    } else {
        Colour::Colour(Rgb(255, 255, 255))
    }
}

pub fn text_colour_from_bg(bg: Rgb) -> (r: Colour)
    ensures
        r == spec_text_colour_from_bg(bg),
{
    let Rgb(cr, cg, cb) = bg;
    if (cr as u16) + (cg as u16) + (cb as u16) >= 255 * 3 / 2 {
        Colour::Colour(Rgb(0, 0, 0))
    } else {
        Colour::Colour(Rgb(255, 255, 255))
    }
}

} // verus!
