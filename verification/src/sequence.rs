//! The three escape-sequence tables, one per capability tier.
//!
//! Every tier maps the same closed set of semantic colors to a fixed byte
//! sequence; the palette is the same well-known retro scheme in all three,
//! approximated at lower precision in the indexed tiers. The spec
//! functions state each table entry exactly, directive by directive, and
//! the exec functions are proved to emit those bytes.

use vstd::prelude::*;

use crate::capability::TermColor;
use crate::color::Color;
use crate::sgr::{bg_indexed, bg_rgb, fg_indexed, fg_rgb, sgr1, sgr2};
use crate::sgr::{push_bg_indexed, push_bg_rgb, push_fg_indexed, push_fg_rgb, push_sgr1,
    push_sgr2};

verus! {

/// The 24-bit table: each color is rendered from the palette's literal
/// RGB triples. `Reset` clears attributes and then repaints the palette's
/// baseline foreground and background; the background variants pair a
/// contrasting readable foreground with the background fill, foreground
/// first.
pub open spec fn true_colors_spec(color: Color) -> Seq<u8> {
    match color {
        Color::Reset => sgr2(39, 0) + fg_rgb(251, 241, 199) + bg_rgb(40, 40, 40),
        Color::Red => fg_rgb(251, 73, 52),
        Color::Green => fg_rgb(184, 187, 38),
        Color::Gray => fg_rgb(168, 153, 132),
        Color::Yellow => fg_rgb(250, 189, 47),
        Color::Orange => fg_rgb(254, 128, 25),
        Color::Blue => fg_rgb(131, 165, 152),
        Color::Purple => fg_rgb(211, 134, 155),
        Color::Cyan => fg_rgb(142, 192, 124),
        Color::RedBg => fg_rgb(251, 241, 199) + bg_rgb(204, 36, 29),
        Color::YellowBg => fg_rgb(40, 40, 40) + bg_rgb(215, 153, 33),
        Color::OrangeBg => fg_rgb(40, 40, 40) + bg_rgb(214, 93, 14),
        Color::NonText => fg_rgb(102, 92, 84),
        Color::Invert => sgr1(7),
    }
}

/// The 256-color table: the same palette through hand-chosen nearest
/// indexed approximations of the RGB triples.
pub open spec fn colors_256_spec(color: Color) -> Seq<u8> {
    match color {
        Color::Reset => sgr2(39, 0) + fg_indexed(230) + bg_indexed(235),
        Color::Red => fg_indexed(167),
        Color::Green => fg_indexed(142),
        Color::Gray => fg_indexed(246),
        Color::Yellow => fg_indexed(214),
        Color::Orange => fg_indexed(208),
        Color::Blue => fg_indexed(109),
        Color::Purple => fg_indexed(175),
        Color::Cyan => fg_indexed(108),
        Color::RedBg => fg_indexed(230) + bg_indexed(124),
        Color::YellowBg => fg_indexed(235) + bg_indexed(214),
        Color::OrangeBg => fg_indexed(235) + bg_indexed(166),
        Color::NonText => fg_indexed(241),
        Color::Invert => sgr1(7),
    }
}

/// The 16-color ANSI table. Some distinctions collapse: there is no
/// orange, so the foreground falls back to the darker yellow, and the
/// orange background falls back to a white background with black text.
pub open spec fn colors_16_spec(color: Color) -> Seq<u8> {
    match color {
        Color::Reset => sgr2(39, 0),
        Color::Red => sgr1(91),
        Color::Green => sgr1(32),
        Color::Gray => sgr1(90),
        Color::Yellow => sgr1(93),
        Color::Orange => sgr1(33),
        Color::Blue => sgr1(94),
        Color::Purple => sgr1(95),
        Color::Cyan => sgr1(96),
        Color::RedBg => sgr1(97) + sgr1(41),
        Color::YellowBg => sgr1(103) + sgr1(30),
        Color::OrangeBg => sgr1(107) + sgr1(30),
        Color::NonText => sgr1(37),
        Color::Invert => sgr1(7),
    }
}

/// Emits the 24-bit escape sequence for `color`.
pub fn true_colors_sequence(color: Color) -> (out: Vec<u8>)
    ensures
        out@ == true_colors_spec(color),
{
    let mut out: Vec<u8> = Vec::new();
    match color {
        Color::Reset => {
            push_sgr2(&mut out, 39, 0);
            push_fg_rgb(&mut out, 251, 241, 199);
            push_bg_rgb(&mut out, 40, 40, 40);
        },
        Color::Red => push_fg_rgb(&mut out, 251, 73, 52),
        Color::Green => push_fg_rgb(&mut out, 184, 187, 38),
        Color::Gray => push_fg_rgb(&mut out, 168, 153, 132),
        Color::Yellow => push_fg_rgb(&mut out, 250, 189, 47),
        Color::Orange => push_fg_rgb(&mut out, 254, 128, 25),
        Color::Blue => push_fg_rgb(&mut out, 131, 165, 152),
        Color::Purple => push_fg_rgb(&mut out, 211, 134, 155),
        Color::Cyan => push_fg_rgb(&mut out, 142, 192, 124),
        Color::RedBg => {
            push_fg_rgb(&mut out, 251, 241, 199);
            push_bg_rgb(&mut out, 204, 36, 29);
        },
        Color::YellowBg => {
            push_fg_rgb(&mut out, 40, 40, 40);
            push_bg_rgb(&mut out, 215, 153, 33);
        },
        Color::OrangeBg => {
            push_fg_rgb(&mut out, 40, 40, 40);
            push_bg_rgb(&mut out, 214, 93, 14);
        },
        Color::NonText => push_fg_rgb(&mut out, 102, 92, 84),
        Color::Invert => push_sgr1(&mut out, 7),
    }
    proof {
        assert(out@ =~= true_colors_spec(color));
    }
    out
}

/// Emits the 256-color indexed escape sequence for `color`.
pub fn colors_256_sequence(color: Color) -> (out: Vec<u8>)
    ensures
        out@ == colors_256_spec(color),
{
    let mut out: Vec<u8> = Vec::new();
    match color {
        Color::Reset => {
            push_sgr2(&mut out, 39, 0);
            push_fg_indexed(&mut out, 230);
            push_bg_indexed(&mut out, 235);
        },
        Color::Red => push_fg_indexed(&mut out, 167),
        Color::Green => push_fg_indexed(&mut out, 142),
        Color::Gray => push_fg_indexed(&mut out, 246),
        Color::Yellow => push_fg_indexed(&mut out, 214),
        Color::Orange => push_fg_indexed(&mut out, 208),
        Color::Blue => push_fg_indexed(&mut out, 109),
        Color::Purple => push_fg_indexed(&mut out, 175),
        Color::Cyan => push_fg_indexed(&mut out, 108),
        Color::RedBg => {
            push_fg_indexed(&mut out, 230);
            push_bg_indexed(&mut out, 124);
        },
        Color::YellowBg => {
            push_fg_indexed(&mut out, 235);
            push_bg_indexed(&mut out, 214);
        },
        Color::OrangeBg => {
            push_fg_indexed(&mut out, 235);
            push_bg_indexed(&mut out, 166);
        },
        Color::NonText => push_fg_indexed(&mut out, 241),
        Color::Invert => push_sgr1(&mut out, 7),
    }
    proof {
        assert(out@ =~= colors_256_spec(color));
    }
    out
}

/// Emits the 16-color ANSI escape sequence for `color`.
pub fn colors_16_sequence(color: Color) -> (out: Vec<u8>)
    ensures
        out@ == colors_16_spec(color),
{
    let mut out: Vec<u8> = Vec::new();
    match color {
        Color::Reset => push_sgr2(&mut out, 39, 0),
        Color::Red => push_sgr1(&mut out, 91),
        Color::Green => push_sgr1(&mut out, 32),
        Color::Gray => push_sgr1(&mut out, 90),
        Color::Yellow => push_sgr1(&mut out, 93),
        Color::Orange => push_sgr1(&mut out, 33),
        Color::Blue => push_sgr1(&mut out, 94),
        Color::Purple => push_sgr1(&mut out, 95),
        Color::Cyan => push_sgr1(&mut out, 96),
        Color::RedBg => {
            push_sgr1(&mut out, 97);
            push_sgr1(&mut out, 41);
        },
        Color::YellowBg => {
            push_sgr1(&mut out, 103);
            push_sgr1(&mut out, 30);
        },
        Color::OrangeBg => {
            push_sgr1(&mut out, 107);
            push_sgr1(&mut out, 30);
        },
        Color::NonText => push_sgr1(&mut out, 37),
        Color::Invert => push_sgr1(&mut out, 7),
    }
    proof {
        assert(out@ =~= colors_16_spec(color));
    }
    out
}

impl TermColor {
    /// The exact bytes this tier emits for `color`: a total function of
    /// the pair, with an entry for every combination.
    pub open spec fn sequence_spec(self, color: Color) -> Seq<u8> {
        match self {
            TermColor::TrueColors => true_colors_spec(color),
            TermColor::Colors256 => colors_256_spec(color),
            TermColor::Colors16 => colors_16_spec(color),
        }
    }

    /// Emits the escape sequence for `color` at this capability tier.
    pub fn sequence(self, color: Color) -> (out: Vec<u8>)
        ensures
            out@ == self.sequence_spec(color),
    {
        match self {
            TermColor::TrueColors => true_colors_sequence(color),
            TermColor::Colors256 => colors_256_sequence(color),
            TermColor::Colors16 => colors_16_sequence(color),
        }
    }
}

} // verus!
