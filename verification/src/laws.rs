//! Properties that hold across the whole table, stated and proved once.

use vstd::prelude::*;

use crate::capability::TermColor;
use crate::color::Color;
use crate::sequence::{colors_16_spec, colors_256_spec, true_colors_spec};
use crate::sgr::{bg_indexed, bg_rgb, fg_indexed, fg_rgb, sgr1, sgr2};

verus! {

/// `prefix` is the start of `s`.
pub open spec fn starts_with(s: Seq<u8>, prefix: Seq<u8>) -> bool {
    prefix.len() <= s.len() && s.take(prefix.len() as int) == prefix
}

/// Every capability tier defines an escape sequence for every semantic
/// color, and that sequence is never empty. Because the emitted bytes are
/// the value of a spec function of the pair alone, equal inputs give
/// byte-identical output on every call.
pub proof fn lemma_sequence_nonempty(tier: TermColor, color: Color)
    ensures
        tier.sequence_spec(color).len() > 0,
{
}

/// Reverse video is tier-independent: every tier renders `Invert` as the
/// single standard reverse-video directive, so any two tiers agree on it.
pub proof fn lemma_invert_tier_independent(a: TermColor, b: TermColor)
    ensures
        a.sequence_spec(Color::Invert) == b.sequence_spec(Color::Invert),
        a.sequence_spec(Color::Invert) == sgr1(7),
{
}

/// Resetting never emits a bare attribute clear. In every tier the
/// `Reset` sequence starts with the combined directive `ESC [ 39 ; 0 m`,
/// which re-selects the default foreground (parameter 39) and resets all
/// attributes, colors included, back to the terminal defaults
/// (parameter 0) — and it is never the lone `ESC [ 0 m`. The true-color
/// and 256-color tiers then repaint the palette's baseline explicitly,
/// with a foreground directive followed by a background directive.
pub proof fn lemma_reset_restores_defaults(tier: TermColor)
    ensures
        starts_with(tier.sequence_spec(Color::Reset), sgr2(39, 0)),
        tier.sequence_spec(Color::Reset) != sgr1(0),
        tier is TrueColors ==> tier.sequence_spec(Color::Reset) == sgr2(39, 0) + fg_rgb(
            251,
            241,
            199,
        ) + bg_rgb(40, 40, 40),
        tier is Colors256 ==> tier.sequence_spec(Color::Reset) == sgr2(39, 0) + fg_indexed(230)
            + bg_indexed(235),
{
    let reset = tier.sequence_spec(Color::Reset);
    assert(reset.len() != sgr1(0).len());
    assert(reset.take(sgr2(39, 0).len() as int) =~= sgr2(39, 0));
}

} // verus!
