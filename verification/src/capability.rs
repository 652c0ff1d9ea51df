//! The terminal's color capability tier and how it is detected.

use vstd::prelude::*;

verus! {

/// A terminal's color depth bucket, determined once per process from the
/// environment and never mutated afterwards.
#[derive(Clone, Copy, Debug, PartialEq, Eq, Structural)]
pub enum TermColor {
    TrueColors,
    Colors256,
    Colors16,
}

/// Whether the color-capability environment variable announces full
/// 24-bit support: it is present and holds exactly the literal
/// `truecolor`.
pub open spec fn announces_truecolor(colorterm: Option<String>) -> bool {
    match colorterm {
        Option::Some(v) => v@ == "truecolor"@,
        Option::None => false,
    }
}

impl TermColor {
    /// Picks the capability tier from an environment snapshot:
    /// `colorterm` is the value of the color-capability variable, if set,
    /// and `db_colors` is the numeric `colors` capability reported by the
    /// terminfo database, if the database entry could be loaded and holds
    /// one.
    ///
    /// The decision is ordered, first match wins: an exact `truecolor`
    /// announcement yields `TrueColors` whatever the database says; a
    /// database report of exactly 256 colors yields `Colors256`; anything
    /// else, including a failed database lookup, silently degrades to the
    /// conservative `Colors16`. Detection never fails.
    pub fn detect(colorterm: Option<String>, db_colors: Option<u32>) -> (tier: TermColor)
        ensures
            announces_truecolor(colorterm) ==> tier is TrueColors,
            !announces_truecolor(colorterm) && db_colors == Some(256u32) ==> tier is Colors256,
            !announces_truecolor(colorterm) && db_colors != Some(256u32) ==> tier is Colors16,
    {
        let truecolor: String = "truecolor".to_owned();
        match colorterm {
            Some(v) => {
                if v == truecolor {
                    return TermColor::TrueColors;
                }
            },
            None => {},
        }
        match db_colors {
            Some(n) => {
                if n == 256 {
                    TermColor::Colors256
                } else {
                    TermColor::Colors16
                }
            },
            None => TermColor::Colors16,
        }
    }
}

} // verus!
