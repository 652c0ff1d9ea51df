//! Building blocks for SGR (Select Graphic Rendition) escape sequences.
//!
//! A directive is `ESC [ p1 ; p2 ; ... m`: the two-byte control sequence
//! introducer, the numeric parameters written in decimal ASCII and
//! separated by semicolons, and the final `m`. The spec functions here
//! state the exact bytes of a directive; the exec functions append those
//! bytes to a buffer and are proved to match.

use vstd::prelude::*;

verus! {

/// The decimal ASCII digits of `n`, without leading zeros.
pub open spec fn decimal_of(n: u8) -> Seq<u8> {
    if n < 10 {
        seq![(48 + n) as u8]
    } else if n < 100 {
        seq![(48 + n / 10) as u8, (48 + n % 10) as u8]
    } else {
        seq![(48 + n / 100) as u8, (48 + (n / 10) % 10) as u8, (48 + n % 10) as u8]
    }
}

/// The control sequence introducer: the escape byte followed by `[`.
pub open spec fn csi() -> Seq<u8> {
    seq![27u8, 91u8]
}

/// A one-parameter directive, `ESC [ a m`.
pub open spec fn sgr1(a: u8) -> Seq<u8> {
    csi() + decimal_of(a) + seq![109u8]
}

/// A two-parameter directive, `ESC [ a ; b m`.
pub open spec fn sgr2(a: u8, b: u8) -> Seq<u8> {
    csi() + decimal_of(a) + seq![59u8] + decimal_of(b) + seq![109u8]
}

/// A three-parameter directive, `ESC [ a ; b ; c m`.
pub open spec fn sgr3(a: u8, b: u8, c: u8) -> Seq<u8> {
    csi() + decimal_of(a) + seq![59u8] + decimal_of(b) + seq![59u8] + decimal_of(c)
        + seq![109u8]
}

/// A five-parameter directive, `ESC [ a ; b ; c ; d ; e m`.
pub open spec fn sgr5(a: u8, b: u8, c: u8, d: u8, e: u8) -> Seq<u8> {
    csi() + decimal_of(a) + seq![59u8] + decimal_of(b) + seq![59u8] + decimal_of(c)
        + seq![59u8] + decimal_of(d) + seq![59u8] + decimal_of(e) + seq![109u8]
}

/// A 24-bit foreground directive for the given RGB triple.
pub open spec fn fg_rgb(r: u8, g: u8, b: u8) -> Seq<u8> {
    sgr5(38, 2, r, g, b)
}

/// A 24-bit background directive for the given RGB triple.
pub open spec fn bg_rgb(r: u8, g: u8, b: u8) -> Seq<u8> {
    sgr5(48, 2, r, g, b)
}

/// A 256-color indexed foreground directive.
pub open spec fn fg_indexed(n: u8) -> Seq<u8> {
    sgr3(38, 5, n)
}

/// A 256-color indexed background directive.
pub open spec fn bg_indexed(n: u8) -> Seq<u8> {
    sgr3(48, 5, n)
}

/// Appends the decimal ASCII digits of `n`, without leading zeros.
pub fn push_decimal(out: &mut Vec<u8>, n: u8)
    ensures
        final(out)@ == old(out)@ + decimal_of(n),
{
    if n >= 100 {
        out.push(48 + n / 100);
    }
    if n >= 10 {
        out.push(48 + (n / 10) % 10);
    }
    out.push(48 + n % 10);
    proof {
        assert(out@ =~= old(out)@ + decimal_of(n));
    }
}

/// Appends the one-parameter directive `ESC [ a m`.
pub fn push_sgr1(out: &mut Vec<u8>, a: u8)
    ensures
        final(out)@ == old(out)@ + sgr1(a),
{
    out.push(27);
    out.push(91);
    push_decimal(out, a);
    out.push(109);
    proof {
        assert(out@ =~= old(out)@ + sgr1(a));
    }
}

/// Appends the two-parameter directive `ESC [ a ; b m`.
pub fn push_sgr2(out: &mut Vec<u8>, a: u8, b: u8)
    ensures
        final(out)@ == old(out)@ + sgr2(a, b),
{
    out.push(27);
    out.push(91);
    push_decimal(out, a);
    out.push(59);
    push_decimal(out, b);
    out.push(109);
    proof {
        assert(out@ =~= old(out)@ + sgr2(a, b));
    }
}

/// Appends the three-parameter directive `ESC [ a ; b ; c m`.
pub fn push_sgr3(out: &mut Vec<u8>, a: u8, b: u8, c: u8)
    ensures
        final(out)@ == old(out)@ + sgr3(a, b, c),
{
    out.push(27);
    out.push(91);
    push_decimal(out, a);
    out.push(59);
    push_decimal(out, b);
    out.push(59);
    push_decimal(out, c);
    out.push(109);
    proof {
        assert(out@ =~= old(out)@ + sgr3(a, b, c));
    }
}

/// Appends the five-parameter directive `ESC [ a ; b ; c ; d ; e m`.
pub fn push_sgr5(out: &mut Vec<u8>, a: u8, b: u8, c: u8, d: u8, e: u8)
    ensures
        final(out)@ == old(out)@ + sgr5(a, b, c, d, e),
{
    out.push(27);
    out.push(91);
    push_decimal(out, a);
    out.push(59);
    push_decimal(out, b);
    out.push(59);
    push_decimal(out, c);
    out.push(59);
    push_decimal(out, d);
    out.push(59);
    push_decimal(out, e);
    out.push(109);
    proof {
        assert(out@ =~= old(out)@ + sgr5(a, b, c, d, e));
    }
}

/// Appends the 24-bit foreground directive for an RGB triple.
pub fn push_fg_rgb(out: &mut Vec<u8>, r: u8, g: u8, b: u8)
    ensures
        final(out)@ == old(out)@ + fg_rgb(r, g, b),
{
    push_sgr5(out, 38, 2, r, g, b);
}

/// Appends the 24-bit background directive for an RGB triple.
pub fn push_bg_rgb(out: &mut Vec<u8>, r: u8, g: u8, b: u8)
    ensures
        final(out)@ == old(out)@ + bg_rgb(r, g, b),
{
    push_sgr5(out, 48, 2, r, g, b);
}

/// Appends the 256-color indexed foreground directive.
pub fn push_fg_indexed(out: &mut Vec<u8>, n: u8)
    ensures
        final(out)@ == old(out)@ + fg_indexed(n),
{
    push_sgr3(out, 38, 5, n);
}

/// Appends the 256-color indexed background directive.
pub fn push_bg_indexed(out: &mut Vec<u8>, n: u8)
    ensures
        final(out)@ == old(out)@ + bg_indexed(n),
{
    push_sgr3(out, 48, 5, n);
}

} // verus!
