//! Text layout: each byte of a line becomes one glyph quad, advancing
//! horizontally by half the font size; a newline returns the pen to the
//! left edge and drops it one line height.
//!
//! Glyph shaping proper belongs to an external font collaborator; the
//! renderer consumes only quad geometry, so this fixed-advance model
//! lays out one colored quad per glyph and leaves blanks for spaces.

use vstd::prelude::*;

verus! {

use vstd::string::StringSliceAdditionalSpecFns;
use crate::color::Color;
use crate::fixed::div_trunc;
use crate::fixed::fx_div;
use crate::renderer::{Phase, RenderState, Renderer};
use crate::shapes::rect_drawn;

/// The byte that ends a line.
pub const NEWLINE: u8 = 10;

/// The byte a blank advances over without a quad.
pub const BLANK: u8 = 32;

/// How far the pen advances per glyph: half the font size.
pub open spec fn glyph_advance(fs: int) -> int {
    div_trunc(fs, 2)
}

/// The color a glyph quad takes: the given style, or white.
pub open spec fn style_color(style: Option<Color>) -> Color {
    match style {
        Some(c) => c,
        None => Color { red: 255, green: 255, blue: 255, alpha: 255 },
    }
}

/// The renderer state after laying out `bytes` with the pen at
/// `(pen_x, pen_y)`, returning to `left` after each newline: one quad of
/// advance width and font-size height per glyph, none for blanks.
pub open spec fn text_drawn(
    s: RenderState,
    bytes: Seq<u8>,
    pen_x: int,
    pen_y: int,
    left: int,
    fs: int,
    lh: int,
    color: Color,
) -> RenderState
    decreases bytes.len(),
{
    if bytes.len() == 0 {
        s
    } else {
        let b = bytes[0];
        let rest = bytes.drop_first();
        if b == 10 {
            text_drawn(s, rest, left, pen_y + lh, left, fs, lh, color)
        } else {
            let adv = glyph_advance(fs);
            let s2 = if b == 32 {
                s
            } else {
                rect_drawn(s, pen_x, pen_y, adv, fs, color, 0)
            };
            text_drawn(s2, rest, pen_x + adv, pen_y, left, fs, lh, color)
        }
    }
}

/// The widest line of `bytes` in fixed-point pixels: `cur` is the width
/// so far of the open line, `best` the widest line already closed.
pub open spec fn measure_rec(bytes: Seq<u8>, adv: int, cur: int, best: int) -> int
    decreases bytes.len(),
{
    if bytes.len() == 0 {
        spec_max(cur, best)
    } else if bytes[0] == 10 {
        measure_rec(bytes.drop_first(), adv, 0, spec_max(cur, best))
    } else {
        measure_rec(bytes.drop_first(), adv, cur + adv, best)
    }
}

/// The larger of two widths.
pub open spec fn spec_max(a: int, b: int) -> int {
    if a >= b {
        a
    } else {
        b
    }
}

/// The pixel width of the widest line of the text, in fixed point.
pub open spec fn spec_text_width(bytes: Seq<u8>, fs: int) -> int {
    measure_rec(bytes, glyph_advance(fs), 0, 0)
}

impl Renderer {
    /// Appends one quad per glyph of `text`, advancing half the font
    /// size per byte and one line height per newline; blanks advance
    /// without a quad. The style color applies to every glyph, white
    /// when absent.
    pub fn draw_text(
        &mut self,
        text: &str,
        x: i64,
        y: i64,
        font_size: i64,
        line_height: i64,
        style: Option<Color>,
    )
        requires
            old(self).wf(),
            old(self)@.phase == Phase::Batching,
            -0x40_0000_0000 <= x <= 0x40_0000_0000,
            -0x40_0000_0000 <= y <= 0x40_0000_0000,
            0 <= font_size <= 0x2000_0000,
            0 <= line_height <= 0x2000_0000,
            text.spec_bytes().len() <= 1024,
        ensures
            final(self).wf(),
            final(self)@ == text_drawn(
                old(self)@,
                text.spec_bytes(),
                x as int,
                y as int,
                x as int,
                font_size as int,
                line_height as int,
                style_color(style),
            ),
    {
        let ghost s0 = self@;
        let bytes = text.as_bytes();
        let n = bytes.len();
        let adv = fx_div(font_size, 2);
        let color = match style {
            Some(c) => c,
            None => Color { red: 255, green: 255, blue: 255, alpha: 255 },
        };
        let mut pen_x = x;
        let mut pen_y = y;
        let mut i: usize = 0;
        proof {
            assert(bytes@.subrange(0, n as int) =~= bytes@);
        }
        while i < n
            invariant
                i <= n,
                n == bytes@.len(),
                bytes@ == text.spec_bytes(),
                n <= 1024,
                -0x40_0000_0000 <= x <= 0x40_0000_0000,
                -0x40_0000_0000 <= y <= 0x40_0000_0000,
                0 <= font_size <= 0x2000_0000,
                0 <= line_height <= 0x2000_0000,
                adv == glyph_advance(font_size as int),
                0 <= adv <= 0x1000_0000,
                x <= pen_x <= x + i * adv,
                y <= pen_y <= y + i * line_height,
                self.wf(),
                self@.phase == Phase::Batching,
                self@.width == s0.width,
                self@.height == s0.height,
                text_drawn(
                    s0,
                    text.spec_bytes(),
                    x as int,
                    y as int,
                    x as int,
                    font_size as int,
                    line_height as int,
                    color,
                ) == text_drawn(
                    self@,
                    bytes@.subrange(i as int, n as int),
                    pen_x as int,
                    pen_y as int,
                    x as int,
                    font_size as int,
                    line_height as int,
                    color,
                ),
            decreases n - i,
        {
            proof {
                assert(bytes@.subrange(i as int, n as int).drop_first() =~= bytes@.subrange(
                    i + 1,
                    n as int,
                ));
                assert(i * adv <= 0x40_0000_0000) by (nonlinear_arith)
                    requires
                        0 <= i <= 1024,
                        0 <= adv <= 0x1000_0000,
                ;
                assert(i * line_height <= 0x80_0000_0000) by (nonlinear_arith)
                    requires
                        0 <= i <= 1024,
                        0 <= line_height <= 0x2000_0000,
                ;
                assert((i + 1) * adv == i * adv + adv) by (nonlinear_arith);
                assert((i + 1) * line_height == i * line_height + line_height)
                    by (nonlinear_arith);
            }
            let b = bytes[i];
            if b == NEWLINE {
                pen_x = x;
                pen_y = pen_y + line_height;
            } else {
                if b != BLANK {
                    self.draw_rectangle(pen_x, pen_y, adv, font_size, color, 0);
                }
                pen_x = pen_x + adv;
            }
            i = i + 1;
        }
        proof {
            assert(bytes@.subrange(n as int, n as int) =~= Seq::<u8>::empty());
        }
    }

    /// The pixel width of the widest line of the text, in fixed point:
    /// half the font size per byte of the line. A pure query, no batch
    /// mutation; the line height plays no part in the width.
    pub fn measure_text(&self, text: &str, font_size: i64, line_height: i64) -> (w: i64)
        requires
            0 <= font_size <= 0x2000_0000,
            text.spec_bytes().len() <= 1024,
        ensures
            w == spec_text_width(text.spec_bytes(), font_size as int),
    {
        let _ = line_height;
        let bytes = text.as_bytes();
        let n = bytes.len();
        let adv = fx_div(font_size, 2);
        let mut cur: i64 = 0;
        let mut best: i64 = 0;
        let mut i: usize = 0;
        proof {
            assert(bytes@.subrange(0, n as int) =~= bytes@);
        }
        while i < n
            invariant
                i <= n,
                n == bytes@.len(),
                bytes@ == text.spec_bytes(),
                n <= 1024,
                0 <= font_size <= 0x2000_0000,
                adv == glyph_advance(font_size as int),
                0 <= adv <= 0x1000_0000,
                0 <= cur <= i * adv,
                0 <= best <= i * adv,
                measure_rec(text.spec_bytes(), adv as int, 0, 0) == measure_rec(
                    bytes@.subrange(i as int, n as int),
                    adv as int,
                    cur as int,
                    best as int,
                ),
            decreases n - i,
        {
            proof {
                assert(bytes@.subrange(i as int, n as int).drop_first() =~= bytes@.subrange(
                    i + 1,
                    n as int,
                ));
                assert(i * adv <= 0x40_0000_0000) by (nonlinear_arith)
                    requires
                        0 <= i <= 1024,
                        0 <= adv <= 0x1000_0000,
                ;
                assert((i + 1) * adv == i * adv + adv) by (nonlinear_arith);
            }
            let b = bytes[i];
            if b == NEWLINE {
                if cur > best {
                    best = cur;
                }
                cur = 0;
            } else {
                cur = cur + adv;
            }
            i = i + 1;
        }
        proof {
            assert(bytes@.subrange(n as int, n as int) =~= Seq::<u8>::empty());
        }
        if cur > best {
            cur
        } else {
            best
        }
    }
}

/// On newline-free text the open line just grows: the measure is the
/// current width plus one advance per byte, or the best closed line.
proof fn lemma_measure_no_newline(bytes: Seq<u8>, adv: int, cur: int, best: int)
    requires
        adv >= 0,
        forall|i: int| 0 <= i < bytes.len() ==> bytes[i] != 10,
    ensures
        measure_rec(bytes, adv, cur, best) == spec_max(cur + bytes.len() * adv, best),
    decreases bytes.len(),
{
    if bytes.len() == 0 {
    } else {
        let rest = bytes.drop_first();
        lemma_measure_no_newline(rest, adv, cur + adv, best);
        assert(cur + adv + rest.len() * adv == cur + bytes.len() * adv) by (nonlinear_arith)
            requires
                rest.len() + 1 == bytes.len(),
        ;
    }
}

/// Measured width never decreases as newline-free text grows: a text at
/// least as long is at least as wide.
pub proof fn lemma_measure_monotone(s: Seq<u8>, t: Seq<u8>, fs: int)
    requires
        fs >= 0,
        s.len() <= t.len(),
        forall|i: int| 0 <= i < s.len() ==> s[i] != 10,
        forall|i: int| 0 <= i < t.len() ==> t[i] != 10,
    ensures
        spec_text_width(s, fs) <= spec_text_width(t, fs),
{
    let adv = glyph_advance(fs);
    lemma_measure_no_newline(s, adv, 0, 0);
    lemma_measure_no_newline(t, adv, 0, 0);
    assert(s.len() * adv <= t.len() * adv) by (nonlinear_arith)
        requires
            s.len() <= t.len(),
            adv >= 0,
    ;
}

} // verus!
