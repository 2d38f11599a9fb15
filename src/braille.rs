use crate::ising::{Ising, IsingModel};
use vstd::prelude::*;

verus! {

/// The code point of the empty eight-dot braille cell.
pub const BRAILLE_BASE: u32 = 10240;

/// The pixel of the spin at `(x, y)`: `(s + 1) / 2`, so `1` for an up spin.
pub open spec fn pixel(m: IsingModel, x: int, y: int) -> int {
    (m.spin(x, y) + 1) / 2
}

/// The dot (numbered by its bit in the glyph) that shows pixel `k` of a 2-wide,
/// 4-tall block whose pixels are taken two per row, top row first: the fixed
/// permutation `[0, 3, 1, 4, 2, 5, 6, 7]`.
pub open spec fn dot_of_pixel(k: int) -> int {
    if k == 0 {
        0
    } else if k == 1 {
        3
    } else if k == 2 {
        1
    } else if k == 3 {
        4
    } else if k == 4 {
        2
    } else if k == 5 {
        5
    } else if k == 6 {
        6
    } else {
        7
    }
}

/// `2` to the power `d`.
pub open spec fn bit_value(d: int) -> int
    decreases d,
{
    if d <= 0 {
        1
    } else {
        2 * bit_value(d - 1)
    }
}

/// The bits set by the first `k` pixels of the block in glyph row `gr` and glyph
/// column `gc`, whose pixel `k` lies at `(2 * gc + k % 2, 4 * gr + k / 2)`.
pub open spec fn block_bits(m: IsingModel, gr: int, gc: int, k: int) -> int
    decreases k,
{
    if k <= 0 {
        0
    } else {
        block_bits(m, gr, gc, k - 1) + pixel(m, 2 * gc + (k - 1) % 2, 4 * gr + (k - 1) / 2)
            * bit_value(dot_of_pixel(k - 1))
    }
}

/// The code point of the glyph in glyph row `gr` and glyph column `gc`.
pub open spec fn glyph_code(m: IsingModel, gr: int, gc: int) -> int {
    BRAILLE_BASE + block_bits(m, gr, gc, 8)
}

/// Glyphs per line: `size / 2`.
pub open spec fn glyph_width(m: IsingModel) -> int {
    m.size / 2
}

/// Lines of glyphs: `size / 4`; partial blocks at the edges are dropped.
pub open spec fn glyph_height(m: IsingModel) -> int {
    m.size / 4
}

/// The length of the rendering: `glyph_height` lines of `glyph_width` glyphs,
/// separated by newlines, with none before the first or after the last.
pub open spec fn render_len(m: IsingModel) -> int {
    if glyph_width(m) == 0 || glyph_height(m) == 0 {
        0
    } else {
        glyph_height(m) * (glyph_width(m) + 1) - 1
    }
}

/// The code point at position `p` of the rendering.
pub open spec fn render_code(m: IsingModel, p: int) -> int {
    let w = glyph_width(m);
    if p % (w + 1) == w {
        '\n' as int
    } else {
        glyph_code(m, p / (w + 1), p % (w + 1))
    }
}

/// Relies on `char::from_u32`: `Some(c)`, with `c` the character of code point `u`, exactly when `u` is a
/// Unicode scalar value (below `0xD800`, or from `0xE000` to `0x10FFFF`).
#[verifier::external_body]
fn char_from_u32(u: u32) -> (r: Option<char>)
    ensures
        r.is_some() == (u < 0xD800 || (0xE000 <= u && u <= 0x10FFFF)),
        r matches Some(c) ==> c as int == u as int,
{
    char::from_u32(u)
}

/// Relies on `String::push`: appends `c` to the end of `s`.
#[verifier::external_body]
fn push_char(s: &mut String, c: char)
    ensures
        final(s)@ == old(s)@.push(c),
{
    s.push(c)
}

proof fn lemma_position(p: int, w: int, r: int, c: int)
    requires
        0 < w,
        0 <= c < w,
        p == r * w + c,
    ensures
        p / w == r,
        p % w == c,
{
    vstd::arithmetic::div_mod::lemma_fundamental_div_mod_converse(p, w, r, c);
}

/// The weight of pixel `k` in its glyph: `2` to the power `dot_of_pixel(k)`.
fn dot_weight(k: usize) -> (r: u32)
    requires
        k < 8,
    ensures
        r == bit_value(dot_of_pixel(k as int)),
        r <= 128,
{
    proof { reveal_with_fuel(bit_value, 8) }
    if k == 0 {
        1
    } else if k == 1 {
        8
    } else if k == 2 {
        2
    } else if k == 3 {
        16
    } else if k == 4 {
        4
    } else if k == 5 {
        32
    } else if k == 6 {
        64
    } else {
        128
    }
}

impl Ising {
    /// The code point of the glyph for the block in glyph row `gr`, glyph column `gc`.
    fn block_glyph(&self, gr: usize, gc: usize) -> (r: u32)
        requires
            self.wf(),
            gr < self.size / 4,
            gc < self.size / 2,
        ensures
            r == glyph_code(self@, gr as int, gc as int),
            BRAILLE_BASE <= r <= BRAILLE_BASE + 1024,
    {
        let mut bits: u32 = 0;
        let mut k: usize = 0;
        while k < 8
            invariant
                self.wf(),
                gr < self.size / 4,
                gc < self.size / 2,
                k <= 8,
                bits == block_bits(self@, gr as int, gc as int, k as int),
                bits <= 128 * k,
            decreases 8 - k,
        {
            let x = 2 * gc + k % 2;
            let y = 4 * gr + k / 2;
            let spin = self.lattice[self.get_index(x, y)];
            proof {
                let i = self@.index(x as int, y as int);
                assert(self.lattice@[i] == 1 || self.lattice@[i] == -1);
            }
            let pix: u32 = if spin == 1 { 1 } else { 0 };
            let weight = dot_weight(k);
            bits = bits + pix * weight;
            k = k + 1;
        }
        BRAILLE_BASE + bits
    }

    /// The lattice drawn as braille text: each 2-wide, 4-tall block of spins becomes one
    /// glyph whose dots show the up spins, `size / 2` glyphs to a line and `size / 4`
    /// lines separated by newlines. Partial blocks at the right and bottom are dropped.
    pub fn lattice_as_braille(&self) -> (r: String)
        requires
            self.wf(),
        ensures
            r@.len() == render_len(self@),
            forall|p: int| 0 <= p < r@.len() ==> (#[trigger] r@[p]) as int == render_code(self@, p),
    {
        let w = self.size / 2;
        let h = self.size / 4;
        let mut out = String::new();
        if h == 0 {
            return out;
        }
        let mut gr: usize = 0;
        while gr < h
            invariant
                self.wf(),
                w == self.size / 2,
                h == self.size / 4,
                0 < h,
                0 < w,
                gr <= h,
                out@.len() == if gr == 0 { 0 } else { gr * (w + 1) - 1 },
                forall|p: int|
                    0 <= p < out@.len() ==> (#[trigger] out@[p]) as int == render_code(self@, p),
            decreases h - gr,
        {
            if gr > 0 {
                proof {
                    assert(gr * (w + 1) - 1 == (gr - 1) * (w + 1) + w) by (nonlinear_arith);
                    lemma_position(gr * (w + 1) - 1, w + 1, gr - 1, w as int);
                }
                push_char(&mut out, '\n');
            }
            let mut gc: usize = 0;
            while gc < w
                invariant
                    self.wf(),
                    w == self.size / 2,
                    h == self.size / 4,
                    0 < w,
                    gr < h,
                    gc <= w,
                    out@.len() == gr * (w + 1) + gc,
                    forall|p: int|
                        0 <= p < out@.len() ==> (#[trigger] out@[p]) as int == render_code(
                            self@,
                            p,
                        ),
                decreases w - gc,
            {
                let code = self.block_glyph(gr, gc);
                proof { lemma_position(gr * (w + 1) + gc, w + 1, gr as int, gc as int) }
                match char_from_u32(code) {
                    Some(c) => push_char(&mut out, c),
                    None => {},
                }
                gc = gc + 1;
            }
            assert(gr * (w + 1) + w == (gr + 1) * (w + 1) - 1) by (nonlinear_arith);
            gr = gr + 1;
        }
        out
    }
}

proof fn lemma_bit_value_positive(d: int)
    ensures
        bit_value(d) >= 1,
    decreases d,
{
    if d > 0 {
        lemma_bit_value_positive(d - 1);
    }
}

proof fn lemma_block_bits_nonnegative(m: IsingModel, gr: int, gc: int, k: int)
    requires
        m.wf(),
        0 <= gr < m.size / 4,
        0 <= gc < m.size / 2,
        k <= 8,
    ensures
        block_bits(m, gr, gc, k) >= 0,
    decreases k,
{
    if k > 0 {
        lemma_block_bits_nonnegative(m, gr, gc, k - 1);
        let x = 2 * gc + (k - 1) % 2;
        let y = 4 * gr + (k - 1) / 2;
        assert(0 <= y * m.size + x < m.size * m.size) by (nonlinear_arith)
            requires
                0 <= x < m.size,
                0 <= y < m.size,
        ;
        assert(m.lattice[y * m.size + x] == 1 || m.lattice[y * m.size + x] == -1);
        lemma_bit_value_positive(dot_of_pixel(k - 1));
        assert(pixel(m, x, y) * bit_value(dot_of_pixel(k - 1)) >= 0) by (nonlinear_arith)
            requires
                pixel(m, x, y) >= 0,
                bit_value(dot_of_pixel(k - 1)) >= 1,
        ;
    }
}

/// For a side that is a positive multiple of 8, a rendering is `size / 4` lines of
/// exactly `size / 2` glyphs: it has `size / 4 * (size / 2 + 1) - 1` characters, and
/// the newlines stand exactly at the positions `p` with `p % (size / 2 + 1) == size / 2`.
pub proof fn lemma_render_shape(m: IsingModel, text: Seq<char>)
    requires
        m.wf(),
        0 < m.size,
        m.size % 8 == 0,
        text.len() == render_len(m),
        forall|p: int| 0 <= p < text.len() ==> (#[trigger] text[p]) as int == render_code(m, p),
    ensures
        text.len() == (m.size / 4) * (m.size / 2 + 1) - 1,
        forall|p: int|
            0 <= p < text.len() ==> ((#[trigger] text[p] == '\n') <==> p % (m.size / 2 + 1) == m.size
                / 2),
{
    let w = m.size / 2;
    let h = m.size / 4;
    assert forall|p: int| 0 <= p < text.len() implies ((#[trigger] text[p] == '\n') <==> p % (w
        + 1) == w) by {
        if p % (w + 1) != w {
            let r = p / (w + 1);
            let c = p % (w + 1);
            vstd::arithmetic::div_mod::lemma_fundamental_div_mod(p, w + 1);
            assert(0 <= r < h) by (nonlinear_arith)
                requires
                    p == (w + 1) * r + c,
                    0 <= c,
                    c < w + 1,
                    0 <= p < h * (w + 1) - 1,
                    w >= 0,
            ;
            lemma_block_bits_nonnegative(m, r, c, 8);
        }
    }
}

} // verus!
