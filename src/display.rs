use vstd::prelude::*;

pub mod font;

use crate::display::font::{PSFFont, GLYPH_COUNT, GLYPH_WIDTH, PSF_HEADER_SIZE};

verus! {

/// Bytes per pixel of the framebuffers drawn on here.
pub const BYTES_PER_PIXEL: usize = 4;

/// A colour as the framebuffer stores it: blue, green, red, then an unused
/// byte.
#[derive(Clone, Copy, Debug, PartialEq, Eq)]
pub struct Color(pub [u8; 4]);

impl Color {
    pub fn new(red: u8, green: u8, blue: u8) -> (r: Self)
        ensures
            r.0@ == seq![blue, green, red, 0u8],
    {
        let r = Color([blue, green, red, 0]);
        assert(r.0@ =~= seq![blue, green, red, 0u8]);
        r
    }

    /// The four bytes of the colour, in framebuffer order.
    pub fn as_bytes(&self) -> (r: [u8; 4])
        ensures
            r@ == self.0@,
    {
        self.0
    }
}

/// The colour of glyph pixels that are set.
pub open spec fn foreground() -> Seq<u8> {
    seq![0u8, 0u8, 255u8, 0u8]
}

/// The colour of glyph pixels that are clear.
pub open spec fn background() -> Seq<u8> {
    seq![0u8, 0u8, 0u8, 0u8]
}

/// The four bytes of pixel number `p` in `data`.
pub open spec fn pixel_at(data: Seq<u8>, p: int) -> Seq<u8> {
    data.subrange(4 * p, 4 * p + 4)
}

/// Whether pixel `col` of a glyph row `bits` is set; the leftmost pixel is
/// the most significant bit.
pub open spec fn glyph_bit(bits: u8, col: int) -> bool {
    (bits as int / pow2((7 - col) as nat) as int) % 2 == 1
}

/// Two to the power `n`.
pub open spec fn pow2(n: nat) -> nat
    decreases n,
{
    if n == 0 {
        1
    } else {
        2 * pow2((n - 1) as nat)
    }
}

/// A framebuffer in memory: `width` by `height` pixels of four bytes, row by
/// row.
#[derive(Debug)]
pub struct Display {
    pub height: u64,
    pub width: u64,
    pub data: Vec<u8>,
    pub bytes_per_pixel: usize,
}

proof fn lemma_pixel_in_frame(x: int, y: int, w: int, h: int)
    requires
        0 <= x < w,
        0 <= y < h,
    ensures
        0 <= y * w + x < w * h,
        4 * (y * w + x) + 4 <= 4 * (w * h),
{
    assert(y * w + x < w * h) by (nonlinear_arith)
        requires
            0 <= x < w,
            0 <= y < h,
    ;
    assert(0 <= y * w) by (nonlinear_arith)
        requires
            0 <= x < w,
            0 <= y,
    ;
}

proof fn lemma_pixel_index_injective(x1: int, y1: int, x2: int, y2: int, w: int)
    requires
        0 <= x1 < w,
        0 <= x2 < w,
        0 <= y1,
        0 <= y2,
        y1 * w + x1 == y2 * w + x2,
    ensures
        x1 == x2 && y1 == y2,
{
    if y1 < y2 {
        assert(y1 * w + x1 < y2 * w + x2) by (nonlinear_arith)
            requires
                0 <= x1 < w,
                0 <= x2,
                y1 < y2,
        ;
    } else if y2 < y1 {
        assert(y2 * w + x2 < y1 * w + x1) by (nonlinear_arith)
            requires
                0 <= x2 < w,
                0 <= x1,
                y2 < y1,
        ;
    }
}

impl Display {
    /// The framebuffer holds exactly `width * height` pixels of four bytes.
    pub open spec fn wf(&self) -> bool {
        &&& self.bytes_per_pixel == BYTES_PER_PIXEL
        &&& self.data@.len() == 4 * (self.width * self.height)
    }

    /// The four bytes of the pixel at column `x` and row `y`.
    pub open spec fn pixel(&self, x: int, y: int) -> Seq<u8> {
        pixel_at(self.data@, y * self.width + x)
    }

    /// A black framebuffer of `width` by `height` pixels; `None` where
    /// `bytes_per_pixel` is not 4 or the size does not fit in memory.
    pub fn new(width: u64, height: u64, bytes_per_pixel: usize) -> (r: Option<Display>)
        ensures
            r matches Some(d) ==> d.wf() && d.width == width && d.height == height && forall|
                i: int,
            |
                0 <= i < d.data@.len() ==> d.data@[i] == 0u8,
            bytes_per_pixel != BYTES_PER_PIXEL ==> r is None,
            bytes_per_pixel == BYTES_PER_PIXEL && width * height <= usize::MAX / 4 ==> r is Some,
    {
        if bytes_per_pixel != BYTES_PER_PIXEL {
            return None;
        }
        let pixels = match width.checked_mul(height) {
            Some(n) => n,
            None => return None,
        };
        if pixels > (usize::MAX as u64) / 4 {
            return None;
        }
        let total = (4 * pixels) as usize;
        let mut data: Vec<u8> = Vec::new();
        let mut i: usize = 0;
        while i < total
            invariant
                i <= total,
                data@.len() == i,
                forall|k: int| 0 <= k < i ==> data@[k] == 0u8,
            decreases total - i,
        {
            data.push(0);
            i = i + 1;
        }
        Some(Display { height, width, data, bytes_per_pixel })
    }

    /// Paints pixel number `y * width + x`, which must lie in the buffer; every
    /// other pixel keeps its colour.
    pub fn draw_pixel(&mut self, x: u64, y: u64, color: Color)
        requires
            old(self).wf(),
            4 * (y * old(self).width + x) + 4 <= old(self).data@.len(),
        ensures
            final(self).wf(),
            final(self).width == old(self).width,
            final(self).height == old(self).height,
            final(self).data@.len() == old(self).data@.len(),
            forall|p: int|
                0 <= p < old(self).width * old(self).height ==> #[trigger] pixel_at(
                    final(self).data@,
                    p,
                ) == if p == y * old(self).width + x {
                    color.0@
                } else {
                    pixel_at(old(self).data@, p)
                },
    {
        let ghost w = self.width as int;
        let len = self.data.len();
        proof {
            assert(0 <= y * w) by (nonlinear_arith)
                requires
                    0 <= y,
                    0 <= w,
            ;
        }
        let pixel_index = (y * self.width + x) as usize;
        let byte_index = pixel_index * 4;
        let ghost before = self.data@;
        let bytes = color.as_bytes();
        self.data.set(byte_index, bytes[0]);
        self.data.set(byte_index + 1, bytes[1]);
        self.data.set(byte_index + 2, bytes[2]);
        self.data.set(byte_index + 3, bytes[3]);
        assert forall|p: int| 0 <= p < w * self.height implies #[trigger] pixel_at(self.data@, p)
            == if p == pixel_index {
            color.0@
        } else {
            pixel_at(before, p)
        } by {
            if p == pixel_index {
                assert(pixel_at(self.data@, p) =~= color.0@);
            } else {
                assert(pixel_at(self.data@, p) =~= pixel_at(before, p));
            }
        }
    }

    /// Draws `character` from `font` with its top left corner at column `x` and
    /// row `y`: set glyph pixels red, clear ones black. Every pixel outside
    /// the glyph's cell keeps its colour. A character past the font's 256
    /// glyphs draws nothing.
    pub fn draw_character(&mut self, x: u64, y: u64, character: char, font: &PSFFont)
        requires
            old(self).wf(),
            font.wf(),
            x + GLYPH_WIDTH <= old(self).width,
            y + font.header.char_size <= old(self).height,
        ensures
            final(self).wf(),
            final(self).width == old(self).width,
            final(self).height == old(self).height,
            forall|px: int, py: int|
                0 <= px < old(self).width && 0 <= py < old(self).height ==> #[trigger] final(self).pixel(px, py) == if (character as u32) < GLYPH_COUNT && x <= px < x
                    + GLYPH_WIDTH && y <= py < y + font.header.char_size {
                    if glyph_bit(
                        font.data@[PSF_HEADER_SIZE + (character as u32) * font.header.char_size
                            + (py - y)],
                        px - x,
                    ) {
                        foreground()
                    } else {
                        background()
                    }
                } else {
                    old(self).pixel(px, py)
                },
    {
        let (fwidth, fheight) = font.glyph_size();
        let glyph_data = match font.glyph(character as usize) {
            Some(g) => g,
            None => {
                return;
            },
        };
        proof {
            let idx = character as usize as int;
            let cs = font.header.char_size as int;
            assert((idx + 1) * cs == idx * cs + cs) by (nonlinear_arith);
            assert(idx * cs + cs <= GLYPH_COUNT * cs) by (nonlinear_arith)
                requires
                    0 <= idx < GLYPH_COUNT,
                    cs >= 0,
            ;
            assert(glyph_data@.len() == fheight);
            assert forall|i: int| 0 <= i < fheight implies glyph_data@[i] == font.data@[
                PSF_HEADER_SIZE + (character as u32) * font.header.char_size + i
            ] by {}
        }
        let ghost start = *self;
        let ghost w = self.width as int;
        let ghost h = self.height as int;
        let ghost base = PSF_HEADER_SIZE + (character as u32) * font.header.char_size;
        let mut row: u64 = 0;
        while row < fheight
            invariant
                self.wf(),
                self.width == w,
                self.height == h,
                start.wf(),
                start.width == w,
                start.height == h,
                row <= fheight,
                fwidth == GLYPH_WIDTH,
                fheight == font.header.char_size,
                x + GLYPH_WIDTH <= w,
                y + fheight <= h,
                glyph_data@.len() == fheight,
                forall|i: int|
                    0 <= i < fheight ==> glyph_data@[i] == font.data@[base + i],
                forall|px: int, py: int|
                    0 <= px < w && 0 <= py < h ==> #[trigger] self.pixel(px, py) == if x <= px
                        < x + GLYPH_WIDTH && y <= py < y + row {
                        if glyph_bit(glyph_data@[py - y], px - x) {
                            foreground()
                        } else {
                            background()
                        }
                    } else {
                        start.pixel(px, py)
                    },
            decreases fheight - row,
        {
            let byte = glyph_data[row as usize];
            let mut col: u64 = 0;
            while col < fwidth
                invariant
                    self.wf(),
                    self.width == w,
                    self.height == h,
                    start.wf(),
                    start.width == w,
                    start.height == h,
                    row < fheight,
                    col <= fwidth,
                    fwidth == GLYPH_WIDTH,
                    fheight == font.header.char_size,
                    x + GLYPH_WIDTH <= w,
                    y + fheight <= h,
                    glyph_data@.len() == fheight,
                    byte == glyph_data@[row as int],
                    forall|i: int|
                        0 <= i < fheight ==> glyph_data@[i] == font.data@[base + i],
                    forall|px: int, py: int|
                        0 <= px < w && 0 <= py < h ==> #[trigger] self.pixel(px, py) == if x
                            <= px < x + GLYPH_WIDTH && (y <= py < y + row || (py == y + row && px
                            < x + col)) {
                            if glyph_bit(glyph_data@[py - y], px - x) {
                                foreground()
                            } else {
                                background()
                            }
                        } else {
                            start.pixel(px, py)
                        },
                decreases fwidth - col,
            {
                let bit = 7 - col;
                let set = (byte >> (bit as u8)) & 1 == 1;
                proof {
                    lemma_shift_is_division(byte, bit as u8);
                }
                let color = if set {
                    Color::new(255, 0, 0)
                } else {
                    Color::new(0, 0, 0)
                };
                proof {
                    assert(color.0@ =~= (if set { foreground() } else { background() }));
                }
                let ghost prev = *self;
                proof {
                    lemma_pixel_in_frame((x + col) as int, (y + row) as int, w, h);
                }
                self.draw_pixel(x + col, y + row, color);
                proof {
                    assert forall|px: int, py: int| 0 <= px < w && 0 <= py < h implies #[trigger] self.pixel(
                        px,
                        py,
                    ) == if px == x + col && py == y + row {
                        color.0@
                    } else {
                        prev.pixel(px, py)
                    } by {
                        lemma_pixel_in_frame(px, py, w, h);
                        if py * w + px == (y + row) * w + (x + col) {
                            lemma_pixel_index_injective(
                                px,
                                py,
                                (x + col) as int,
                                (y + row) as int,
                                w,
                            );
                        }
                    }
                }
                col = col + 1;
            }
            row = row + 1;
        }
    }
}

proof fn lemma_shift_is_division(byte: u8, bit: u8)
    requires
        bit < 8,
    ensures
        ((byte >> bit) & 1 == 1) == ((byte as int / pow2(bit as nat) as int) % 2 == 1),
{
    reveal_with_fuel(pow2, 9);
    let p = pow2(bit as nat);
    assert(byte >> bit == byte / (p as u8)) by {
        if bit == 0 {
            assert(byte >> 0u8 == byte / 1u8) by (bit_vector);
        } else if bit == 1 {
            assert(byte >> 1u8 == byte / 2u8) by (bit_vector);
        } else if bit == 2 {
            assert(byte >> 2u8 == byte / 4u8) by (bit_vector);
        } else if bit == 3 {
            assert(byte >> 3u8 == byte / 8u8) by (bit_vector);
        } else if bit == 4 {
            assert(byte >> 4u8 == byte / 16u8) by (bit_vector);
        } else if bit == 5 {
            assert(byte >> 5u8 == byte / 32u8) by (bit_vector);
        } else if bit == 6 {
            assert(byte >> 6u8 == byte / 64u8) by (bit_vector);
        } else {
            assert(byte >> 7u8 == byte / 128u8) by (bit_vector);
        }
    }
    let v = byte >> bit;
    assert((v & 1 == 1) == (v % 2 == 1)) by (bit_vector);
}

} // verus!
