use vstd::prelude::*;

verus! {

/// Size of a PSF (version 1) font header.
pub const PSF_HEADER_SIZE: usize = 4;
/// How many glyphs a font holds.
pub const GLYPH_COUNT: usize = 256;
/// Width of every glyph, in pixels: one byte per row.
pub const GLYPH_WIDTH: u64 = 8;

/// The two bytes that start a PSF font.
pub open spec fn psf_magic() -> Seq<u8> {
    seq![0x36u8, 0x04u8]
}

#[derive(Clone, Copy, Debug, PartialEq, Eq)]
pub struct PSFHeader {
    pub magic: [u8; 2],
    pub mode: u8,
    /// Bytes per glyph, which is also its height in rows.
    pub char_size: u8,
}

/// Why a font was refused.
#[derive(Clone, Copy, Debug, PartialEq, Eq)]
pub enum FontError {
    /// Fewer bytes than the header and its 256 glyphs need.
    TooShort,
    /// The first two bytes are not the PSF magic.
    BadMagic,
}

/// A PSF font: a four-byte header followed by 256 glyphs of `char_size` bytes.
#[derive(Clone, Copy, Debug)]
pub struct PSFFont<'a> {
    pub header: PSFHeader,
    pub data: &'a [u8],
}

impl<'a> PSFFont<'a> {
    /// The header matches the data, which holds every glyph.
    pub open spec fn wf(&self) -> bool {
        &&& self.data@.len() >= PSF_HEADER_SIZE + self.header.char_size * GLYPH_COUNT
        &&& self.header.magic@ == self.data@.subrange(0, 2)
        &&& self.header.mode == self.data@[2]
        &&& self.header.char_size == self.data@[3]
    }

    /// Reads a font: its header, checked against the magic, and its glyphs.
    pub fn parse(data: &'a [u8]) -> (r: Result<PSFFont<'a>, FontError>)
        ensures
            data@.len() < PSF_HEADER_SIZE ==> r == Err::<PSFFont, FontError>(FontError::TooShort),
            data@.len() >= PSF_HEADER_SIZE ==> {
                &&& data@.subrange(0, 2) != psf_magic() ==> r == Err::<PSFFont, FontError>(
                    FontError::BadMagic,
                )
                &&& data@.subrange(0, 2) == psf_magic() && data@.len() < PSF_HEADER_SIZE
                    + data@[3] * GLYPH_COUNT ==> r == Err::<PSFFont, FontError>(
                    FontError::TooShort,
                )
                &&& data@.subrange(0, 2) == psf_magic() && data@.len() >= PSF_HEADER_SIZE
                    + data@[3] * GLYPH_COUNT ==> (r matches Ok(f) && f.wf() && f.data == data)
            },
    {
        if data.len() < PSF_HEADER_SIZE {
            return Err(FontError::TooShort);
        }
        let magic = [data[0], data[1]];
        assert(magic@ =~= data@.subrange(0, 2));
        if !(data[0] == 0x36 && data[1] == 0x04) {
            proof {
                if data@.subrange(0, 2) == psf_magic() {
                    assert(data@.subrange(0, 2)[0] == 0x36 && data@.subrange(0, 2)[1] == 0x04);
                }
            }
            return Err(FontError::BadMagic);
        }
        assert(data@.subrange(0, 2) =~= psf_magic());
        let header = PSFHeader { magic, mode: data[2], char_size: data[3] };
        if data.len() - PSF_HEADER_SIZE < (header.char_size as usize) * GLYPH_COUNT {
            return Err(FontError::TooShort);
        }
        Ok(PSFFont { header, data })
    }

    /// Width and height of a glyph, in pixels.
    pub fn glyph_size(&self) -> (r: (u64, u64))
        ensures
            r == (GLYPH_WIDTH, self.header.char_size as u64),
    {
        (GLYPH_WIDTH, self.header.char_size as u64)
    }

    /// The bytes of glyph `index`, one per row with the leftmost pixel in the
    /// most significant bit; `None` where there is no such glyph.
    pub fn glyph(&self, index: usize) -> (r: Option<&'a [u8]>)
        requires
            self.wf(),
        ensures
            index >= GLYPH_COUNT ==> r is None,
            index < GLYPH_COUNT ==> (r matches Some(g) && g@ == self.data@.subrange(
                PSF_HEADER_SIZE + index * self.header.char_size,
                PSF_HEADER_SIZE + (index + 1) * self.header.char_size,
            )),
    {
        if index >= GLYPH_COUNT {
            return None;
        }
        let length = self.header.char_size as usize;
        proof {
            assert(index * length + length <= GLYPH_COUNT * length) by (nonlinear_arith)
                requires
                    index < GLYPH_COUNT,
            ;
            assert((index + 1) * length == index * length + length) by (nonlinear_arith);
        }
        let offset = PSF_HEADER_SIZE + index * length;
        Some(vstd::slice::slice_subrange(self.data, offset, offset + length))
    }
}

} // verus!
