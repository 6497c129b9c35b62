use vstd::prelude::*;

verus! {

/// Number of bytes of one RGBA8 pixel.
pub const BYTES_PER_PIXEL: u64 = 4;

/// Byte length of an RGBA8 image of the given size.
pub open spec fn image_len(width: int, height: int) -> int {
    4 * width * height
}

/// Index in `raw` of the byte that lands at index `i` once the rows of a
/// `width`-pixel-wide, `height`-row image are put in reverse order.
pub open spec fn flipped_index(i: int, width: int, height: int) -> int {
    let row_len = 4 * width;
    (height - 1 - i / row_len) * row_len + i % row_len
}

/// The image `raw` with its rows in reverse order (bottom-left origin to top-left).
pub open spec fn flipped(raw: Seq<u8>, width: int, height: int) -> Seq<u8> {
    Seq::new(raw.len(), |i: int| raw[flipped_index(i, width, height)])
}

/// Relies on image::ImageBuffer::from_raw (returns an RGBA8 image for a buffer
/// of at least 4 * width * height bytes), image::imageops::flip_vertical
/// (writes pixel (x, y) of the input at (x, height - 1 - y) of a new buffer of
/// the same size) and ImageBuffer::into_raw (hands the bytes back).
#[verifier::external_body]
fn flip_rows(raw: Vec<u8>, width: u32, height: u32) -> (r: Vec<u8>)
    requires
        width > 0,
        height > 0,
        raw@.len() == image_len(width as int, height as int),
    ensures
        r@ == flipped(raw@, width as int, height as int),
{
    let img: image::RgbaImage = image::ImageBuffer::from_raw(width, height, raw).unwrap();
    image::imageops::flip_vertical(&img).into_raw()
}

/// The byte length of a `width` by `height` RGBA8 image, if it fits in `usize`.
pub fn image_byte_len(width: u32, height: u32) -> (r: Option<usize>)
    ensures
        r is Some <==> image_len(width as int, height as int) <= usize::MAX,
        r is Some ==> r->0 == image_len(width as int, height as int),
{
    assert((width as int) * (height as int) <= 0xffff_ffff * 0xffff_ffff) by (nonlinear_arith)
        requires
            width <= 0xffff_ffff,
            height <= 0xffff_ffff,
    ;
    let pixels: u64 = width as u64 * height as u64;
    assert(image_len(width as int, height as int) == pixels * 4) by (nonlinear_arith)
        requires
            pixels == width * height,
    ;
    match pixels.checked_mul(BYTES_PER_PIXEL) {
        Some(n) => {
            if n <= usize::MAX as u64 {
                Some(n as usize)
            } else {
                None
            }
        },
        None => None,
    }
}

/// An RGBA8 image, row-major, top-left origin.
pub struct PixelBuffer {
    width: u32,
    height: u32,
    data: Vec<u8>,
}

/// Why a readback could not become a pixel buffer.
#[derive(Clone, Copy, Debug, PartialEq, Eq, Structural)]
pub enum ReadbackError {
    /// Width or height is zero.
    EmptyImage,
    /// The number of bytes read back is not 4 * width * height.
    LengthMismatch,
}

impl PixelBuffer {
    /// Every buffer holds exactly four bytes per pixel and at least one pixel.
    pub open spec fn wf(&self) -> bool {
        &&& self.spec_width() > 0
        &&& self.spec_height() > 0
        &&& self.bytes().len() == image_len(self.spec_width() as int, self.spec_height() as int)
    }

    #[verifier::type_invariant]
    closed spec fn holds_whole_image(&self) -> bool {
        self.wf()
    }

    pub fn width(&self) -> (r: u32)
        ensures
            r == self.spec_width(),
    {
        self.width
    }

    pub fn height(&self) -> (r: u32)
        ensures
            r == self.spec_height(),
    {
        self.height
    }

    pub closed spec fn spec_width(&self) -> u32 {
        self.width
    }

    pub closed spec fn spec_height(&self) -> u32 {
        self.height
    }

    pub closed spec fn bytes(&self) -> Seq<u8> {
        self.data@
    }

    /// The pixel bytes, row by row from the top; there are always
    /// 4 * width * height of them.
    pub fn data(&self) -> (r: &Vec<u8>)
        ensures
            r@ == self.bytes(),
            self.wf(),
    {
        proof {
            use_type_invariant(self);
        }
        &self.data
    }

    /// Gives up the buffer and returns its bytes, 4 * width * height of them.
    pub fn into_bytes(self) -> (r: Vec<u8>)
        ensures
            r@ == self.bytes(),
            r@.len() == image_len(self.spec_width() as int, self.spec_height() as int),
    {
        proof {
            use_type_invariant(&self);
        }
        self.data
    }

    /// Turns the bytes read back from a framebuffer (rows from the bottom) into
    /// a buffer whose rows run from the top. No buffer of another length than
    /// 4 * width * height ever comes out.
    pub fn from_readback(raw: Vec<u8>, width: u32, height: u32) -> (r: Result<PixelBuffer, ReadbackError>)
        ensures
            (width == 0 || height == 0) ==> r == Err::<PixelBuffer, ReadbackError>(ReadbackError::EmptyImage),
            (width > 0 && height > 0 && raw@.len() != image_len(width as int, height as int))
                ==> r == Err::<PixelBuffer, ReadbackError>(ReadbackError::LengthMismatch),
            (width > 0 && height > 0 && raw@.len() == image_len(width as int, height as int)) ==> {
                &&& r is Ok
                &&& r->Ok_0.wf()
                &&& r->Ok_0.spec_width() == width
                &&& r->Ok_0.spec_height() == height
                &&& r->Ok_0.bytes() == flipped(raw@, width as int, height as int)
            },
    {
        if width == 0 || height == 0 {
            return Err(ReadbackError::EmptyImage);
        }
        match image_byte_len(width, height) {
            Some(n) => {
                if raw.len() != n {
                    return Err(ReadbackError::LengthMismatch);
                }
            },
            None => {
                // no buffer can be that long
                let n_raw: usize = raw.len();
                assert(n_raw <= usize::MAX);
                return Err(ReadbackError::LengthMismatch);
            },
        }
        let data = flip_rows(raw, width, height);
        Ok(PixelBuffer { width, height, data })
    }
}

} // verus!
