use vstd::prelude::*;
use crate::pixels::{image_byte_len, image_len, PixelBuffer};

verus! {

/// The file path handed over a foreign call, as far as it could be read.
pub enum PathArg {
    /// The path pointer was null.
    Missing,
    /// The path is not valid UTF-8 text.
    Undecodable,
    /// The decoded path.
    Text(String),
}

/// Why a foreign render call reports failure.
#[derive(Clone, Copy, Debug, PartialEq, Eq, Structural)]
pub enum BridgeFault {
    /// The output buffer pointer was null.
    NullBuffer,
    /// The path pointer was null.
    NullPath,
    /// The path is not valid text.
    InvalidPath,
    /// Width or height is zero.
    EmptyImage,
    /// 4 * width * height bytes cannot be addressed.
    TooLarge,
    /// The render failed or aborted (missing or unreadable file, GPU failure).
    RenderFailed,
    /// The rendered image does not have the requested size.
    SizeMismatch,
}

/// A validated foreign render call.
pub struct RenderRequest {
    pub width: u32,
    pub height: u32,
    pub path: String,
    /// Bytes the caller's buffer holds by contract: 4 * width * height.
    pub buffer_len: usize,
}

/// Checks a foreign call before anything is rendered or written: the buffer
/// pointer first, then the path pointer, then the path text, then the size.
pub fn validate_call(buffer_is_null: bool, path: PathArg, width: u32, height: u32) -> (r: Result<RenderRequest, BridgeFault>)
    ensures
        buffer_is_null ==> r == Err::<RenderRequest, BridgeFault>(BridgeFault::NullBuffer),
        !buffer_is_null && path is Missing ==> r == Err::<RenderRequest, BridgeFault>(BridgeFault::NullPath),
        !buffer_is_null && path is Undecodable ==> r == Err::<RenderRequest, BridgeFault>(
            BridgeFault::InvalidPath,
        ),
        !buffer_is_null && path is Text && (width == 0 || height == 0) ==> r == Err::<
            RenderRequest,
            BridgeFault,
        >(BridgeFault::EmptyImage),
        !buffer_is_null && path is Text && width > 0 && height > 0 && image_len(width as int, height as int)
            > usize::MAX ==> r == Err::<RenderRequest, BridgeFault>(BridgeFault::TooLarge),
        !buffer_is_null && path is Text && width > 0 && height > 0 && image_len(width as int, height as int)
            <= usize::MAX ==> {
            &&& r is Ok
            &&& r->Ok_0.width == width
            &&& r->Ok_0.height == height
            &&& r->Ok_0.path@ == path->Text_0@
            &&& r->Ok_0.buffer_len == image_len(width as int, height as int)
        },
{
    if buffer_is_null {
        return Err(BridgeFault::NullBuffer);
    }
    let text = match path {
        PathArg::Missing => {
            return Err(BridgeFault::NullPath);
        },
        PathArg::Undecodable => {
            return Err(BridgeFault::InvalidPath);
        },
        PathArg::Text(s) => s,
    };
    if width == 0 || height == 0 {
        return Err(BridgeFault::EmptyImage);
    }
    match image_byte_len(width, height) {
        Some(n) => Ok(RenderRequest { width, height, path: text, buffer_len: n }),
        None => Err(BridgeFault::TooLarge),
    }
}

/// Decides what a finished render gives the caller: the bytes to copy into
/// its buffer, which have exactly the buffer's length, or a fault. `rendered`
/// is `None` when the render returned an error or aborted.
pub fn accept_rendered(request: &RenderRequest, rendered: Option<PixelBuffer>) -> (r: Result<Vec<u8>, BridgeFault>)
    ensures
        rendered is None ==> r == Err::<Vec<u8>, BridgeFault>(BridgeFault::RenderFailed),
        rendered is Some ==> ({
            let p = rendered->0;
            if p.spec_width() == request.width && p.spec_height() == request.height && p.bytes().len()
                == request.buffer_len {
                r is Ok && r->Ok_0@ == p.bytes()
            } else {
                r == Err::<Vec<u8>, BridgeFault>(BridgeFault::SizeMismatch)
            }
        }),
{
    match rendered {
        None => Err(BridgeFault::RenderFailed),
        Some(p) => {
            if p.width() == request.width && p.height() == request.height && p.data().len()
                == request.buffer_len {
                Ok(p.into_bytes())
            } else {
                Err(BridgeFault::SizeMismatch)
            }
        },
    }
}

} // verus!
