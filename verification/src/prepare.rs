//! Image preparation: the bounding-box fit that keeps both dimensions within
//! the transmission maximum, and the text-safe encoding of the re-encoded
//! image bytes for an inline JSON payload.

use vstd::prelude::*;
use crate::request::image_payload;
use crate::request::image_payload_text;

verus! {

/// Neither dimension of a prepared image exceeds this.
pub const MAX_DIMENSION: u64 = 1024;

/// Bounding-box fit: dimensions scaled down by one integer ratio so that
/// neither exceeds the maximum, keeping the aspect ratio. Dimensions already
/// within bounds are untouched; a scaled dimension never drops below one.
pub open spec fn fitted(w: int, h: int) -> (int, int) {
    if w <= 1024 && h <= 1024 {
        (w, h)
    } else if w >= h {
        (1024, if h * 1024 / w >= 1 {
            h * 1024 / w
        } else {
            1
        })
    } else {
        (
            if w * 1024 / h >= 1 {
                w * 1024 / h
            } else {
                1
            },
            1024,
        )
    }
}

/// Computes the target dimensions of the bounding-box fit.
pub fn fit_dimensions(width: u64, height: u64) -> (r: (u64, u64))
    requires
        1 <= width <= 0xFFFF_FFFF,
        1 <= height <= 0xFFFF_FFFF,
    ensures
        r.0 as int == fitted(width as int, height as int).0,
        r.1 as int == fitted(width as int, height as int).1,
        1 <= r.0 <= MAX_DIMENSION,
        1 <= r.1 <= MAX_DIMENSION,
{
    if width <= 1024 && height <= 1024 {
        (width, height)
    } else if width >= height {
        proof {
            assert(height as int * 1024 / width as int <= 1024) by (nonlinear_arith)
                requires
                    1 <= width as int,
                    height as int <= width as int,
            ;
        }
        let scaled = height * 1024 / width;
        let fit_h = if scaled >= 1 {
            scaled
        } else {
            1
        };
        (1024, fit_h)
    } else {
        proof {
            assert(width as int * 1024 / height as int <= 1024) by (nonlinear_arith)
                requires
                    1 <= height as int,
                    width as int <= height as int,
            ;
        }
        let scaled = width * 1024 / height;
        let fit_w = if scaled >= 1 {
            scaled
        } else {
            1
        };
        (fit_w, 1024)
    }
}

/// What the standard padded text-safe encoding of a byte sequence is.
pub uninterp spec fn base64_of(bytes: Seq<u8>) -> Seq<char>;

/// Relies on base64::encode (standard alphabet, padded): the result depends
/// on the bytes alone, and holds four characters for every three input
/// bytes, rounded up. The bound on the input keeps the output size, which
/// the call computes eagerly and refuses to overflow, within the machine's
/// range.
#[verifier::external_body]
fn base64_encode(bytes: &[u8]) -> (r: String)
    requires
        bytes@.len() <= usize::MAX / 4,
    ensures
        r@ == base64_of(bytes@),
        r@.len() == 4 * ((bytes@.len() + 2) / 3),
{
    base64::encode(bytes)
}

/// Encodes re-encoded image bytes as a text-safe payload for transmission.
pub fn encode_image_bytes(bytes: &Vec<u8>) -> (r: String)
    requires
        bytes@.len() <= usize::MAX / 4,
    ensures
        r@ == base64_of(bytes@),
        r@.len() == 4 * ((bytes@.len() + 2) / 3),
{
    base64_encode(bytes.as_slice())
}

/// Builds the full recognition request body from re-encoded image bytes:
/// the image is inlined in its text-safe encoding.
pub fn recognition_request(bytes: &Vec<u8>) -> (r: String)
    requires
        bytes@.len() <= usize::MAX / 4,
    ensures
        r@ == image_payload_text(base64_of(bytes@)),
{
    let encoded = encode_image_bytes(bytes);
    image_payload(encoded.as_str())
}

} // verus!
