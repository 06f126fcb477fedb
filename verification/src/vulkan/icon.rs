//! Decoding the window icon from its image file.

use vstd::prelude::*;

verus! {

/// A decoded icon: tightly packed 8-bit RGBA pixels, four bytes per pixel.
pub struct IconImage {
    pub rgba: Vec<u8>,
    pub width: u32,
    pub height: u32,
}

/// A well-formed icon holds exactly four bytes for each of its
/// `width * height` pixels, which is what the window system demands of icon
/// data.
pub open spec fn icon_wf(icon: IconImage) -> bool {
    icon.rgba@.len() == 4 * icon.width * icon.height
}

/// Relies on image's `io::Reader` (format guessing and decoding) and
/// `DynamicImage::into_rgba8`: a decoded image is an `ImageBuffer`, which by
/// construction holds at least `4 * width * height` samples, a count that
/// fits in `usize`.
#[verifier::external_body]
fn decode_rgba_image(bytes: &[u8]) -> (r: Option<(Vec<u8>, u32, u32)>)
    ensures
        r matches Some(t) ==> 4 * t.1 * t.2 <= t.0@.len() <= usize::MAX,
{
    image::io::Reader::new(std::io::Cursor::new(bytes))
        .with_guessed_format()
        .ok()
        .and_then(|r| r.decode().ok())
        .map(|i| i.into_rgba8())
        .map(|i| {
            let width = i.width();
            let height = i.height();
            (i.into_vec(), width, height)
        })
}

/// Accepts decoded pixel data as an icon exactly when it is tightly packed:
/// `rgba` holds four bytes per pixel and nothing more.
pub fn validate_icon(rgba: Vec<u8>, width: u32, height: u32) -> (r: Option<IconImage>)
    ensures
        match r {
            Some(icon) => {
                &&& icon.rgba@ == rgba@
                &&& icon.width == width
                &&& icon.height == height
                &&& icon_wf(icon)
            },
            None => rgba@.len() != 4 * width * height,
        },
{
    let len: usize = rgba.len();
    match (width as usize).checked_mul(height as usize) {
        Some(p) => {
            match p.checked_mul(4) {
                Some(n) => {
                    proof {
                        assert(n == 4 * width * height) by (nonlinear_arith)
                            requires
                                n == p * 4,
                                p == (width as usize) * (height as usize),
                                width as usize == width,
                                height as usize == height,
                        ;
                    }
                    if len == n {
                        Some(IconImage { rgba, width, height })
                    } else {
                        None
                    }
                },
                None => {
                    proof {
                        assert(rgba@.len() != 4 * width * height) by (nonlinear_arith)
                            requires
                                p * 4 > usize::MAX,
                                p == (width as usize) * (height as usize),
                                width as usize == width,
                                height as usize == height,
                                len == rgba@.len(),
                        ;
                    }
                    None
                },
            }
        },
        None => {
            proof {
                assert(rgba@.len() != 4 * width * height) by (nonlinear_arith)
                    requires
                        (width as usize) * (height as usize) > usize::MAX,
                        width as usize == width,
                        height as usize == height,
                        len == rgba@.len(),
                ;
            }
            None
        },
    }
}

/// Decodes an image file into a window icon. Whether the bytes decode at all
/// is the image library's decision; whatever it hands back is accepted only
/// as a well-formed icon.
pub fn load_icon_rgba(bytes: &[u8]) -> (r: Option<IconImage>)
    ensures
        r matches Some(icon) ==> icon_wf(icon),
{
    match decode_rgba_image(bytes) {
        Some((rgba, width, height)) => validate_icon(rgba, width, height),
        None => None,
    }
}

} // verus!
