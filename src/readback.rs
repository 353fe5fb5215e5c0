//! Turning the padded rows read back from an offscreen texture into an RGBA8
//! image of the texture's own width.
use vstd::prelude::*;

use crate::backend::{padded_row, readback_layout, BYTES_PER_PIXEL};

verus! {

/// The top-left `width` by `height` pixels of an RGBA8 image whose rows are
/// `padded_width` pixels long, row by row.
pub open spec fn cropped(data: Seq<u8>, padded_width: int, width: int, height: int) -> Seq<u8> {
    Seq::new(
        (4 * width * height) as nat,
        |i: int| data[4 * ((i / 4) / width * padded_width + (i / 4) % width) + i % 4],
    )
}

/// Relies on image's `ImageBuffer::from_raw`, `imageops::crop_imm` and
/// `SubImage::to_image` on RGBA8 pixels: a buffer of at least
/// `4 * padded_width * height` bytes is accepted, and cropping at the origin to
/// a width within the image copies those pixels, row by row.
#[verifier::external_body]
fn crop_rgba(data: Vec<u8>, padded_width: u32, width: u32, height: u32) -> (r: Vec<u8>)
    requires
        4 * padded_width * height <= data@.len(),
        width <= padded_width,
    ensures
        r@ == cropped(data@, padded_width as int, width as int, height as int),
{
    let padded = image::ImageBuffer::<image::Rgba<u8>, Vec<u8>>::from_raw(
        padded_width,
        height,
        data,
    ).unwrap();
    image::imageops::crop_imm(&padded, 0, 0, width, height).to_image().into_raw()
}

/// The image of `width` by `height` pixels held in `data`, a readback whose
/// rows are padded to `alignment` bytes. `None` where a padded row does not fit
/// in `u32` or `data` is shorter than the padded image.
pub fn readback_image(width: u32, height: u32, alignment: u32, data: Vec<u8>) -> (r: Option<
    Vec<u8>,
>)
    requires
        alignment > 0,
    ensures
        r is None <==> (padded_row(width, alignment) > u32::MAX || data@.len()
            < padded_row(width, alignment) * height),
        r matches Some(image) ==> image@ == cropped(
            data@,
            padded_row(width, alignment) / 4,
            width as int,
            height as int,
        ),
{
    match readback_layout(width, height, alignment) {
        None => None,
        Some(layout) => {
            if (data.len() as u64) < layout.buffer_size {
                return None;
            }
            let padded_width = layout.padded_bytes_per_row / BYTES_PER_PIXEL;
            assert(padded_width * 4 <= layout.padded_bytes_per_row);
            proof {
                assert(4 * padded_width * height <= layout.padded_bytes_per_row * height)
                    by (nonlinear_arith)
                    requires
                        padded_width * 4 <= layout.padded_bytes_per_row,
                ;
            }
            Some(crop_rgba(data, padded_width, width, height))
        },
    }
}

} // verus!
