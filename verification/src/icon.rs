use image::DynamicImage;
use image::GenericImageView;
use vstd::prelude::*;

verus! {

#[verifier::external_type_specification]
#[verifier::external_body]
pub struct ExDynamicImage(DynamicImage);

/// Decodes an image with `image::load_from_memory`, which guesses the format;
/// `None` in place of its error. Nothing is claimed of the image: which
/// decoder runs can depend on hooks registered elsewhere in the process.
#[verifier::external_body]
fn load_image(bytes: &[u8]) -> Option<DynamicImage> {
    match image::load_from_memory(bytes) {
        Ok(img) => Some(img),
        Err(_) => None,
    }
}

/// `GenericImageView::dimensions`: the width and height of `img`. Nothing is
/// claimed of the values.
#[verifier::external_body]
fn image_dimensions(img: &DynamicImage) -> (u32, u32) {
    img.dimensions()
}

/// `DynamicImage::to_rgba8`: the pixels of `img` as 8-bit RGBA, taken as a
/// byte vector. Nothing is claimed of the bytes.
#[verifier::external_body]
fn image_rgba8(img: &DynamicImage) -> Vec<u8> {
    img.to_rgba8().to_vec()
}

/// The application icon as RGBA pixels, for the window and the tray.
pub struct IconImage {
    pub rgba: Vec<u8>,
    pub width: u32,
    pub height: u32,
}

/// `rgba` holds four bytes for each of the `width * height` pixels, as a
/// window icon needs.
pub open spec fn is_rgba_icon(rgba: Seq<u8>, width: u32, height: u32) -> bool {
    rgba.len() == 4 * width * height
}

/// Whether `rgba` has one four-byte pixel for each of the `width * height` pixels.
pub fn fits_icon(rgba: &Vec<u8>, width: u32, height: u32) -> (fits: bool)
    ensures
        fits == is_rgba_icon(rgba@, width, height),
{
    let len = rgba.len() as u64;
    proof {
        assert(0 <= width * height <= 0xffff_ffff * 0xffff_ffff) by (nonlinear_arith)
            requires
                width <= 0xffff_ffff,
                height <= 0xffff_ffff,
        ;
        assert(4 * width * height == 4 * (width * height)) by (nonlinear_arith);
    }
    let pixels = width as u64 * height as u64;
    if len % 4 != 0 {
        return false;
    }
    len / 4 == pixels
}

/// An icon of the given pixels and size, where the pixels make a `width` by
/// `height` RGBA image; `None` otherwise.
pub fn icon_from_rgba(rgba: Vec<u8>, width: u32, height: u32) -> (icon: Option<IconImage>)
    ensures
        (icon is Some) == is_rgba_icon(rgba@, width, height),
        icon matches Some(i) ==> i.rgba@ == rgba@ && i.width == width && i.height == height,
{
    if fits_icon(&rgba, width, height) {
        Some(IconImage { rgba, width, height })
    } else {
        None
    }
}

/// Decodes the icon's encoded bytes. `None` where they are not an image, or
/// where the decoded pixels do not make a `width` by `height` RGBA image; an
/// icon that comes back always does.
pub fn load_icon(bytes: &[u8]) -> (icon: Option<IconImage>)
    ensures
        icon matches Some(icon) ==> is_rgba_icon(icon.rgba@, icon.width, icon.height),
{
    match load_image(bytes) {
        Some(img) => {
            let (width, height) = image_dimensions(&img);
            let rgba = image_rgba8(&img);
            icon_from_rgba(rgba, width, height)
        },
        None => None,
    }
}

} // verus!
