//! The boundary to the `image` crate: PNG decoding and the grey-scale buffer
//! that holds a level's collision classes.
use vstd::prelude::*;

verus! {

/// A level's collision classes, one byte per pixel, held in an
/// `image::GrayImage`. Verus refuses a declaration of `ImageBuffer` itself
/// (its `Pixel` bound), so the buffer sits in this opaque struct.
#[verifier::external_body]
#[derive(Debug)]
pub struct GrayMap {
    img: image::GrayImage,
}

#[verifier::external_type_specification]
#[verifier::external_body]
pub struct ExImageError(image::ImageError);

/// Width and height of a grey-scale buffer.
pub uninterp spec fn gray_size(img: GrayMap) -> (u32, u32);

/// The value of each pixel of a grey-scale buffer, keyed by `(x, y)`.
pub uninterp spec fn gray_pixels(img: GrayMap) -> Map<(u32, u32), u8>;

/// What decoding `bytes` as a PNG gives: width, height and the RGBA bytes of
/// its rows, top row first, or `None` where the bytes are no PNG the decoder
/// accepts.
pub uninterp spec fn png_rgba(bytes: Seq<u8>) -> Option<(u32, u32, Seq<u8>)>;

/// Relies on `ImageBuffer::new`: a `width` by `height` buffer whose pixels are
/// all zero; it panics where the buffer length overflows `usize`.
#[verifier::external_body]
pub(crate) fn gray_new(width: u32, height: u32) -> (r: GrayMap)
    requires
        width as int * height as int <= usize::MAX,
    ensures
        gray_size(r) == (width, height),
        forall|x: u32, y: u32|
            x < width && y < height ==> #[trigger] gray_pixels(r)[(x, y)] == 0,
{
    GrayMap { img: image::GrayImage::new(width, height) }
}

/// Relies on `ImageBuffer::dimensions`: the buffer's width and height.
#[verifier::external_body]
pub(crate) fn gray_dims(img: &GrayMap) -> (r: (u32, u32))
    ensures
        r == gray_size(*img),
{
    img.img.dimensions()
}

/// Relies on `ImageBuffer::get_pixel`: the value at `(x, y)`; it panics
/// outside the buffer.
#[verifier::external_body]
pub(crate) fn gray_get(img: &GrayMap, x: u32, y: u32) -> (r: u8)
    requires
        x < gray_size(*img).0,
        y < gray_size(*img).1,
    ensures
        r == gray_pixels(*img)[(x, y)],
{
    img.img.get_pixel(x, y).0[0]
}

/// Relies on `ImageBuffer::put_pixel`: sets the value at `(x, y)`; it panics
/// outside the buffer.
#[verifier::external_body]
pub(crate) fn gray_put(img: &mut GrayMap, x: u32, y: u32, v: u8)
    requires
        x < gray_size(*old(img)).0,
        y < gray_size(*old(img)).1,
    ensures
        gray_size(*final(img)) == gray_size(*old(img)),
        gray_pixels(*final(img)) == gray_pixels(*old(img)).insert((x, y), v),
{
    img.img.put_pixel(x, y, image::Luma([v]))
}

/// Relies on `ImageReader::decode` with the PNG format and on
/// `DynamicImage::into_rgba8`: the image's width, height and RGBA bytes (four
/// to a pixel), or the decoder's error.
#[verifier::external_body]
pub(crate) fn decode_png_rgba(bytes: &[u8]) -> (r: Result<(u32, u32, Vec<u8>), image::ImageError>)
    ensures
        match r {
            Ok((w, h, px)) => png_rgba(bytes@) == Some((w, h, px@)) && px@.len() == 4 * (w * h),
            Err(_) => png_rgba(bytes@) is None,
        },
{
    let reader = image::ImageReader::with_format(std::io::Cursor::new(bytes), image::ImageFormat::Png);
    let img = reader.decode()?.into_rgba8();
    let (w, h) = img.dimensions();
    Ok((w, h, img.into_raw()))
}

} // verus!
