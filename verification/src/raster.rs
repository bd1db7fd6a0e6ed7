use vstd::prelude::*;

verus! {

/// An image of four 16-bit channels per pixel, kept in an
/// `image::ImageBuffer`.
#[verifier::external_body]
pub struct Rgba64Image {
    buffer: image::ImageBuffer<image::Rgba<u16>, Vec<u16>>,
}

/// An image of four 8-bit channels per pixel, kept in an
/// `image::ImageBuffer`.
#[verifier::external_body]
pub struct RgbaImage {
    buffer: image::ImageBuffer<image::Rgba<u8>, Vec<u8>>,
}

/// The pixels of a 16-bit image: `(x, y)`, column then row, to the four
/// channels red, green, blue, alpha. Its domain is the image's grid.
pub uninterp spec fn rgba16_pixels(img: Rgba64Image) -> Map<(int, int), (u16, u16, u16, u16)>;

/// The pixels of an 8-bit image: `(x, y)`, column then row, to the four
/// channels red, green, blue, alpha. Its domain is the image's grid.
pub uninterp spec fn rgba8_pixels(img: RgbaImage) -> Map<(int, int), (u8, u8, u8, u8)>;

/// The positions of an image `width` pixels wide and `height` pixels high.
pub open spec fn grid(width: int, height: int) -> Set<(int, int)> {
    Set::new(|p: (int, int)| 0 <= p.0 < width && 0 <= p.1 < height)
}

/// `image::ImageBuffer::new` for 16-bit RGBA. The crate allocates
/// `4 * width * height` zeroed samples and panics when that count overflows
/// or the vector cannot be that long, which the precondition excludes. The
/// contract claims that every position of the grid then holds four zeros.
#[verifier::external_body]
pub(crate) fn new_rgba16(width: u32, height: u32) -> (img: Rgba64Image)
    requires
        8 * width * height <= isize::MAX,
    ensures
        rgba16_pixels(img).dom() == grid(width as int, height as int),
        forall|x: int, y: int|
            0 <= x < width && 0 <= y < height ==> #[trigger] rgba16_pixels(img)[(x, y)] == (
                0u16,
                0u16,
                0u16,
                0u16,
            ),
{
    Rgba64Image { buffer: image::ImageBuffer::new(width, height) }
}

/// `image::ImageBuffer::put_pixel` for 16-bit RGBA. The crate panics when
/// `(x, y)` lies outside the image, which the precondition excludes. The
/// contract claims that the pixel at `(x, y)` becomes `pixel` and that no
/// other pixel changes.
#[verifier::external_body]
pub(crate) fn put_rgba16(img: &mut Rgba64Image, x: u32, y: u32, pixel: (u16, u16, u16, u16))
    requires
        rgba16_pixels(*old(img)).dom().contains((x as int, y as int)),
    ensures
        rgba16_pixels(*final(img)) == rgba16_pixels(*old(img)).insert((x as int, y as int), pixel),
{
    img.buffer.put_pixel(x, y, image::Rgba([pixel.0, pixel.1, pixel.2, pixel.3]));
}

/// `image::ImageBuffer::get_pixel` for 16-bit RGBA. The crate panics when
/// `(x, y)` lies outside the image, which the precondition excludes. The
/// contract claims that the four channels returned are those of the pixel at
/// `(x, y)`.
#[verifier::external_body]
pub(crate) fn get_rgba16(img: &Rgba64Image, x: u32, y: u32) -> (pixel: (u16, u16, u16, u16))
    requires
        rgba16_pixels(*img).dom().contains((x as int, y as int)),
    ensures
        pixel == rgba16_pixels(*img)[(x as int, y as int)],
{
    let p = img.buffer.get_pixel(x, y);
    (p.0[0], p.0[1], p.0[2], p.0[3])
}

/// `image::ImageBuffer::new` for 8-bit RGBA. The crate allocates
/// `4 * width * height` zeroed samples and panics when that count overflows
/// or the vector cannot be that long, which the precondition excludes. The
/// contract claims that every position of the grid then holds four zeros.
#[verifier::external_body]
pub(crate) fn new_rgba8(width: u32, height: u32) -> (img: RgbaImage)
    requires
        4 * width * height <= isize::MAX,
    ensures
        rgba8_pixels(img).dom() == grid(width as int, height as int),
        forall|x: int, y: int|
            0 <= x < width && 0 <= y < height ==> #[trigger] rgba8_pixels(img)[(x, y)] == (
                0u8,
                0u8,
                0u8,
                0u8,
            ),
{
    RgbaImage { buffer: image::ImageBuffer::new(width, height) }
}

/// `image::ImageBuffer::put_pixel` for 8-bit RGBA. The crate panics when
/// `(x, y)` lies outside the image, which the precondition excludes. The
/// contract claims that the pixel at `(x, y)` becomes `pixel` and that no
/// other pixel changes.
#[verifier::external_body]
pub(crate) fn put_rgba8(img: &mut RgbaImage, x: u32, y: u32, pixel: (u8, u8, u8, u8))
    requires
        rgba8_pixels(*old(img)).dom().contains((x as int, y as int)),
    ensures
        rgba8_pixels(*final(img)) == rgba8_pixels(*old(img)).insert((x as int, y as int), pixel),
{
    img.buffer.put_pixel(x, y, image::Rgba([pixel.0, pixel.1, pixel.2, pixel.3]));
}

/// `image::ImageBuffer::get_pixel` for 8-bit RGBA. The crate panics when
/// `(x, y)` lies outside the image, which the precondition excludes. The
/// contract claims that the four channels returned are those of the pixel at
/// `(x, y)`.
#[verifier::external_body]
pub(crate) fn get_rgba8(img: &RgbaImage, x: u32, y: u32) -> (pixel: (u8, u8, u8, u8))
    requires
        rgba8_pixels(*img).dom().contains((x as int, y as int)),
    ensures
        pixel == rgba8_pixels(*img)[(x as int, y as int)],
{
    let p = img.buffer.get_pixel(x, y);
    (p.0[0], p.0[1], p.0[2], p.0[3])
}

/// `image::ImageBuffer::dimensions` for 16-bit RGBA: the width, then the
/// height. The contract claims that the image's pixels are the positions of
/// a grid that wide and that high.
#[verifier::external_body]
pub(crate) fn dimensions_rgba16(img: &Rgba64Image) -> (d: (u32, u32))
    ensures
        rgba16_pixels(*img).dom() == grid(d.0 as int, d.1 as int),
{
    img.buffer.dimensions()
}

impl Rgba64Image {
    /// The width and the height of the image.
    pub fn dimensions(&self) -> (d: (u32, u32))
        ensures
            rgba16_pixels(*self).dom() == grid(d.0 as int, d.1 as int),
    {
        dimensions_rgba16(self)
    }

    /// The pixel at column `x`, row `y`, or `None` outside the image.
    pub fn pixel(&self, x: u32, y: u32) -> (p: Option<(u16, u16, u16, u16)>)
        ensures
            p == if rgba16_pixels(*self).dom().contains((x as int, y as int)) {
                Some(rgba16_pixels(*self)[(x as int, y as int)])
            } else {
                None
            },
    {
        let (width, height) = dimensions_rgba16(self);
        if x < width && y < height {
            Some(get_rgba16(self, x, y))
        } else {
            None
        }
    }
}

/// `image::ImageBuffer::dimensions` for 8-bit RGBA: the width, then the
/// height. The contract claims that the image's pixels are the positions of
/// a grid that wide and that high.
#[verifier::external_body]
pub(crate) fn dimensions_rgba8(img: &RgbaImage) -> (d: (u32, u32))
    ensures
        rgba8_pixels(*img).dom() == grid(d.0 as int, d.1 as int),
{
    img.buffer.dimensions()
}

impl RgbaImage {
    /// The width and the height of the image.
    pub fn dimensions(&self) -> (d: (u32, u32))
        ensures
            rgba8_pixels(*self).dom() == grid(d.0 as int, d.1 as int),
    {
        dimensions_rgba8(self)
    }

    /// The pixel at column `x`, row `y`, or `None` outside the image.
    pub fn pixel(&self, x: u32, y: u32) -> (p: Option<(u8, u8, u8, u8)>)
        ensures
            p == if rgba8_pixels(*self).dom().contains((x as int, y as int)) {
                Some(rgba8_pixels(*self)[(x as int, y as int)])
            } else {
                None
            },
    {
        let (width, height) = dimensions_rgba8(self);
        if x < width && y < height {
            Some(get_rgba8(self, x, y))
        } else {
            None
        }
    }
}

} // verus!
