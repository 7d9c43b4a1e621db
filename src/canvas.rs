use vstd::prelude::*;
use crate::geometry::Point;

verus! {

/// An RGBA image of the image crate, with one byte per channel. Its size
/// and pixels are known through `image_dims` and `image_pixels`, and it is
/// read and written only through the functions below.
#[verifier::external_body]
pub struct RgbaBuffer {
    img: image::RgbaImage,
}

#[verifier::external_type_specification]
#[verifier::external_body]
pub struct ExImageError(image::ImageError);

/// The width and height that an RGBA image buffer was made with.
pub uninterp spec fn image_dims(img: RgbaBuffer) -> (u32, u32);

/// The pixels of an RGBA image buffer, keyed by `(x, y)`.
pub uninterp spec fn image_pixels(img: RgbaBuffer) -> Map<
    (u32, u32),
    [u8; 4],
>;

/// The PNG file that the image crate writes for an RGBA image of the given
/// size and pixels.
pub uninterp spec fn png_of(width: u32, height: u32, pixels: Map<(u32, u32), [u8; 4]>) -> Seq<u8>;

/// The color of a pixel that was never painted.
pub open spec fn blank() -> [u8; 4] {
    [0u8, 0u8, 0u8, 0u8]
}

/// The positions of a canvas of the given size.
pub open spec fn on_grid(k: (u32, u32), width: u32, height: u32) -> bool {
    k.0 < width && k.1 < height
}

/// A canvas of the given size with every pixel blank.
pub open spec fn blank_pixels(width: u32, height: u32) -> Map<(u32, u32), [u8; 4]> {
    Map::new(|k: (u32, u32)| on_grid(k, width, height), |k: (u32, u32)| blank())
}

/// Whether some point of `pts` lies at position `k`.
pub open spec fn drawn(pts: Seq<Point>, k: (u32, u32)) -> bool {
    exists|i: int| 0 <= i < pts.len() && #[trigger] pts[i] == Point { x: k.0, y: k.1 }
}

/// `pixels` with every position of `pts` set to `color`.
pub open spec fn painted(pixels: Map<(u32, u32), [u8; 4]>, pts: Seq<Point>, color: [u8; 4]) -> Map<
    (u32, u32),
    [u8; 4],
> {
    Map::new(
        |k: (u32, u32)| pixels.dom().contains(k),
        |k: (u32, u32)|
            if drawn(pts, k) {
                color
            } else {
                pixels[k]
            },
    )
}

/// Painting one more point on the canvas sets that one pixel.
pub proof fn lemma_painted_push(
    pixels: Map<(u32, u32), [u8; 4]>,
    pts: Seq<Point>,
    p: Point,
    color: [u8; 4],
)
    requires
        pixels.dom().contains((p.x, p.y)),
    ensures
        painted(pixels, pts.push(p), color) == painted(pixels, pts, color).insert((p.x, p.y), color),
{
    let next = pts.push(p);
    assert forall|k: (u32, u32)| drawn(next, k) <==> (drawn(pts, k) || k == (p.x, p.y)) by {
        if k == (p.x, p.y) {
            assert(next[pts.len() as int] == Point { x: k.0, y: k.1 });
        }
        if drawn(pts, k) {
            let j = choose|j: int| 0 <= j < pts.len() && #[trigger] pts[j] == Point { x: k.0, y: k.1 };
            assert(next[j] == pts[j]);
        }
        if drawn(next, k) && k != (p.x, p.y) {
            let j = choose|j: int| 0 <= j < next.len() && #[trigger] next[j] == Point { x: k.0, y: k.1 };
            assert(pts[j] == next[j]);
        }
    }
    assert(painted(pixels, next, color) =~= painted(pixels, pts, color).insert((p.x, p.y), color));
}

/// Relies on `ImageBuffer::new`: an image of the given size whose pixels are
/// all zero. It panics when `4 * width`, or that times `height`, overflows
/// `usize`.
#[verifier::external_body]
fn new_image(width: u32, height: u32) -> (r: RgbaBuffer)
    requires
        4 * (width as int) <= usize::MAX,
        4 * (width as int) * (height as int) <= usize::MAX,
    ensures
        image_dims(r) == (width, height),
        image_pixels(r) == blank_pixels(width, height),
{
    RgbaBuffer { img: image::ImageBuffer::new(width, height) }
}

/// Relies on `ImageBuffer::put_pixel`: sets the pixel at `(x, y)` and
/// leaves the others. It panics outside the image.
#[verifier::external_body]
fn image_put(img: &mut RgbaBuffer, x: u32, y: u32, c: [u8; 4])
    requires
        x < image_dims(*old(img)).0,
        y < image_dims(*old(img)).1,
    ensures
        image_dims(*final(img)) == image_dims(*old(img)),
        image_pixels(*final(img)) == image_pixels(*old(img)).insert((x, y), c),
{
    img.img.put_pixel(x, y, image::Rgba(c))
}

/// Relies on `ImageBuffer::get_pixel`: the pixel at `(x, y)`. It panics
/// outside the image.
#[verifier::external_body]
fn image_get(img: &RgbaBuffer, x: u32, y: u32) -> (r: [u8; 4])
    requires
        x < image_dims(*img).0,
        y < image_dims(*img).1,
    ensures
        r == image_pixels(*img)[(x, y)],
{
    img.img.get_pixel(x, y).0
}

/// Relies on `ImageBuffer::write_to` with `ImageFormat::Png`: the PNG
/// encoding of the image, written into memory. Writing into a `Vec` cannot
/// fail, and the png encoder refuses only a zero width or height.
#[verifier::external_body]
fn image_png(img: &RgbaBuffer) -> (r: Result<Vec<u8>, image::ImageError>)
    ensures
        r is Ok <==> (image_dims(*img).0 > 0 && image_dims(*img).1 > 0),
        r is Ok ==> r->Ok_0@ == png_of(image_dims(*img).0, image_dims(*img).1, image_pixels(*img)),
{
    let mut out = std::io::Cursor::new(Vec::new());
    img.img.write_to(&mut out, image::ImageFormat::Png).map(|_| out.into_inner())
}

/// An RGBA pixel buffer of fixed size.
pub struct Canvas {
    width: u32,
    height: u32,
    img: RgbaBuffer,
}

impl Canvas {
    pub closed spec fn spec_width(&self) -> u32 {
        self.width
    }

    pub closed spec fn spec_height(&self) -> u32 {
        self.height
    }

    /// The color of each position, keyed by `(x, y)`.
    pub closed spec fn pixels(&self) -> Map<(u32, u32), [u8; 4]> {
        image_pixels(self.img)
    }

    /// The buffer has the recorded size, and holds a color at exactly the
    /// positions of the canvas.
    pub closed spec fn wf(&self) -> bool {
        &&& image_dims(self.img) == (self.width, self.height)
        &&& forall|k: (u32, u32)|
            #[trigger] image_pixels(self.img).dom().contains(k) <==> on_grid(k, self.width, self.height)
    }

    /// A blank canvas of the given size.
    pub fn new(width: u32, height: u32) -> (r: Canvas)
        requires
            4 * (width as int) <= usize::MAX,
            4 * (width as int) * (height as int) <= usize::MAX,
        ensures
            r.wf(),
            r.spec_width() == width,
            r.spec_height() == height,
            r.pixels() == blank_pixels(width, height),
    {
        Canvas { width, height, img: new_image(width, height) }
    }

    pub fn width(&self) -> (r: u32)
        ensures
            r == self.spec_width(),
    {
        self.width
    }

    pub fn height(&self) -> (r: u32)
        ensures
            r == self.spec_height(),
    {
        self.height
    }

    /// The color at `(x, y)`.
    pub fn pixel(&self, x: u32, y: u32) -> (r: [u8; 4])
        requires
            self.wf(),
            x < self.spec_width(),
            y < self.spec_height(),
        ensures
            r == self.pixels()[(x, y)],
    {
        image_get(&self.img, x, y)
    }

    /// Sets the pixel at `p` to `color`; the other pixels keep their color.
    pub fn plot(&mut self, p: Point, color: [u8; 4])
        requires
            old(self).wf(),
            p.x < old(self).spec_width(),
            p.y < old(self).spec_height(),
        ensures
            final(self).wf(),
            final(self).spec_width() == old(self).spec_width(),
            final(self).spec_height() == old(self).spec_height(),
            final(self).pixels() == old(self).pixels().insert((p.x, p.y), color),
    {
        image_put(&mut self.img, p.x, p.y, color);
    }

    /// Sets every position of `pts` to `color`; the other pixels keep their
    /// color.
    pub fn paint(&mut self, pts: &Vec<Point>, color: [u8; 4])
        requires
            old(self).wf(),
            forall|i: int|
                0 <= i < pts.len() ==> #[trigger] pts[i].x < old(self).spec_width() && pts[i].y
                    < old(self).spec_height(),
        ensures
            final(self).wf(),
            final(self).spec_width() == old(self).spec_width(),
            final(self).spec_height() == old(self).spec_height(),
            final(self).pixels() == painted(old(self).pixels(), pts@, color),
    {
        let ghost start = self.pixels();
        let mut i: usize = 0;
        while i < pts.len()
            invariant
                self.wf(),
                self.width == old(self).width,
                self.height == old(self).height,
                0 <= i <= pts.len(),
                forall|j: int|
                    0 <= j < pts.len() ==> #[trigger] pts[j].x < self.width && pts[j].y
                        < self.height,
                start == old(self).pixels(),
                self.pixels() == painted(start, pts@.take(i as int), color),
            decreases pts.len() - i,
        {
            let p = pts[i];
            assert(image_pixels(self.img).dom().contains((p.x, p.y)));
            image_put(&mut self.img, p.x, p.y, color);
            proof {
                assert(pts@.take(i + 1) == pts@.take(i as int).push(p));
                lemma_painted_push(start, pts@.take(i as int), p, color);
                assert(self.pixels() =~= painted(start, pts@.take(i + 1), color));
            }
            i = i + 1;
        }
        assert(pts@.take(pts.len() as int) == pts@);
    }

    /// The canvas as a PNG file, with all four channels of every pixel. It
    /// fails exactly on a canvas with no pixels.
    pub fn encode_png(&self) -> (r: Result<Vec<u8>, CanvasError>)
        requires
            self.wf(),
        ensures
            r is Ok <==> (self.spec_width() > 0 && self.spec_height() > 0),
            r matches Ok(bytes) ==> bytes@ == png_of(self.spec_width(), self.spec_height(), self.pixels()),
    {
        match image_png(&self.img) {
            Ok(bytes) => Ok(bytes),
            Err(_) => Err(CanvasError::Encoding),
        }
    }
}

/// Failures of the canvas.
#[derive(Clone, Copy, Debug, PartialEq, Eq, Structural)]
pub enum CanvasError {
    /// The image crate could not serialise the pixel buffer.
    Encoding,
}

} // verus!
