use vstd::prelude::*;
use crate::canvas::{Canvas, blank, blank_pixels, drawn, lemma_painted_push, on_grid, painted};
use crate::chaos::{chaos_points, lemma_walk_steps, random_corner, random_point, seeded_rng, walk};
use crate::geometry::{Corner, Point, in_bounds, step};

verus! {

/// Reasons a render is refused before any drawing.
#[derive(Clone, Copy, Debug, PartialEq, Eq, Structural)]
pub enum RenderError {
    /// The width or the height is zero.
    InvalidDimensions,
    /// The number of points to plot is zero.
    InvalidIterationCount,
    /// The pixel buffer would hold more bytes than memory can address.
    ImageTooLarge,
}

/// The pixels of a blank canvas on which every point of the walk from
/// `start` through `moves` has been painted in `color`.
pub open spec fn chaos_pixels(
    width: u32,
    height: u32,
    start: Point,
    moves: Seq<Corner>,
    color: [u8; 4],
) -> Map<(u32, u32), [u8; 4]> {
    painted(blank_pixels(width, height), walk(width, height, start, moves), color)
}

/// Whether an RGBA buffer of the given size can be addressed: the bytes of
/// one row, and of the whole image, fit in `usize`.
pub open spec fn fits(width: u32, height: u32) -> bool {
    4 * (width as int) <= usize::MAX && 4 * (width as int) * (height as int) <= usize::MAX
}

/// Paints the walk from `start` through `moves` on a blank canvas: the
/// start and one more point per move, so `moves.len() + 1` points in all.
pub fn render_walk(width: u32, height: u32, start: Point, moves: &Vec<Corner>, color: [u8; 4]) -> (r: Canvas)
    requires
        in_bounds(start, width, height),
        fits(width, height),
    ensures
        r.wf(),
        r.spec_width() == width,
        r.spec_height() == height,
        r.pixels() == chaos_pixels(width, height, start, moves@, color),
{
    let pts = chaos_points(width, height, start, moves);
    let mut canvas = Canvas::new(width, height);
    canvas.paint(&pts, color);
    canvas
}

/// Whether the buffer size fits, computed without overflow.
fn size_fits(width: u32, height: u32) -> (r: bool)
    ensures
        r == fits(width, height),
{
    let w = width as u128;
    let h = height as u128;
    assert(4 * w * h <= 4 * 0xffff_ffffu128 * 0xffff_ffffu128) by (nonlinear_arith)
        requires
            w <= 0xffff_ffffu128,
            h <= 0xffff_ffffu128,
    ;
    4 * w <= usize::MAX as u128 && 4 * w * h <= usize::MAX as u128
}

/// Renders the triangle with `n` points: a start drawn uniformly from the
/// canvas and `n - 1` moves, each towards a vertex drawn uniformly, with
/// all draws taken from a generator seeded with `seed`.
pub fn render(width: u32, height: u32, n: u32, color: [u8; 4], seed: u64) -> (r: Result<Canvas, RenderError>)
    ensures
        r == Err::<Canvas, RenderError>(RenderError::InvalidDimensions) <==> (width == 0 || height == 0),
        r == Err::<Canvas, RenderError>(RenderError::InvalidIterationCount) <==> (width > 0 && height > 0 && n == 0),
        r == Err::<Canvas, RenderError>(RenderError::ImageTooLarge) <==> (width > 0 && height > 0 && n > 0 && !fits(width, height)),
        r matches Ok(c) ==> {
            &&& c.wf()
            &&& c.spec_width() == width
            &&& c.spec_height() == height
            &&& exists|start: Point, moves: Seq<Corner>|
                in_bounds(start, width, height) && moves.len() == n - 1 && c.pixels() == chaos_pixels(
                    width,
                    height,
                    start,
                    moves,
                    color,
                )
        },
{
    if width == 0 || height == 0 {
        return Err(RenderError::InvalidDimensions);
    }
    if n == 0 {
        return Err(RenderError::InvalidIterationCount);
    }
    if !size_fits(width, height) {
        return Err(RenderError::ImageTooLarge);
    }
    let mut rng = seeded_rng(seed);
    let start = random_point(&mut rng, width, height);
    let mut canvas = Canvas::new(width, height);
    canvas.plot(start, color);
    let ghost moves: Seq<Corner> = Seq::empty();
    proof {
        lemma_walk_steps(width, height, start, moves);
        assert(walk(width, height, start, moves) == Seq::<Point>::empty().push(start));
        lemma_painted_push(blank_pixels(width, height), Seq::empty(), start, color);
        assert(painted(blank_pixels(width, height), Seq::empty(), color) =~= blank_pixels(width, height));
    }
    // Each move is drawn, taken and painted in turn, so that only the
    // current point is held.
    let mut cur = start;
    let mut i: u32 = 1;
    while i < n
        invariant
            1 <= i <= n,
            fits(width, height),
            canvas.wf(),
            canvas.spec_width() == width,
            canvas.spec_height() == height,
            in_bounds(start, width, height),
            in_bounds(cur, width, height),
            moves.len() == i - 1,
            cur == walk(width, height, start, moves).last(),
            canvas.pixels() == chaos_pixels(width, height, start, moves, color),
        decreases n - i,
    {
        let c = random_corner(&mut rng);
        let next = step(width, height, cur, c);
        canvas.plot(next, color);
        proof {
            let pts = walk(width, height, start, moves);
            assert(moves.push(c).drop_last() =~= moves);
            assert(walk(width, height, start, moves.push(c)) == pts.push(next));
            lemma_painted_push(blank_pixels(width, height), pts, next, color);
            moves = moves.push(c);
        }
        cur = next;
        i = i + 1;
    }
    Ok(canvas)
}

/// Reproducibility: the same start, moves and color give the same canvas, so
/// two renders that drew the same values are identical.
pub proof fn lemma_same_draws_same_canvas(
    c1: Canvas,
    c2: Canvas,
    width: u32,
    height: u32,
    start: Point,
    moves: Seq<Corner>,
    color: [u8; 4],
)
    requires
        c1.spec_width() == width && c1.spec_height() == height,
        c2.spec_width() == width && c2.spec_height() == height,
        c1.pixels() == chaos_pixels(width, height, start, moves, color),
        c2.pixels() == chaos_pixels(width, height, start, moves, color),
    ensures
        c1.pixels() == c2.pixels(),
        c1.spec_width() == c2.spec_width(),
        c1.spec_height() == c2.spec_height(),
{
}

/// At most two colors: every pixel of a rendered canvas is either blank or
/// the draw color.
pub proof fn lemma_two_colors(width: u32, height: u32, start: Point, moves: Seq<Corner>, color: [u8; 4])
    ensures
        forall|k: (u32, u32)|
            #[trigger] chaos_pixels(width, height, start, moves, color).dom().contains(k) ==> (
            chaos_pixels(width, height, start, moves, color)[k] == color || chaos_pixels(
                width,
                height,
                start,
                moves,
                color,
            )[k] == blank()),
{
}

/// A single point: with no moves, exactly the start is painted and every
/// other pixel of the canvas stays blank.
pub proof fn lemma_single_point(width: u32, height: u32, start: Point, color: [u8; 4])
    requires
        in_bounds(start, width, height),
    ensures
        forall|k: (u32, u32)|
            on_grid(k, width, height) ==> (drawn(walk(width, height, start, Seq::empty()), k) <==> k == (
            start.x,
            start.y,
        )),
        chaos_pixels(width, height, start, Seq::empty(), color)[(start.x, start.y)] == color,
        forall|k: (u32, u32)|
            on_grid(k, width, height) && k != (start.x, start.y) ==> #[trigger] chaos_pixels(
                width,
                height,
                start,
                Seq::empty(),
                color,
            )[k] == blank(),
{
    let w = walk(width, height, start, Seq::<Corner>::empty());
    lemma_walk_steps(width, height, start, Seq::<Corner>::empty());
    assert(w[0] == start);
    assert(drawn(w, (start.x, start.y)));
}

} // verus!
