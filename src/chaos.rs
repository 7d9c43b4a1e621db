use vstd::prelude::*;
use rand::Rng;
use rand::SeedableRng;
use crate::geometry::{Corner, Point, corner_of, corner_point, in_bounds, midpoint, spec_corner_of, step};

verus! {

#[verifier::external_type_specification]
#[verifier::external_body]
pub struct ExStdRng(rand::rngs::StdRng);

/// The points visited by the walk that starts at `start` and takes the
/// moves in order: the start itself, then one point per move.
pub open spec fn walk(width: u32, height: u32, start: Point, moves: Seq<Corner>) -> Seq<Point>
    decreases moves.len(),
{
    if moves.len() == 0 {
        seq![start]
    } else {
        let prev = walk(width, height, start, moves.drop_last());
        prev.push(midpoint(prev.last(), corner_point(width, height, moves.last())))
    }
}

/// The walk has one point more than it has moves; it begins at the start,
/// and each later point is the midpoint of the one before and the vertex
/// that was chosen.
pub proof fn lemma_walk_steps(width: u32, height: u32, start: Point, moves: Seq<Corner>)
    ensures
        walk(width, height, start, moves).len() == moves.len() + 1,
        walk(width, height, start, moves)[0] == start,
        forall|i: int|
            0 <= i < moves.len() ==> #[trigger] walk(width, height, start, moves)[i + 1] == midpoint(
                walk(width, height, start, moves)[i],
                corner_point(width, height, moves[i]),
            ),
    decreases moves.len(),
{
    if moves.len() > 0 {
        let prev = moves.drop_last();
        lemma_walk_steps(width, height, start, prev);
        let w = walk(width, height, start, moves);
        let pw = walk(width, height, start, prev);
        assert forall|i: int| 0 <= i < moves.len() implies #[trigger] w[i + 1] == midpoint(
            w[i],
            corner_point(width, height, moves[i]),
        ) by {
            if i < prev.len() {
                assert(w[i + 1] == pw[i + 1]);
                assert(moves[i] == prev[i]);
            }
        }
    }
}

/// Every point of a walk that starts on the canvas lies on the canvas.
pub proof fn lemma_walk_in_bounds(width: u32, height: u32, start: Point, moves: Seq<Corner>)
    requires
        in_bounds(start, width, height),
    ensures
        forall|i: int|
            0 <= i < walk(width, height, start, moves).len() ==> in_bounds(
                #[trigger] walk(width, height, start, moves)[i],
                width,
                height,
            ),
    decreases moves.len(),
{
    if moves.len() > 0 {
        let prev = moves.drop_last();
        lemma_walk_in_bounds(width, height, start, prev);
        lemma_walk_steps(width, height, start, prev);
        let pw = walk(width, height, start, prev);
        let w = walk(width, height, start, moves);
        let p = pw.last();
        let q = corner_point(width, height, moves.last());
        assert(in_bounds(p, width, height));
        assert(in_bounds(w.last(), width, height));
        assert forall|i: int| 0 <= i < w.len() implies in_bounds(#[trigger] w[i], width, height) by {
            if i < pw.len() {
                assert(w[i] == pw[i]);
            }
        }
    }
}

/// The points of the walk from `start` through `moves`.
pub fn chaos_points(width: u32, height: u32, start: Point, moves: &Vec<Corner>) -> (r: Vec<Point>)
    requires
        in_bounds(start, width, height),
    ensures
        r@ == walk(width, height, start, moves@),
        forall|i: int| 0 <= i < r.len() ==> in_bounds(#[trigger] r[i], width, height),
{
    let mut pts: Vec<Point> = Vec::new();
    pts.push(start);
    let mut cur = start;
    let mut i: usize = 0;
    proof {
        assert(moves@.take(0) =~= Seq::<Corner>::empty());
    }
    while i < moves.len()
        invariant
            0 <= i <= moves.len(),
            in_bounds(start, width, height),
            in_bounds(cur, width, height),
            pts@ == walk(width, height, start, moves@.take(i as int)),
            cur == pts@.last(),
        decreases moves.len() - i,
    {
        let ghost prev = pts@;
        cur = step(width, height, cur, moves[i]);
        pts.push(cur);
        proof {
            assert(moves@.take(i + 1).drop_last() =~= moves@.take(i as int));
            assert(moves@.take(i + 1).last() == moves@[i as int]);
            lemma_walk_steps(width, height, start, moves@.take(i as int));
        }
        i = i + 1;
    }
    proof {
        assert(moves@.take(moves.len() as int) =~= moves@);
        lemma_walk_in_bounds(width, height, start, moves@);
    }
    pts
}

/// Relies on `SeedableRng::seed_from_u64` for rand's `StdRng`: a generator
/// whose draws are fixed by the seed.
#[verifier::external_body]
pub(crate) fn seeded_rng(seed: u64) -> (r: rand::rngs::StdRng) {
    rand::rngs::StdRng::seed_from_u64(seed)
}

/// Relies on `Rng::gen_range` over `0..bound`: a draw below `bound`. It
/// panics on an empty range.
#[verifier::external_body]
fn draw_below(rng: &mut rand::rngs::StdRng, bound: u32) -> (r: u32)
    requires
        bound > 0,
    ensures
        r < bound,
{
    rng.gen_range(0..bound)
}

/// A vertex drawn uniformly from the three: the one that a uniform draw
/// from `0..3` selects.
pub fn random_corner(rng: &mut rand::rngs::StdRng) -> (r: Corner)
    ensures
        exists|k: u32| k < 3 && r == spec_corner_of(k),
{
    let k = draw_below(rng, 3);
    corner_of(k)
}

/// A point drawn uniformly from the canvas.
pub fn random_point(rng: &mut rand::rngs::StdRng, width: u32, height: u32) -> (r: Point)
    requires
        width > 0,
        height > 0,
    ensures
        in_bounds(r, width, height),
{
    let x = draw_below(rng, width);
    let y = draw_below(rng, height);
    Point { x, y }
}

/// `count` vertices drawn one after another.
pub fn random_moves(rng: &mut rand::rngs::StdRng, count: u32) -> (r: Vec<Corner>)
    ensures
        r.len() == count,
{
    let mut moves: Vec<Corner> = Vec::new();
    let mut i: u32 = 0;
    while i < count
        invariant
            i <= count,
            moves.len() == i,
        decreases count - i,
    {
        moves.push(random_corner(rng));
        i = i + 1;
    }
    moves
}

} // verus!
