use rand::SeedableRng;
use sierpinski::canvas::{Canvas, CanvasError};
use sierpinski::chaos::{chaos_points, random_corner, random_moves, random_point};
use sierpinski::geometry::{corner_of, corner_point_exec, corners, step, Corner, Point};
use sierpinski::render::{render, render_walk, RenderError};

const RED: [u8; 4] = [255, 0, 0, 255];
const BLANK: [u8; 4] = [0, 0, 0, 0];

fn pt(x: u32, y: u32) -> Point {
    Point { x, y }
}

fn all_pixels(c: &Canvas) -> Vec<[u8; 4]> {
    let mut out = Vec::new();
    for y in 0..c.height() {
        for x in 0..c.width() {
            out.push(c.pixel(x, y));
        }
    }
    out
}

fn drawn_positions(c: &Canvas, color: [u8; 4]) -> Vec<(u32, u32)> {
    let mut out = Vec::new();
    for y in 0..c.height() {
        for x in 0..c.width() {
            if c.pixel(x, y) == color {
                out.push((x, y));
            }
        }
    }
    out
}

#[test]
fn corners_of_ten_by_ten() {
    assert_eq!(corners(10, 10), [pt(0, 10), pt(10, 10), pt(5, 0)]);
}

#[test]
fn corners_floor_the_top_center() {
    assert_eq!(corners(7, 4), [pt(0, 4), pt(7, 4), pt(3, 0)]);
    assert_eq!(corner_point_exec(7, 4, Corner::Top), pt(3, 0));
}

#[test]
fn step_moves_halfway_rounding_down() {
    assert_eq!(step(10, 10, pt(3, 7), Corner::Top), pt(4, 3));
    assert_eq!(step(10, 10, pt(3, 7), Corner::BottomLeft), pt(1, 8));
    assert_eq!(step(10, 10, pt(9, 9), Corner::BottomRight), pt(9, 9));
}

#[test]
fn step_stays_in_bounds_at_the_largest_size() {
    let m = u32::MAX;
    let p = step(m, m, pt(m - 1, m - 1), Corner::BottomRight);
    assert_eq!(p, pt(m - 1, m - 1));
}

#[test]
fn walk_matches_fixture() {
    let moves = vec![Corner::Top, Corner::BottomLeft, Corner::BottomRight, Corner::Top];
    let pts = chaos_points(10, 10, pt(3, 7), &moves);
    assert_eq!(pts, vec![pt(3, 7), pt(4, 3), pt(2, 6), pt(6, 8), pt(5, 4)]);
}

#[test]
fn walk_without_moves_is_the_start() {
    assert_eq!(chaos_points(10, 10, pt(3, 7), &vec![]), vec![pt(3, 7)]);
}

#[test]
fn render_walk_paints_exactly_the_walk() {
    let moves = vec![Corner::Top, Corner::BottomLeft, Corner::BottomRight, Corner::Top];
    let c = render_walk(10, 10, pt(3, 7), &moves, RED);
    assert_eq!((c.width(), c.height()), (10, 10));
    let mut expected = vec![(3, 7), (4, 3), (2, 6), (6, 8), (5, 4)];
    expected.sort_by_key(|&(x, y)| (y, x));
    assert_eq!(drawn_positions(&c, RED), expected);
    assert_eq!(drawn_positions(&c, BLANK).len(), 95);
}

#[test]
fn render_walk_repeated_point_is_painted_once() {
    // (9, 9) towards the bottom-right vertex stays at (9, 9).
    let moves = vec![Corner::BottomRight, Corner::BottomRight];
    let c = render_walk(10, 10, pt(9, 9), &moves, RED);
    assert_eq!(drawn_positions(&c, RED), vec![(9, 9)]);
}

#[test]
fn paint_sets_only_the_given_points() {
    let mut c = Canvas::new(3, 2);
    assert!(all_pixels(&c).iter().all(|p| *p == BLANK));
    c.paint(&vec![pt(2, 1), pt(0, 0)], RED);
    c.paint(&vec![pt(2, 1)], [1, 2, 3, 4]);
    assert_eq!(c.pixel(0, 0), RED);
    assert_eq!(c.pixel(2, 1), [1, 2, 3, 4]);
    assert_eq!(c.pixel(1, 0), BLANK);
    assert_eq!(c.pixel(1, 1), BLANK);
}

#[test]
fn seeded_render_is_reproducible() {
    let a = render(10, 10, 5, RED, 42).ok().unwrap();
    let b = render(10, 10, 5, RED, 42).ok().unwrap();
    assert_eq!(all_pixels(&a), all_pixels(&b));
}

#[test]
fn seeded_render_scenario() {
    let c = render(10, 10, 5, RED, 42).ok().unwrap();
    assert_eq!((c.width(), c.height()), (10, 10));
    let drawn = drawn_positions(&c, RED);
    assert!(!drawn.is_empty() && drawn.len() <= 5);
    assert!(drawn.iter().all(|&(x, y)| x < 10 && y < 10));
    assert_eq!(drawn.len() + drawn_positions(&c, BLANK).len(), 100);
}

#[test]
fn seeded_render_follows_the_same_draws() {
    let mut rng = rand::rngs::StdRng::seed_from_u64(42);
    let start = random_point(&mut rng, 10, 10);
    let moves = random_moves(&mut rng, 4);
    let expected = render_walk(10, 10, start, &moves, RED);
    let got = render(10, 10, 5, RED, 42).ok().unwrap();
    assert_eq!(all_pixels(&got), all_pixels(&expected));
}

#[test]
fn render_uses_at_most_two_colors() {
    let c = render(64, 48, 5000, [10, 20, 30, 40], 7).ok().unwrap();
    assert!(all_pixels(&c).iter().all(|p| *p == BLANK || *p == [10, 20, 30, 40]));
}

#[test]
fn render_points_stay_in_bounds() {
    let mut rng = rand::rngs::StdRng::seed_from_u64(3);
    for _ in 0..20 {
        let start = random_point(&mut rng, 5, 3);
        let moves = random_moves(&mut rng, 50);
        let pts = chaos_points(5, 3, start, &moves);
        assert_eq!(pts.len(), 51);
        assert!(pts.iter().all(|p| p.x < 5 && p.y < 3));
    }
}

#[test]
fn single_point_render_draws_one_pixel() {
    let c = render(10, 10, 1, RED, 42).ok().unwrap();
    assert_eq!(drawn_positions(&c, RED).len(), 1);
    assert_eq!(drawn_positions(&c, BLANK).len(), 99);
}

#[test]
fn one_by_one_canvas() {
    let c = render(1, 1, 100, RED, 9).ok().unwrap();
    assert_eq!(all_pixels(&c), vec![RED]);
}

#[test]
fn zero_width_is_rejected() {
    assert!(matches!(render(0, 10, 5, RED, 1), Err(RenderError::InvalidDimensions)));
    assert!(matches!(render(10, 0, 5, RED, 1), Err(RenderError::InvalidDimensions)));
}

#[test]
fn zero_points_is_rejected() {
    assert!(matches!(render(10, 10, 0, RED, 1), Err(RenderError::InvalidIterationCount)));
}

#[test]
fn oversized_image_is_rejected() {
    assert!(matches!(render(u32::MAX, u32::MAX, 5, RED, 1), Err(RenderError::ImageTooLarge)));
}

#[test]
fn random_draws_are_in_range() {
    let mut rng = rand::rngs::StdRng::seed_from_u64(11);
    let mut seen = [false; 3];
    for _ in 0..200 {
        let p = random_point(&mut rng, 4, 2);
        assert!(p.x < 4 && p.y < 2);
        match random_corner(&mut rng) {
            Corner::BottomLeft => seen[0] = true,
            Corner::BottomRight => seen[1] = true,
            Corner::Top => seen[2] = true,
        }
    }
    assert_eq!(seen, [true, true, true]);
    assert_eq!(random_moves(&mut rng, 0).len(), 0);
    assert_eq!(random_moves(&mut rng, 17).len(), 17);
}

#[test]
fn png_round_trip_keeps_size_and_channels() {
    let c = render(13, 9, 200, [12, 34, 56, 78], 5).ok().unwrap();
    let bytes = c.encode_png().ok().unwrap();
    assert_eq!(&bytes[..8], &[0x89, b'P', b'N', b'G', 0x0d, 0x0a, 0x1a, 0x0a]);
    let decoded = image::load_from_memory(&bytes).unwrap().to_rgba8();
    assert_eq!(decoded.dimensions(), (13, 9));
    for y in 0..9 {
        for x in 0..13 {
            assert_eq!(decoded.get_pixel(x, y).0, c.pixel(x, y));
        }
    }
}

#[test]
fn draws_select_corners_in_order() {
    assert_eq!(corner_of(0), Corner::BottomLeft);
    assert_eq!(corner_of(1), Corner::BottomRight);
    assert_eq!(corner_of(2), Corner::Top);
}

#[test]
fn plot_sets_one_pixel() {
    let mut c = Canvas::new(4, 4);
    c.plot(pt(1, 2), RED);
    assert_eq!(drawn_positions(&c, RED), vec![(1, 2)]);
    assert_eq!(drawn_positions(&c, BLANK).len(), 15);
}

#[test]
fn empty_canvas_cannot_be_encoded() {
    assert!(matches!(Canvas::new(0, 5).encode_png(), Err(CanvasError::Encoding)));
    assert!(matches!(Canvas::new(5, 0).encode_png(), Err(CanvasError::Encoding)));
    assert!(Canvas::new(1, 1).encode_png().is_ok());
}
