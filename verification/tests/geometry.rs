//! Geometry of the assembler: the pixel-to-device transform, rotation,
//! and the per-shape vertex/index patterns.

use framebatch::color::Color;
use framebatch::renderer::Renderer;
use framebatch::trig::{rotation_from_millidegrees, Rotation};
use framebatch::FX_ONE;

const PX: i64 = FX_ONE;

fn red() -> Color {
    Color { red: 255, green: 0, blue: 0, alpha: 255 }
}

fn as_f64(fx: i64) -> f64 {
    fx as f64 / FX_ONE as f64
}

#[test]
fn ndc_of_surface_corners() {
    let r = Renderer::new(800, 600);
    assert_eq!(r.to_ndc(0, 0), (-FX_ONE, FX_ONE));
    assert_eq!(r.to_ndc(800 * PX, 600 * PX), (FX_ONE, -FX_ONE));
    let (cx, cy) = r.to_ndc(400 * PX, 300 * PX);
    assert_eq!((cx, cy), (0, 0));
}

#[test]
fn rectangle_scenario_800x600() {
    // Window 800x600, a 20x100 rectangle at the origin, no rotation:
    // top-left lands at (-1.0, 1.0), bottom-right near (-0.95, 0.667).
    let mut r = Renderer::new(800, 600);
    r.begin_drawing();
    r.draw_rectangle(0, 0, 20 * PX, 100 * PX, red(), 0);
    assert_eq!(r.batch.vertices.len(), 4);
    let tl = r.batch.vertices[0];
    let br = r.batch.vertices[2];
    assert!((as_f64(tl.x) - (-1.0)).abs() < 1e-3);
    assert!((as_f64(tl.y) - 1.0).abs() < 1e-3);
    assert!((as_f64(br.x) - (-0.95)).abs() < 1e-3);
    assert!((as_f64(br.y) - 0.667).abs() < 1e-3);
    assert_eq!(r.batch.indices, vec![2, 1, 0, 3, 2, 0]);
    let plan = r.end_drawing().unwrap();
    assert_eq!(plan.vertices.len(), 4);
    assert_eq!(plan.vertices[0].x, tl.x);
    assert_eq!(plan.vertices[0].y, tl.y);
}

#[test]
fn rectangle_unrotated_corners_closed_form() {
    // Every corner of an unrotated rectangle matches the direct
    // transform of the corner point.
    let mut r = Renderer::new(640, 480);
    r.begin_drawing();
    let (x, y, w, h) = (30 * PX, 40 * PX, 50 * PX, 60 * PX);
    r.draw_rectangle(x, y, w, h, red(), 0);
    let expect = [
        r.to_ndc(x, y),
        r.to_ndc(x + w, y),
        r.to_ndc(x + w, y + h),
        r.to_ndc(x, y + h),
    ];
    for k in 0..4 {
        assert_eq!((r.batch.vertices[k].x, r.batch.vertices[k].y), expect[k]);
    }
}

#[test]
fn full_turn_matches_zero_rotation() {
    let mut a = Renderer::new(800, 600);
    let mut b = Renderer::new(800, 600);
    a.begin_drawing();
    b.begin_drawing();
    a.draw_rectangle(100 * PX, 50 * PX, 20 * PX, 100 * PX, red(), 0);
    b.draw_rectangle(100 * PX, 50 * PX, 20 * PX, 100 * PX, red(), 360_000);
    assert_eq!(a.batch.vertices, b.batch.vertices);
    assert_eq!(a.batch.indices, b.batch.indices);
}

#[test]
fn rotation_exact_quadrants() {
    assert_eq!(rotation_from_millidegrees(0), Rotation { cos: FX_ONE, sin: 0 });
    assert_eq!(rotation_from_millidegrees(90_000), Rotation { cos: 0, sin: FX_ONE });
    assert_eq!(rotation_from_millidegrees(180_000), Rotation { cos: -FX_ONE, sin: 0 });
    assert_eq!(rotation_from_millidegrees(270_000), Rotation { cos: 0, sin: -FX_ONE });
    assert_eq!(rotation_from_millidegrees(360_000), rotation_from_millidegrees(0));
    // Bhaskara's approximation is exact at 30 degrees: sin is one half.
    assert_eq!(rotation_from_millidegrees(30_000).sin, FX_ONE / 2);
    // Negative angles reduce onto the same turn.
    assert_eq!(
        rotation_from_millidegrees(-90_000),
        rotation_from_millidegrees(270_000)
    );
}

#[test]
fn rotated_rectangle_quarter_turn() {
    // A quarter turn about the centroid swaps the rectangle's extents.
    let mut a = Renderer::new(400, 400);
    a.begin_drawing();
    a.draw_rectangle(100 * PX, 100 * PX, 40 * PX, 20 * PX, red(), 90_000);
    let mut b = Renderer::new(400, 400);
    b.begin_drawing();
    b.draw_rectangle(110 * PX, 90 * PX, 20 * PX, 40 * PX, red(), 0);
    let rot: Vec<(i64, i64)> = a.batch.vertices.iter().map(|v| (v.x, v.y)).collect();
    let straight: Vec<(i64, i64)> = b.batch.vertices.iter().map(|v| (v.x, v.y)).collect();
    // Corner 0 of the rotated rectangle is corner 1 of the straight one,
    // and so on around the quad.
    for k in 0..4 {
        let (rx, ry) = rot[k];
        let (sx, sy) = straight[(k + 1) % 4];
        assert!((as_f64(rx) - as_f64(sx)).abs() < 1e-3);
        assert!((as_f64(ry) - as_f64(sy)).abs() < 1e-3);
    }
}

#[test]
fn triangle_keeps_caller_order() {
    let mut r = Renderer::new(200, 200);
    r.begin_drawing();
    r.draw_triangle(10 * PX, 10 * PX, 50 * PX, 10 * PX, 30 * PX, 60 * PX, red(), 0);
    assert_eq!(r.batch.vertices.len(), 3);
    assert_eq!(r.batch.indices, vec![0, 1, 2]);
    assert_eq!(
        (r.batch.vertices[0].x, r.batch.vertices[0].y),
        r.to_ndc(10 * PX, 10 * PX)
    );
}

#[test]
fn circle_fan_is_closed_and_whole() {
    let mut r = Renderer::new(800, 600);
    r.begin_drawing();
    r.draw_circle(400 * PX, 300 * PX, 20 * PX, red());
    assert_eq!(r.batch.vertices.len(), 37);
    assert_eq!(r.batch.indices.len(), 108);
    assert_eq!(r.batch.indices.len() % 3, 0);
    for &i in &r.batch.indices {
        assert!((i as usize) < r.batch.vertices.len());
    }
    // The fan starts at the center and every third index returns there.
    assert_eq!(
        (r.batch.vertices[0].x, r.batch.vertices[0].y),
        r.to_ndc(400 * PX, 300 * PX)
    );
    for t in 0..36 {
        assert_eq!(r.batch.indices[3 * t], 0);
    }
    // The last triangle wraps around to the first ring point.
    assert_eq!(r.batch.indices[106], 1);
}

#[test]
fn degenerate_extents_stay_silent() {
    // Zero and negative extents must not fail; they only produce
    // zero-area or back-facing geometry.
    let mut r = Renderer::new(100, 100);
    r.begin_drawing();
    r.draw_rectangle(10 * PX, 10 * PX, 0, 0, red(), 0);
    r.draw_rectangle(10 * PX, 10 * PX, -5 * PX, 7 * PX, red(), 0);
    r.draw_circle(50 * PX, 50 * PX, 0, red());
    r.draw_circle(50 * PX, 50 * PX, -3 * PX, red());
    assert!(r.end_drawing().is_ok());
}

#[test]
fn batch_indices_always_whole_triangles() {
    // Across a mixed frame, the index count stays a multiple of three
    // and every index points at an already-appended vertex.
    let mut r = Renderer::new(800, 600);
    r.begin_drawing();
    r.draw_rectangle(0, 0, 20 * PX, 100 * PX, red(), 0);
    r.draw_triangle(10 * PX, 10 * PX, 50 * PX, 10 * PX, 30 * PX, 60 * PX, red(), 15_000);
    r.draw_circle(400 * PX, 300 * PX, 20 * PX, red());
    r.draw_text("P1: 0", 0, 0, 32 * PX, 32 * PX, None);
    assert_eq!(r.batch.indices.len() % 3, 0);
    assert_eq!(r.batch.cursor as usize, r.batch.vertices.len());
    for &i in &r.batch.indices {
        assert!((i as usize) < r.batch.vertices.len());
    }
}
