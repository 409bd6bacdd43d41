//! The per-frame protocol: begin/end, capacity checking, padding, color
//! conversion, text measurement, and surface acquisition.

use framebatch::color::Color;
use framebatch::present::{acquire_step, AcquireAction, AcquireOutcome};
use framebatch::renderer::{FrameError, FramePlan, Phase, Renderer, MAX_INDICES, MAX_VERTICES};
use framebatch::FX_ONE;

const PX: i64 = FX_ONE;

fn white() -> Color {
    Color { red: 255, green: 255, blue: 255, alpha: 255 }
}

fn draw_one_rect(r: &mut Renderer) {
    r.draw_rectangle(5 * PX, 5 * PX, 10 * PX, 10 * PX, white(), 0);
}

fn plans_equal(a: &FramePlan, b: &FramePlan) -> bool {
    a.vertices == b.vertices && a.indices == b.indices && a.clear == b.clear
}

#[test]
fn begin_twice_equals_begin_once() {
    let mut a = Renderer::new(800, 600);
    a.begin_drawing();
    a.begin_drawing();
    draw_one_rect(&mut a);
    let plan_a = a.end_drawing().unwrap();

    let mut b = Renderer::new(800, 600);
    b.begin_drawing();
    draw_one_rect(&mut b);
    let plan_b = b.end_drawing().unwrap();

    assert!(plans_equal(&plan_a, &plan_b));
}

#[test]
fn begin_clears_previous_batch() {
    let mut r = Renderer::new(800, 600);
    r.begin_drawing();
    draw_one_rect(&mut r);
    r.begin_drawing();
    assert!(r.batch.vertices.is_empty());
    assert!(r.batch.indices.is_empty());
    assert_eq!(r.batch.cursor, 0);
    assert_eq!(r.phase, Phase::Batching);
}

#[test]
fn vertex_capacity_violation_reports_excess() {
    // 2 rectangles and 339 triangles assemble 1025 vertices, one past
    // the 1024 capacity: the frame is refused, naming the overflow.
    let mut r = Renderer::new(800, 600);
    r.begin_drawing();
    draw_one_rect(&mut r);
    draw_one_rect(&mut r);
    for _ in 0..339 {
        r.draw_triangle(PX, PX, 2 * PX, PX, PX, 2 * PX, white(), 0);
    }
    assert_eq!(r.batch.vertices.len(), 1025);
    let result = r.end_drawing();
    assert_eq!(result.unwrap_err(), FrameError::VertexOverflow { excess: 1 });
    // The failed frame is consumed; the renderer is idle and reusable.
    assert!(r.batch.vertices.is_empty());
    assert_eq!(r.phase, Phase::Idle);
}

#[test]
fn index_capacity_violation_reports_excess() {
    // 256 rectangles fill the vertex buffer exactly but want 1536
    // indices: 512 more than the index buffer holds.
    let mut r = Renderer::new(800, 600);
    r.begin_drawing();
    for _ in 0..256 {
        draw_one_rect(&mut r);
    }
    assert_eq!(r.batch.vertices.len(), MAX_VERTICES);
    assert_eq!(r.batch.indices.len(), 1536);
    let result = r.end_drawing();
    assert_eq!(result.unwrap_err(), FrameError::IndexOverflow { excess: 512 });
}

#[test]
fn full_buffers_still_submit() {
    // 170 rectangles: 680 vertices, 1020 indices; both under capacity.
    let mut r = Renderer::new(800, 600);
    r.begin_drawing();
    for _ in 0..170 {
        draw_one_rect(&mut r);
    }
    let plan = r.end_drawing().unwrap();
    assert_eq!(plan.vertices.len(), 680);
    assert_eq!(plan.indices.len(), 1020);
    assert!(plan.indices.len() <= MAX_INDICES);
}

#[test]
fn odd_index_count_gets_one_zero_pad() {
    let mut r = Renderer::new(800, 600);
    r.begin_drawing();
    r.draw_triangle(PX, PX, 2 * PX, PX, PX, 2 * PX, white(), 0);
    let plan = r.end_drawing().unwrap();
    // Three real indices, padded to four for aligned 32-bit writes; the
    // pad is the never-referenced zero index.
    assert_eq!(plan.indices.len(), 4);
    assert_eq!(plan.indices[3], 0);
    assert_eq!(&plan.indices[0..3], &[0, 1, 2]);
}

#[test]
fn empty_frame_submits_nothing() {
    let mut r = Renderer::new(800, 600);
    r.begin_drawing();
    let plan = r.end_drawing().unwrap();
    assert!(plan.vertices.is_empty());
    assert!(plan.indices.is_empty());
}

#[test]
fn clear_color_is_palette_linear_background() {
    // The plan's clear color must be palette's linear conversion of the
    // sRGB background constant — not the raw bytes.
    let mut r = Renderer::new(800, 600);
    r.begin_drawing();
    let plan = r.end_drawing().unwrap();
    let lin: palette::LinSrgba = palette::Srgba::new(67u8, 140u8, 127u8, 1u8).into_linear();
    assert_eq!(plan.clear.red_bits, lin.red.to_bits());
    assert_eq!(plan.clear.green_bits, lin.green.to_bits());
    assert_eq!(plan.clear.blue_bits, lin.blue.to_bits());
    assert_eq!(plan.clear.alpha_bits, lin.alpha.to_bits());
    assert_ne!(plan.clear.red_bits, 67);
}

#[test]
fn vertex_colors_convert_to_linear_once() {
    let mut r = Renderer::new(800, 600);
    r.begin_drawing();
    r.draw_rectangle(0, 0, PX, PX, Color { red: 255, green: 0, blue: 128, alpha: 255 }, 0);
    let plan = r.end_drawing().unwrap();
    let lin: palette::LinSrgba = palette::Srgba::new(255u8, 0u8, 128u8, 255u8).into_linear();
    let v = plan.vertices[0];
    assert_eq!(v.red_bits, lin.red.to_bits());
    assert_eq!(v.green_bits, lin.green.to_bits());
    assert_eq!(v.blue_bits, lin.blue.to_bits());
    assert_eq!(v.alpha_bits, lin.alpha.to_bits());
    assert_eq!(v.red_bits, 1.0f32.to_bits());
    assert_eq!(v.green_bits, 0.0f32.to_bits());
    assert_ne!(v.blue_bits, 128);
}

#[test]
fn resize_changes_transform_only() {
    let mut r = Renderer::new(800, 600);
    r.begin_drawing();
    draw_one_rect(&mut r);
    let before = r.batch.vertices.clone();
    r.resize(400, 300);
    assert_eq!(r.batch.vertices, before);
    assert_eq!(r.phase, Phase::Batching);
    assert_eq!(r.to_ndc(400 * PX, 300 * PX), (FX_ONE, -FX_ONE));
}

#[test]
fn measure_text_empty_is_zero() {
    let r = Renderer::new(800, 600);
    assert_eq!(r.measure_text("", 32 * PX, 32 * PX), 0);
}

#[test]
fn measure_text_monotone_in_length() {
    let r = Renderer::new(800, 600);
    let fs = 32 * PX;
    let mut last = 0;
    for text in ["a", "ab", "abc", "abcd"] {
        let w = r.measure_text(text, fs, fs);
        assert!(w >= last);
        last = w;
    }
}

#[test]
fn measure_text_takes_longest_line() {
    let r = Renderer::new(800, 600);
    let fs = 32 * PX;
    // Half the font size per byte: 16 pixels per glyph.
    assert_eq!(r.measure_text("Pong\nGame", fs, fs), 4 * 16 * PX);
    assert_eq!(r.measure_text("ab\nlonger", fs, fs), 6 * 16 * PX);
    assert_eq!(r.measure_text("wide line\nx", fs, fs), 9 * 16 * PX);
}

#[test]
fn draw_text_lays_out_quads() {
    let mut r = Renderer::new(800, 600);
    r.begin_drawing();
    let fs = 32 * PX;
    // "ab c" is three glyphs and one blank: three quads.
    r.draw_text("ab c", 0, 0, fs, fs, None);
    assert_eq!(r.batch.vertices.len(), 12);
    assert_eq!(r.batch.indices.len(), 18);

    // A newline returns the pen to the left edge, one line down.
    let mut s = Renderer::new(800, 600);
    s.begin_drawing();
    s.draw_text("a\nb", 10 * PX, 0, fs, fs, None);
    let mut t = Renderer::new(800, 600);
    t.begin_drawing();
    t.draw_rectangle(10 * PX, 0, fs / 2, fs, white(), 0);
    t.draw_rectangle(10 * PX, fs, fs / 2, fs, white(), 0);
    assert_eq!(s.batch.vertices, t.batch.vertices);
}

#[test]
fn draw_text_takes_style_color() {
    let mut r = Renderer::new(800, 600);
    r.begin_drawing();
    let gold = Color { red: 200, green: 180, blue: 40, alpha: 255 };
    r.draw_text("x", 0, 0, 32 * PX, 32 * PX, Some(gold));
    assert_eq!(r.batch.vertices[0].color, gold);
}

#[test]
fn outdated_then_granted_presents_once() {
    // The surface reports outdated once; after one reconfiguration the
    // retry succeeds and exactly one frame is presented.
    let outcomes = [AcquireOutcome::OutdatedOrLost, AcquireOutcome::Granted];
    let mut retries = 0u32;
    let mut presented = 0u32;
    let mut gave_up = false;
    for outcome in outcomes {
        match acquire_step(outcome, retries) {
            AcquireAction::UseTexture => {
                presented += 1;
                break;
            }
            AcquireAction::ReconfigureAndRetry => {
                retries += 1;
            }
            AcquireAction::GiveUp => {
                gave_up = true;
                break;
            }
        }
    }
    assert_eq!(presented, 1);
    assert_eq!(retries, 1);
    assert!(!gave_up);
}

#[test]
fn acquisition_never_retries_twice() {
    assert_eq!(
        acquire_step(AcquireOutcome::OutdatedOrLost, 0),
        AcquireAction::ReconfigureAndRetry
    );
    assert_eq!(acquire_step(AcquireOutcome::OutdatedOrLost, 1), AcquireAction::GiveUp);
    assert_eq!(acquire_step(AcquireOutcome::Failed, 0), AcquireAction::GiveUp);
    assert_eq!(acquire_step(AcquireOutcome::Granted, 0), AcquireAction::UseTexture);
    assert_eq!(acquire_step(AcquireOutcome::Granted, 1), AcquireAction::UseTexture);
}

#[test]
fn index_space_cap_stops_appends() {
    // The batch stops accepting primitives once the 16-bit index space
    // is full; the oversized frame is then refused at end_drawing.
    let mut r = Renderer::new(800, 600);
    r.begin_drawing();
    for _ in 0..16384 {
        draw_one_rect(&mut r);
    }
    // 16383 rectangles fit (65532 vertices); the last would need 65536.
    assert_eq!(r.batch.vertices.len(), 65532);
    let result = r.end_drawing();
    assert_eq!(
        result.unwrap_err(),
        FrameError::VertexOverflow { excess: 65532 - MAX_VERTICES }
    );
}
