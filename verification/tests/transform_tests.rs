//! Tests for the transform stack, projection, and MVP computation.

use ggez::bootstrap::{AdapterInfo, AdapterKind, PresentMode, SurfaceCaps};
use ggez::conf::{WindowMode, WindowSetup};
use ggez::context::GraphicsContext;
use ggez::graphics;
use ggez::matrix::{mat_mul, Mat4, FX_ONE};
use ggez::types::Rect;

fn test_ctx() -> GraphicsContext {
    let setup = WindowSetup { vsync: true, srgb: false };
    let mode = WindowMode::default_mode();
    let adapters = vec![AdapterInfo {
        kind: AdapterKind::Discrete,
        supports_graphics: true,
        supports_present: true,
    }];
    let caps = SurfaceCaps {
        min_image_count: 2,
        max_image_count: 0,
        current_width: 800,
        current_height: 600,
    };
    let modes = vec![PresentMode::Fifo];
    GraphicsContext::new(&setup, &mode, &adapters, &caps, &modes).unwrap()
}

fn translation(x: i64, y: i64) -> Mat4 {
    let mut m = Mat4::identity();
    m.c3r0 = x;
    m.c3r1 = y;
    m
}

#[test]
fn test_stack_starts_at_identity() {
    let ctx = test_ctx();
    assert_eq!(ctx.modelview_stack.depth(), 1);
    assert_eq!(graphics::transform(&ctx), Mat4::identity());
}

#[test]
fn test_push_pop_scenario() {
    // Stack starts at [I].  push(A) makes [I, A]; popping twice leaves
    // [I]: the second pop is a no-op, with no panic.
    let mut ctx = test_ctx();
    let a = translation(5 * FX_ONE, 7 * FX_ONE);
    graphics::push_transform(&mut ctx, Some(a));
    assert_eq!(ctx.modelview_stack.depth(), 2);
    assert_eq!(graphics::transform(&ctx), a);
    graphics::pop_transform(&mut ctx);
    assert_eq!(ctx.modelview_stack.depth(), 1);
    assert_eq!(graphics::transform(&ctx), Mat4::identity());
    graphics::pop_transform(&mut ctx);
    assert_eq!(ctx.modelview_stack.depth(), 1);
    assert_eq!(graphics::transform(&ctx), Mat4::identity());
}

#[test]
fn test_push_without_matrix_duplicates_top() {
    let mut ctx = test_ctx();
    let a = translation(3 * FX_ONE, 0);
    graphics::push_transform(&mut ctx, Some(a));
    graphics::push_transform(&mut ctx, None);
    assert_eq!(ctx.modelview_stack.depth(), 3);
    assert_eq!(graphics::transform(&ctx), a);
}

#[test]
fn test_set_transform_overwrites_top() {
    let mut ctx = test_ctx();
    let a = translation(1, 2);
    graphics::set_transform(&mut ctx, a);
    assert_eq!(ctx.modelview_stack.depth(), 1);
    assert_eq!(graphics::transform(&ctx), a);
    graphics::origin(&mut ctx);
    assert_eq!(graphics::transform(&ctx), Mat4::identity());
}

#[test]
fn test_mul_transform_by_translation() {
    let mut ctx = test_ctx();
    let a = translation(2 * FX_ONE, 3 * FX_ONE);
    // The stack top is the identity, so the product is A itself.
    graphics::mul_transform(&mut ctx, a);
    assert_eq!(graphics::transform(&ctx), a);
}

#[test]
fn test_projection_set_and_get() {
    let mut ctx = test_ctx();
    let p = translation(-FX_ONE, FX_ONE);
    graphics::set_projection(&mut ctx, p);
    assert_eq!(graphics::projection(&ctx), p);
}

#[test]
fn test_mul_projection_by_identity_keeps_projection() {
    let mut ctx = test_ctx();
    let before = graphics::projection(&ctx);
    graphics::mul_projection(&mut ctx, Mat4::identity());
    assert_eq!(graphics::projection(&ctx), before);
}

#[test]
fn test_ortho_projection_values() {
    // For the rectangle (0, 0, 800, 600) the scale entries are
    // 2/800 and 2/600 (truncated fixed-point) and both translation
    // entries are -1: the top-left corner maps to clip (-1, -1).
    let mut ctx = test_ctx();
    let rect = Rect::new(0, 0, 800 * FX_ONE, 600 * FX_ONE);
    graphics::set_screen_coordinates(&mut ctx, rect).unwrap();
    assert_eq!(graphics::screen_coordinates(&ctx), rect);
    let p = graphics::projection(&ctx);
    assert_eq!(p.c0r0, 163);  // 2 * 65536 / 800, truncated
    assert_eq!(p.c1r1, 218);  // 2 * 65536 / 600, truncated
    assert_eq!(p.c2r2, -FX_ONE);
    assert_eq!(p.c3r0, -FX_ONE);
    assert_eq!(p.c3r1, -FX_ONE);
    assert_eq!(p.c3r3, FX_ONE);
    assert_eq!(p.c0r1, 0);
    assert_eq!(p.c3r2, 0);
}

#[test]
fn test_mvp_equals_projection_times_transform() {
    // recompute_mvp always equals projection * current transform,
    // evaluated at call time.
    let mut ctx = test_ctx();
    let t = translation(4 * FX_ONE, 9 * FX_ONE);
    graphics::set_transform(&mut ctx, t);
    graphics::apply_transformations(&mut ctx).unwrap();
    let expected = mat_mul(&graphics::projection(&ctx), &t);
    assert_eq!(ctx.mvp, expected);

    // After a push the MVP follows the new top once recomputed.
    let u = translation(-FX_ONE, 0);
    graphics::push_transform(&mut ctx, Some(u));
    graphics::apply_transformations(&mut ctx).unwrap();
    let expected2 = mat_mul(&graphics::projection(&ctx), &u);
    assert_eq!(ctx.mvp, expected2);
}

#[test]
fn test_identity_multiplication_is_exact() {
    let a = translation(123456, -654321);
    assert_eq!(mat_mul(&a, &Mat4::identity()), a);
    assert_eq!(mat_mul(&Mat4::identity(), &a), a);
}
