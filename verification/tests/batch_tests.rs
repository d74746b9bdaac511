//! Tests for sprite batching and buffers.

use ggez::batch::DrawParam;
use ggez::bootstrap::{AdapterInfo, AdapterKind, PresentMode, SurfaceCaps};
use ggez::buffer::Buffer;
use ggez::conf::{WindowMode, WindowSetup};
use ggez::context::GraphicsContext;
use ggez::error::GameError;
use ggez::graphics;
use ggez::image::Image;
use ggez::matrix::FX_ONE;
use ggez::spritebatch::{SpriteBatch, SpriteIdx};

fn test_ctx() -> GraphicsContext {
    let setup = WindowSetup { vsync: true, srgb: false };
    let mode = WindowMode::default_mode();
    let adapters = vec![AdapterInfo {
        kind: AdapterKind::Discrete,
        supports_graphics: true,
        supports_present: true,
    }];
    let caps = SurfaceCaps {
        min_image_count: 2,
        max_image_count: 0,
        current_width: 800,
        current_height: 600,
    };
    let modes = vec![PresentMode::Fifo];
    GraphicsContext::new(&setup, &mode, &adapters, &caps, &modes).unwrap()
}

fn white_2x2() -> Image {
    Image::from_rgba8(2, 2, &vec![255u8; 16]).unwrap()
}

#[test]
fn test_spritebatch_add_returns_handles_in_order() {
    let mut batch = SpriteBatch::new(white_2x2());
    assert_eq!(batch.add(DrawParam::new()), SpriteIdx(0));
    assert_eq!(batch.add(DrawParam::new()), SpriteIdx(1));
    assert_eq!(batch.sprites.len(), 2);
}

#[test]
fn test_spritebatch_set_replaces_or_fails() {
    let mut batch = SpriteBatch::new(white_2x2());
    let idx = batch.add(DrawParam::new());
    let mut param = DrawParam::new();
    param.dest.x = 7 * FX_ONE;
    batch.set(idx, param).unwrap();
    assert_eq!(batch.sprites[0].dest.x, 7 * FX_ONE);
    match batch.set(SpriteIdx(5), param) {
        Err(GameError::RenderError(_)) => {},
        _ => panic!("expected a RenderError for an out-of-bounds index"),
    }
    assert_eq!(batch.sprites.len(), 1);
}

#[test]
fn test_spritebatch_clear_and_images() {
    let mut batch = SpriteBatch::new(white_2x2());
    batch.add(DrawParam::new());
    batch.clear();
    assert_eq!(batch.sprites.len(), 0);
    let other = Image::from_rgba8(1, 1, &vec![0u8; 4]).unwrap();
    let prev = batch.set_image(other);
    assert_eq!(prev.width(), 2);
    assert_eq!(batch.image.width(), 1);
    let inner = batch.into_inner();
    assert_eq!(inner.width(), 1);
}

#[test]
fn test_spritebatch_draw_scales_sprites_onto_pixels() {
    // A unit-scale sprite of the whole 2x2 texture gets a pixel scale
    // of 2: the instance transform's first column is (2, 0, 0, 0) in
    // fixed point.  If the fan-out handed parameters through
    // unchanged, the column would hold the unit scale instead.
    let mut ctx = test_ctx();
    let mut batch = SpriteBatch::new(white_2x2());
    let mut a = DrawParam::new();
    a.dest.x = 10 * FX_ONE;
    let mut b = DrawParam::new();
    b.dest.x = 20 * FX_ONE;
    b.scale.x = 3 * FX_ONE;
    batch.add(a);
    batch.add(b);
    graphics::draw(&mut ctx, &batch, DrawParam::new()).unwrap();
    assert_eq!(ctx.batch.len(), 2);
    // Records keep insertion order and carry the texture dimensions.
    assert_eq!(ctx.batch[0].instance.col4.x, 10 * FX_ONE);
    assert_eq!(ctx.batch[1].instance.col4.x, 20 * FX_ONE);
    assert_eq!(ctx.batch[0].texture_width, 2);
    assert_eq!(ctx.batch[0].instance.col1.x, 2 * FX_ONE);
    // Sprite b additionally scales by 3: total 6 pixels.
    assert_eq!(ctx.batch[1].instance.col1.x, 6 * FX_ONE);
    // The transform stack is back to its old depth after the draw.
    assert_eq!(ctx.modelview_stack.depth(), 1);
}

#[test]
fn test_image_draw_appends_one_record() {
    let mut ctx = test_ctx();
    let img = white_2x2();
    let mut param = DrawParam::new();
    param.src.w = FX_ONE / 2;  // left half of the texture
    graphics::draw(&mut ctx, &img, param).unwrap();
    assert_eq!(ctx.batch.len(), 1);
    // Pixel scale: 0.5 * 2 texels = 1 pixel.
    assert_eq!(ctx.batch[0].instance.col1.x, FX_ONE);
    assert_eq!(ctx.batch[0].instance.src.w, FX_ONE / 2);
}

#[test]
fn test_unit_quad_geometry() {
    let v = ggez::batch::quad_vertices();
    assert_eq!(v.len(), 4);
    assert_eq!(v[0].pos, ggez::types::Point2 { x: 0, y: 0 });
    assert_eq!(v[1].pos, ggez::types::Point2 { x: FX_ONE, y: 0 });
    assert_eq!(v[2].pos, ggez::types::Point2 { x: FX_ONE, y: FX_ONE });
    assert_eq!(v[3].pos, ggez::types::Point2 { x: 0, y: FX_ONE });
    assert_eq!(ggez::batch::quad_indices(), vec![0u16, 1, 2, 0, 2, 3]);
}

#[test]
fn test_buffer_round_trip_for_lengths_up_to_eight() {
    // update(data) followed by a read-back returns exactly data, for
    // any length.
    for n in 0..8usize {
        let data: Vec<u32> = (0..n as u32).map(|i| i * 11).collect();
        let mut buf: Buffer<u32> = Buffer::empty();
        buf.update(&data).unwrap();
        assert_eq!(buf.read_back(), data);
        assert_eq!(buf.count(), n);
    }
}

#[test]
fn test_buffer_new_uploads_data() {
    let buf = Buffer::new(&[5u8, 6, 7]).unwrap();
    assert_eq!(buf.read_back(), vec![5u8, 6, 7]);
    assert_eq!(buf.count(), 3);
}

#[test]
fn test_buffer_update_replaces_previous_contents() {
    let mut buf = Buffer::new(&[1u16, 2, 3]).unwrap();
    // Same length: an in-place copy.
    buf.update(&[4u16, 5, 6]).unwrap();
    assert_eq!(buf.read_back(), vec![4u16, 5, 6]);
    // Different length: the allocation is replaced.
    buf.update(&[9u16]).unwrap();
    assert_eq!(buf.read_back(), vec![9u16]);
    assert_eq!(buf.count(), 1);
}
