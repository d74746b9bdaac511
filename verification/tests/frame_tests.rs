//! Tests for the frame cycle: swapchain lifecycle, batching, and
//! synchronization.

use ggez::batch::DrawParam;
use ggez::bootstrap::{AdapterInfo, AdapterKind, PresentMode, SurfaceCaps};
use ggez::conf::{WindowMode, WindowSetup};
use ggez::context::GraphicsContext;
use ggez::error::GameError;
use ggez::frame::{AcquireOutcome, FrameOutput, PresentOutcome, TickEvents};
use ggez::graphics;
use ggez::image::Image;
use ggez::matrix::FX_ONE;
use ggez::swapchain::SwapchainStatus;
use ggez::types::Color;

fn test_ctx(max_image_count: u32) -> GraphicsContext {
    let setup = WindowSetup { vsync: true, srgb: false };
    let mode = WindowMode::default_mode();
    let adapters = vec![AdapterInfo {
        kind: AdapterKind::Discrete,
        supports_graphics: true,
        supports_present: true,
    }];
    let caps = SurfaceCaps {
        min_image_count: 2,
        max_image_count,
        current_width: 800,
        current_height: 600,
    };
    let modes = vec![PresentMode::Fifo];
    GraphicsContext::new(&setup, &mode, &adapters, &caps, &modes).unwrap()
}

fn ok_events(image_index: usize) -> TickEvents {
    TickEvents {
        surface_width: 800,
        surface_height: 600,
        acquire: AcquireOutcome::Acquired(image_index),
        fence_wait_completed: true,
        present: PresentOutcome::Completed,
    }
}

#[test]
fn test_resize_marks_stale_and_present_recreates() {
    // notify_resize(800, 600) while the swapchain is valid makes it
    // StaleOnResize; the next present cycle recreates it to the
    // surface extent and clears the staleness.
    let mut ctx = test_ctx(0);
    assert_eq!(ctx.swapchain.status, SwapchainStatus::Valid);
    ctx.notify_resize(800, 600);
    assert_eq!(ctx.swapchain.status, SwapchainStatus::StaleOnResize);
    let out = graphics::present(&mut ctx, &ok_events(0)).unwrap();
    assert!(matches!(out, FrameOutput::Submitted { .. }));
    assert_eq!(ctx.swapchain.status, SwapchainStatus::Valid);
    assert_eq!(ctx.swapchain.width, 800);
    assert_eq!(ctx.swapchain.height, 600);
}

#[test]
fn test_five_draws_submit_one_buffer_in_order() {
    // begin_frame, five draws, present: exactly one primary command
    // buffer with exactly five records in issue order, and the batch
    // is empty immediately after.
    let mut ctx = test_ctx(0);
    let img = Image::from_rgba8(1, 1, &vec![255u8; 4]).unwrap();
    graphics::clear(&mut ctx, Color::black());
    for i in 0..5i64 {
        let mut param = DrawParam::new();
        param.dest.x = i * FX_ONE;
        graphics::draw(&mut ctx, &img, param).unwrap();
    }
    assert_eq!(ctx.batch.len(), 5);
    let out = graphics::present(&mut ctx, &ok_events(1)).unwrap();
    match out {
        FrameOutput::Submitted { image_index, commands, displayed } => {
            assert_eq!(image_index, 1);
            assert!(displayed);
            assert_eq!(commands.framebuffer_index, 1);
            assert_eq!(commands.clear_color, Color::black());
            assert_eq!(commands.records.len(), 5);
            for i in 0..5i64 {
                assert_eq!(commands.records[i as usize].instance.col4.x, i * FX_ONE);
            }
        },
        FrameOutput::Skipped => panic!("expected a submission"),
    }
    assert_eq!(ctx.batch.len(), 0);
}

#[test]
fn test_batch_dropped_when_acquire_goes_stale() {
    // A frame abandoned mid-acquire drops its recorded work; nothing
    // is replayed.
    let mut ctx = test_ctx(0);
    let img = Image::from_rgba8(1, 1, &vec![255u8; 4]).unwrap();
    graphics::clear(&mut ctx, Color::white());
    graphics::draw(&mut ctx, &img, DrawParam::new()).unwrap();
    assert_eq!(ctx.batch.len(), 1);
    let ev = TickEvents {
        acquire: AcquireOutcome::OutOfDate,
        ..ok_events(0)
    };
    let out = graphics::present(&mut ctx, &ev).unwrap();
    assert!(matches!(out, FrameOutput::Skipped));
    assert_eq!(ctx.batch.len(), 0);
    assert_eq!(ctx.swapchain.status, SwapchainStatus::StaleOnAcquire);
}

#[test]
fn test_degenerate_extent_retries_next_tick() {
    // A minimized window (zero extent) keeps the swapchain in
    // StaleOnResize without error; the old extent stays.
    let mut ctx = test_ctx(0);
    ctx.notify_resize(0, 0);
    let ev = TickEvents {
        surface_width: 0,
        surface_height: 0,
        ..ok_events(0)
    };
    let out = graphics::present(&mut ctx, &ev).unwrap();
    assert!(matches!(out, FrameOutput::Skipped));
    assert_eq!(ctx.swapchain.status, SwapchainStatus::StaleOnResize);
    assert_eq!(ctx.swapchain.width, 800);
    assert_eq!(ctx.swapchain.height, 600);
}

#[test]
fn test_present_out_of_date_loses_frame_without_error() {
    let mut ctx = test_ctx(0);
    let ev = TickEvents {
        present: PresentOutcome::OutOfDate,
        ..ok_events(0)
    };
    let out = graphics::present(&mut ctx, &ev).unwrap();
    match out {
        FrameOutput::Submitted { displayed, .. } => assert!(!displayed),
        FrameOutput::Skipped => panic!("expected a submission"),
    }
    assert_eq!(ctx.swapchain.status, SwapchainStatus::StaleOnAcquire);
}

#[test]
fn test_slot_reuse_waits_for_fence() {
    // With two slots, the third frame reuses the first slot.  If its
    // fence has not signaled and the wait does not complete within
    // the bound, the cycle fails fatally; if the wait completes, the
    // frame proceeds.
    let mut ctx = test_ctx(2);
    assert_eq!(ctx.swapchain.image_count, 2);
    graphics::present(&mut ctx, &ok_events(0)).unwrap();
    graphics::present(&mut ctx, &ok_events(1)).unwrap();
    let stuck = TickEvents {
        fence_wait_completed: false,
        ..ok_events(0)
    };
    match graphics::present(&mut ctx, &stuck) {
        Err(GameError::SynchronizationTimeout(_)) => {},
        _ => panic!("expected a SynchronizationTimeout"),
    }
    // A wait that completes lets the slot be reused.
    let mut ctx2 = test_ctx(2);
    graphics::present(&mut ctx2, &ok_events(0)).unwrap();
    graphics::present(&mut ctx2, &ok_events(1)).unwrap();
    let out = graphics::present(&mut ctx2, &ok_events(0)).unwrap();
    assert!(matches!(out, FrameOutput::Submitted { .. }));
}

#[test]
fn test_wait_idle_settles_all_fences() {
    let mut ctx = test_ctx(2);
    graphics::present(&mut ctx, &ok_events(0)).unwrap();
    graphics::present(&mut ctx, &ok_events(1)).unwrap();
    // Both slots are in flight; a wait that exceeds its bound is fatal.
    match ctx.wait_idle(false) {
        Err(GameError::SynchronizationTimeout(_)) => {},
        _ => panic!("expected a SynchronizationTimeout"),
    }
    // A completed idle wait settles every fence: the next frame reuses
    // a slot without waiting at all.
    ctx.wait_idle(true).unwrap();
    let no_wait = TickEvents {
        fence_wait_completed: false,
        ..ok_events(0)
    };
    let out = graphics::present(&mut ctx, &no_wait).unwrap();
    assert!(matches!(out, FrameOutput::Submitted { .. }));
}

#[test]
fn test_clear_sets_color_and_resets_batch() {
    let mut ctx = test_ctx(0);
    let img = Image::from_rgba8(1, 1, &vec![255u8; 4]).unwrap();
    graphics::draw(&mut ctx, &img, DrawParam::new()).unwrap();
    graphics::clear(&mut ctx, Color { r: 10, g: 20, b: 30, a: 255 });
    assert_eq!(ctx.batch.len(), 0);
    assert_eq!(ctx.clear_color, Color { r: 10, g: 20, b: 30, a: 255 });
}

#[test]
fn test_set_mode_queues_window_commands_and_marks_stale() {
    let mut ctx = test_ctx(0);
    let mut mode = WindowMode::default_mode();
    mode.width = 1024;
    mode.height = 768;
    graphics::set_mode(&mut ctx, mode).unwrap();
    assert_eq!(ctx.window_mode.width, 1024);
    assert_eq!(ctx.swapchain.status, SwapchainStatus::StaleOnResize);
    assert!(!ctx.window_commands.is_empty());
    // The shorthand setters queue the collaborator commands too: for a
    // windowed mode the last queued request is the new inner size.
    let before = ctx.window_commands.len();
    graphics::set_resolution(&mut ctx, 640, 480).unwrap();
    assert!(ctx.window_commands.len() > before);
    assert_eq!(
        ctx.window_commands.last().unwrap(),
        &ggez::conf::WindowCommand::SetInnerSize(640, 480)
    );
    graphics::set_resizable(&mut ctx, true).unwrap();
    assert!(ctx.window_mode.resizable);
    graphics::set_fullscreen(&mut ctx, ggez::conf::FullscreenType::True).unwrap();
    assert_eq!(ctx.window_mode.fullscreen_type, ggez::conf::FullscreenType::True);
    assert_eq!(
        ctx.window_commands.last().unwrap(),
        &ggez::conf::WindowCommand::SetInnerSize(640, 480)
    );
    graphics::set_window_title(&mut ctx, "hello");
    match ctx.window_commands.last().unwrap() {
        ggez::conf::WindowCommand::SetTitle(s) => assert_eq!(s.as_str(), "hello"),
        _ => panic!("expected a SetTitle command"),
    }
    graphics::set_window_icon(&mut ctx, Some("icon.png")).unwrap();
    match ctx.window_commands.last().unwrap() {
        ggez::conf::WindowCommand::SetIcon(Some(s)) => assert_eq!(s.as_str(), "icon.png"),
        _ => panic!("expected a SetIcon command"),
    }
    graphics::set_window_icon(&mut ctx, None).unwrap();
    assert_eq!(
        ctx.window_commands.last().unwrap(),
        &ggez::conf::WindowCommand::SetIcon(None)
    );
}
