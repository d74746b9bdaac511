//! The graphics context: the single owner of the renderer's state.
//!
//! Exactly one `GraphicsContext` exists per running application.  It
//! owns the swapchain model, the per-frame synchronization slots, the
//! transform and projection state, the pending draw batch, and the
//! requests queued for the external windowing collaborator.
//!
//! The driver calls `begin_frame`, any number of draw calls, then
//! `end_frame`, which runs the acquire / record / submit / present
//! cycle; its exact behavior is the pure transition `frame::tick`.

use vstd::prelude::*;
use vstd::string::StringExecFns;
use crate::batch::DrawRecord;
use crate::bootstrap::{
    choose_image_count, choose_present_mode, select_adapter, AdapterInfo, PresentMode, SurfaceCaps,
};
use crate::conf::{FullscreenType, WindowCommand, WindowMode, WindowSetup};
use crate::error::{GameError, GameResult};
use crate::frame::{
    tick, AcquireOutcome, CommandBuffer, FrameOutput, FrameSync, PresentOutcome, SyncView,
    TickDecision, TickEvents,
};
use crate::image::Image;
use crate::matrix::{mat_mul, mat_mul_spec, ortho, ortho_spec, ortho_tx, ortho_ty, Mat4, FX_ONE,
    MAT_MAX};
use crate::shader::BlendMode;
use crate::swapchain::{Swapchain, SwapchainStatus};
use crate::transform::TransformStack;
use crate::types::{Color, FilterMode, Rect};
use vstd::arithmetic::div_mod::lemma_div_multiples_vanish;

verus! {

/// The renderer's state.  Created once at startup, after the driver has
/// enumerated the adapters and surface properties; destroyed once at
/// shutdown, after the driver has waited the device idle.
#[derive(Debug)]
pub struct GraphicsContext {
    /// The raw projection matrix.
    pub projection: Mat4,
    /// The model transform stack; never empty.
    pub modelview_stack: TransformStack,
    /// The screen rectangle the projection was derived from.
    pub screen_rect: Rect,
    /// The model-view-projection matrix last sent to the shader
    /// globals: `projection * current transform` as of the last
    /// recomputation.
    pub mvp: Mat4,
    /// The clear color of the next frame's render pass.
    pub clear_color: Color,
    /// The filter mode new images default to.
    pub default_filter: FilterMode,
    /// The blend mode of the active pipeline.
    pub blend_mode: BlendMode,
    /// Whether the output surface uses an sRGB format.
    pub srgb: bool,
    /// The pending draw batch: append-only within a frame, cleared
    /// exactly once per frame by `end_frame`.
    pub batch: Vec<DrawRecord>,
    /// The swapchain model.
    pub swapchain: Swapchain,
    /// The per-in-flight-frame synchronization slots.
    pub frames: FrameSync,
    /// A built-in 1x1 opaque white texture, drawn when a request
    /// supplies no texture of its own.
    pub white_image: Image,
    /// The most recently requested window mode.
    pub window_mode: WindowMode,
    /// Requests queued for the windowing collaborator, oldest first.
    /// The driver drains and performs them.
    pub window_commands: Vec<WindowCommand>,
}

impl GraphicsContext {
    /// The context invariant: a sound transform stack and projection, a
    /// double-buffered swapchain, one synchronization slot per image,
    /// and a valid white texture.
    pub open spec fn wf(self) -> bool {
        &&& self.modelview_stack.wf()
        &&& self.projection.fits()
        &&& self.swapchain.wf()
        &&& self.frames.wf(self.swapchain.image_count)
        &&& self.white_image.wf()
    }

    /// The synchronization-related state, as one plain value.
    pub open spec fn sync_view(self) -> SyncView {
        SyncView {
            status: self.swapchain.status,
            width: self.swapchain.width,
            height: self.swapchain.height,
            fences: self.frames.fences(),
            current: self.frames.current as int,
        }
    }

    /// The transform, projection, and derived state of `a` and `b`
    /// agree.
    pub open spec fn scene_eq(a: GraphicsContext, b: GraphicsContext) -> bool {
        &&& a.projection == b.projection
        &&& a.modelview_stack@ == b.modelview_stack@
        &&& a.screen_rect == b.screen_rect
        &&& a.mvp == b.mvp
    }

    /// The configuration state of `a` and `b` agrees.
    pub open spec fn config_eq(a: GraphicsContext, b: GraphicsContext) -> bool {
        &&& a.clear_color == b.clear_color
        &&& a.default_filter == b.default_filter
        &&& a.blend_mode == b.blend_mode
        &&& a.srgb == b.srgb
        &&& a.window_mode == b.window_mode
        &&& a.white_image == b.white_image
    }

    /// The synchronization state of `a` and `b` agrees, including the
    /// image count.
    pub open spec fn sync_eq(a: GraphicsContext, b: GraphicsContext) -> bool {
        &&& a.sync_view() == b.sync_view()
        &&& a.swapchain == b.swapchain
        &&& a.frames.current == b.frames.current
    }

    /// The initial screen rectangle for a window of the given pixel
    /// size: origin at the top-left, one unit per pixel.
    pub open spec fn initial_rect(mode: WindowMode) -> Rect {
        Rect {
            x: 0,
            y: 0,
            w: (mode.width * FX_ONE) as i64,
            h: (mode.height * FX_ONE) as i64,
        }
    }

    /// Bootstraps the renderer: selects an adapter, sizes the swapchain
    /// from the surface, picks a present mode, and builds the initial
    /// state.  Runs exactly once.
    ///
    /// Fails with a `DeviceInitError` exactly when no adapter has a
    /// queue family with both graphics and present support, the surface
    /// cannot back double buffering, or vsync is requested and FIFO
    /// presentation is unavailable.
    pub fn new(
        setup: &WindowSetup,
        mode: &WindowMode,
        adapters: &Vec<AdapterInfo>,
        caps: &SurfaceCaps,
        present_modes: &Vec<PresentMode>,
    ) -> (r: GameResult<GraphicsContext>)
        requires
            1 <= mode.width <= crate::batch::TEX_MAX,
            1 <= mode.height <= crate::batch::TEX_MAX,
            caps.min_image_count >= 1,
            caps.min_image_count < u32::MAX,
            caps.max_image_count == 0 || caps.max_image_count >= caps.min_image_count,
        ensures
            match r {
                Ok(ctx) => {
                    &&& ctx.wf()
                    &&& exists|j: int|
                        0 <= j < adapters@.len() && crate::bootstrap::eligible(
                            #[trigger] adapters@[j],
                        )
                    &&& ctx.screen_rect == GraphicsContext::initial_rect(*mode)
                    &&& ctx.projection@ == ortho_spec(GraphicsContext::initial_rect(*mode))
                    &&& ctx.modelview_stack@.len() == 1
                    &&& ctx.modelview_stack@[0] == Mat4::identity_spec()
                    &&& ctx.mvp@ == mat_mul_spec(ctx.projection@, Mat4::identity_spec()@)
                    &&& ctx.batch@.len() == 0
                    &&& ctx.clear_color == (Color { r: 0u8, g: 0u8, b: 0u8, a: 255u8 })
                    &&& ctx.default_filter == FilterMode::Linear
                    &&& ctx.blend_mode == BlendMode::Alpha
                    &&& ctx.srgb == setup.srgb
                    &&& ctx.swapchain.status is Valid
                    &&& ctx.swapchain.width == mode.width
                    &&& ctx.swapchain.height == mode.height
                    &&& ctx.swapchain.image_count == crate::bootstrap::image_count_spec(
                        caps.min_image_count,
                        caps.max_image_count,
                    )
                    &&& ctx.frames.fences() =~= Seq::new(
                        ctx.swapchain.image_count as nat,
                        |i: int| true,
                    )
                    &&& ctx.frames.current == 0
                    &&& ctx.window_mode == *mode
                    &&& ctx.window_commands@.len() == 0
                },
                Err(e) => {
                    &&& e is DeviceInitError
                    &&& {
                        ||| forall|j: int|
                            0 <= j < adapters@.len() ==> !crate::bootstrap::eligible(
                                #[trigger] adapters@[j],
                            )
                        ||| crate::bootstrap::image_count_spec(
                            caps.min_image_count,
                            caps.max_image_count,
                        ) < 2
                        ||| setup.vsync && !crate::bootstrap::offers(
                            present_modes@,
                            crate::bootstrap::PresentMode::Fifo,
                        )
                    }
                },
            },
    {
        let adapter_index = match select_adapter(adapters) {
            Ok(i) => i,
            Err(e) => {
                return Err(e);
            },
        };
        let image_count = match choose_image_count(caps) {
            Ok(n) => n,
            Err(e) => {
                return Err(e);
            },
        };
        let _present_mode = match choose_present_mode(setup.vsync, present_modes) {
            Ok(m) => m,
            Err(e) => {
                return Err(e);
            },
        };
        let rect = Rect {
            x: 0,
            y: 0,
            w: (mode.width as i64) * FX_ONE,
            h: (mode.height as i64) * FX_ONE,
        };
        proof {
            let w = rect.w as int;
            let h = rect.h as int;
            lemma_div_multiples_vanish(FX_ONE as int, w);
            lemma_div_multiples_vanish(FX_ONE as int, h);
            assert(ortho_tx(rect) == -FX_ONE);
            assert(ortho_ty(rect) == -FX_ONE);
            assert(crate::bootstrap::eligible(adapters@[adapter_index as int]));
        }
        let projection = ortho(&rect);
        let identity = Mat4::identity();
        let mvp = mat_mul(&projection, &identity);
        let white_pixels: Vec<u8> = vec![255u8, 255u8, 255u8, 255u8];
        let white_image = match Image::from_rgba8(1, 1, white_pixels.as_slice()) {
            Ok(img) => img,
            Err(_) => {
                proof {
                    assert(false);
                }
                return Err(
                    GameError::DeviceInitError(String::from_str("could not build white texture")),
                );
            },
        };
        Ok(
            GraphicsContext {
                projection,
                modelview_stack: TransformStack::new(),
                screen_rect: rect,
                mvp,
                clear_color: Color { r: 0, g: 0, b: 0, a: 255 },
                default_filter: FilterMode::Linear,
                blend_mode: BlendMode::Alpha,
                srgb: setup.srgb,
                batch: Vec::new(),
                swapchain: Swapchain {
                    image_count,
                    width: mode.width,
                    height: mode.height,
                    status: SwapchainStatus::Valid,
                },
                frames: FrameSync::new(image_count),
                white_image,
                window_mode: *mode,
                window_commands: Vec::new(),
            },
        )
    }

    /// Starts a new frame: sets the clear color and discards any
    /// leftover batch content.
    pub fn begin_frame(&mut self, clear: Color)
        ensures
            final(self).batch@.len() == 0,
            final(self).clear_color == clear,
            GraphicsContext::scene_eq(*old(self), *final(self)),
            GraphicsContext::sync_eq(*old(self), *final(self)),
            final(self).default_filter == old(self).default_filter,
            final(self).blend_mode == old(self).blend_mode,
            final(self).srgb == old(self).srgb,
            final(self).window_mode == old(self).window_mode,
            final(self).white_image == old(self).white_image,
            final(self).window_commands@ == old(self).window_commands@,
            old(self).wf() ==> final(self).wf(),
    {
        self.clear_color = clear;
        self.batch.clear();
    }

    /// Appends draw records to the pending batch, in order.  Recording
    /// never fails; errors can only occur at submit time.
    pub fn record_draw(&mut self, records: &Vec<DrawRecord>)
        ensures
            final(self).batch@ == old(self).batch@ + records@,
            GraphicsContext::scene_eq(*old(self), *final(self)),
            GraphicsContext::config_eq(*old(self), *final(self)),
            GraphicsContext::sync_eq(*old(self), *final(self)),
            final(self).window_commands@ == old(self).window_commands@,
            old(self).wf() ==> final(self).wf(),
    {
        let n = records.len();
        for i in 0..n
            invariant
                n == records@.len(),
                self.batch@ == old(self).batch@ + records@.subrange(0, i as int),
                GraphicsContext::scene_eq(*old(self), *self),
                GraphicsContext::config_eq(*old(self), *self),
                GraphicsContext::sync_eq(*old(self), *self),
                self.window_commands@ == old(self).window_commands@,
                old(self).wf() ==> self.wf(),
        {
            self.batch.push(records[i]);
        }
        proof {
            assert(records@.subrange(0, n as int) =~= records@);
        }
    }

    /// Recalculates the model-view-projection matrix from the current
    /// projection and the top of the transform stack.  Call this after
    /// any push, pop, or set before the value is consumed by a draw.
    pub fn calculate_transform_matrix(&mut self)
        requires
            old(self).wf(),
        ensures
            final(self).wf(),
            final(self).mvp@ == mat_mul_spec(
                old(self).projection@,
                old(self).modelview_stack.top()@,
            ),
            final(self).projection == old(self).projection,
            final(self).modelview_stack@ == old(self).modelview_stack@,
            final(self).screen_rect == old(self).screen_rect,
            final(self).batch@ == old(self).batch@,
            GraphicsContext::config_eq(*old(self), *final(self)),
            GraphicsContext::sync_eq(*old(self), *final(self)),
            final(self).window_commands@ == old(self).window_commands@,
    {
        let top = self.modelview_stack.current();
        self.mvp = mat_mul(&self.projection, &top);
    }

    /// Pushes a transform matrix on the model transform stack.
    pub fn push_transform(&mut self, t: Mat4)
        requires
            old(self).wf(),
            t.fits(),
        ensures
            final(self).wf(),
            final(self).modelview_stack@ == old(self).modelview_stack@.push(t),
            final(self).projection == old(self).projection,
            final(self).mvp == old(self).mvp,
            final(self).screen_rect == old(self).screen_rect,
            final(self).batch@ == old(self).batch@,
            GraphicsContext::config_eq(*old(self), *final(self)),
            GraphicsContext::sync_eq(*old(self), *final(self)),
            final(self).window_commands@ == old(self).window_commands@,
    {
        self.modelview_stack.push(t);
    }

    /// Pops the top of the model transform stack; a no-op when only the
    /// bottom entry is left.
    pub fn pop_transform(&mut self)
        requires
            old(self).wf(),
        ensures
            final(self).wf(),
            old(self).modelview_stack@.len() > 1 ==> final(self).modelview_stack@ == old(
                self,
            ).modelview_stack@.drop_last(),
            old(self).modelview_stack@.len() == 1 ==> final(self).modelview_stack@ == old(
                self,
            ).modelview_stack@,
            final(self).projection == old(self).projection,
            final(self).mvp == old(self).mvp,
            final(self).screen_rect == old(self).screen_rect,
            final(self).batch@ == old(self).batch@,
            GraphicsContext::config_eq(*old(self), *final(self)),
            GraphicsContext::sync_eq(*old(self), *final(self)),
            final(self).window_commands@ == old(self).window_commands@,
    {
        self.modelview_stack.pop();
    }

    /// Overwrites the top of the model transform stack.
    pub fn set_transform(&mut self, t: Mat4)
        requires
            old(self).wf(),
            t.fits(),
        ensures
            final(self).wf(),
            final(self).modelview_stack@ == old(self).modelview_stack@.update(
                old(self).modelview_stack@.len() - 1,
                t,
            ),
            final(self).modelview_stack.top() == t,
            final(self).projection == old(self).projection,
            final(self).mvp == old(self).mvp,
            final(self).screen_rect == old(self).screen_rect,
            final(self).batch@ == old(self).batch@,
            GraphicsContext::config_eq(*old(self), *final(self)),
            GraphicsContext::sync_eq(*old(self), *final(self)),
            final(self).window_commands@ == old(self).window_commands@,
    {
        self.modelview_stack.set(t);
    }

    /// Returns the current (top) model transform by value.
    pub fn transform(&self) -> (t: Mat4)
        requires
            self.wf(),
        ensures
            t == self.modelview_stack.top(),
            t.fits(),
    {
        self.modelview_stack.current()
    }

    /// Sets the raw projection matrix.
    pub fn set_projection(&mut self, mat: Mat4)
        requires
            old(self).wf(),
            mat.fits(),
        ensures
            final(self).wf(),
            final(self).projection == mat,
            final(self).modelview_stack@ == old(self).modelview_stack@,
            final(self).mvp == old(self).mvp,
            final(self).screen_rect == old(self).screen_rect,
            final(self).batch@ == old(self).batch@,
            GraphicsContext::config_eq(*old(self), *final(self)),
            GraphicsContext::sync_eq(*old(self), *final(self)),
            final(self).window_commands@ == old(self).window_commands@,
    {
        self.projection = mat;
    }

    /// Gets a copy of the raw projection matrix.
    pub fn projection(&self) -> (m: Mat4)
        requires
            self.wf(),
        ensures
            m == self.projection,
            m.fits(),
    {
        self.projection
    }

    /// Sets the projection to an orthographic projection over the given
    /// screen rectangle, near and far fixed at -1 and 1, and remembers
    /// the rectangle.
    pub fn set_projection_rect(&mut self, rect: Rect)
        requires
            old(self).wf(),
            0 < rect.w <= MAT_MAX,
            0 < rect.h <= MAT_MAX,
            -MAT_MAX <= rect.x <= MAT_MAX,
            -MAT_MAX <= rect.y <= MAT_MAX,
            -MAT_MAX <= ortho_tx(rect) <= MAT_MAX,
            -MAT_MAX <= ortho_ty(rect) <= MAT_MAX,
        ensures
            final(self).wf(),
            final(self).projection@ == ortho_spec(rect),
            final(self).screen_rect == rect,
            final(self).modelview_stack@ == old(self).modelview_stack@,
            final(self).mvp == old(self).mvp,
            final(self).batch@ == old(self).batch@,
            GraphicsContext::config_eq(*old(self), *final(self)),
            GraphicsContext::sync_eq(*old(self), *final(self)),
            final(self).window_commands@ == old(self).window_commands@,
    {
        self.screen_rect = rect;
        self.projection = ortho(&rect);
    }

    /// Marks the swapchain stale because the driver reported a window
    /// resize; the next frame cycle recreates it from the surface's
    /// extent.  The reported size is remembered as the window size.
    pub fn notify_resize(&mut self, new_width: u32, new_height: u32)
        ensures
            final(self).swapchain.status is StaleOnResize,
            final(self).swapchain.image_count == old(self).swapchain.image_count,
            final(self).swapchain.width == old(self).swapchain.width,
            final(self).swapchain.height == old(self).swapchain.height,
            final(self).frames.fences() == old(self).frames.fences(),
            final(self).frames.current == old(self).frames.current,
            final(self).window_mode == (WindowMode {
                width: new_width,
                height: new_height,
                ..old(self).window_mode
            }),
            GraphicsContext::scene_eq(*old(self), *final(self)),
            final(self).batch@ == old(self).batch@,
            final(self).clear_color == old(self).clear_color,
            final(self).default_filter == old(self).default_filter,
            final(self).blend_mode == old(self).blend_mode,
            final(self).srgb == old(self).srgb,
            final(self).white_image == old(self).white_image,
            final(self).window_commands@ == old(self).window_commands@,
            old(self).wf() ==> final(self).wf(),
    {
        self.swapchain.status = SwapchainStatus::StaleOnResize;
        self.window_mode.width = new_width;
        self.window_mode.height = new_height;
    }

    /// Sets the blend mode of the active pipeline.
    pub fn set_blend_mode(&mut self, mode: BlendMode) -> (r: GameResult<()>)
        ensures
            r is Ok,
            final(self).blend_mode == mode,
            GraphicsContext::scene_eq(*old(self), *final(self)),
            GraphicsContext::sync_eq(*old(self), *final(self)),
            final(self).batch@ == old(self).batch@,
            final(self).clear_color == old(self).clear_color,
            final(self).default_filter == old(self).default_filter,
            final(self).srgb == old(self).srgb,
            final(self).window_mode == old(self).window_mode,
            final(self).white_image == old(self).white_image,
            final(self).window_commands@ == old(self).window_commands@,
            old(self).wf() ==> final(self).wf(),
    {
        self.blend_mode = mode;
        Ok(())
    }

    /// Gets the blend mode of the active pipeline.
    pub fn blend_mode(&self) -> (r: BlendMode)
        ensures
            r == self.blend_mode,
    {
        self.blend_mode
    }

    /// The requests `set_window_mode` queues for the windowing
    /// collaborator, in order.
    pub open spec fn window_mode_commands(mode: WindowMode) -> Seq<WindowCommand> {
        let common = seq![
            WindowCommand::SetMaximized(mode.maximized),
            WindowCommand::SetMinSize(
                if mode.min_width > 0 && mode.min_height > 0 {
                    Some((mode.min_width, mode.min_height))
                } else {
                    None
                },
            ),
            WindowCommand::SetMaxSize(
                if mode.max_width > 0 && mode.max_height > 0 {
                    Some((mode.max_width, mode.max_height))
                } else {
                    None
                },
            ),
        ];
        match mode.fullscreen_type {
            FullscreenType::Windowed => common + seq![
                WindowCommand::SetFullscreen(false),
                WindowCommand::SetDecorations(!mode.borderless),
                WindowCommand::SetInnerSize(mode.width, mode.height),
            ],
            FullscreenType::True => common + seq![
                WindowCommand::SetFullscreen(true),
                WindowCommand::SetInnerSize(mode.width, mode.height),
            ],
            FullscreenType::Desktop => common + seq![
                WindowCommand::SetFullscreen(false),
                WindowCommand::SetDecorations(false),
                WindowCommand::MatchMonitor,
            ],
        }
    }

    /// Applies a window mode: queues the corresponding requests for the
    /// windowing collaborator, remembers the mode, and, since the
    /// window size may change, marks the swapchain stale.
    pub fn set_window_mode(&mut self, mode: &WindowMode) -> (r: GameResult<()>)
        ensures
            r is Ok,
            final(self).window_commands@ == old(self).window_commands@
                + GraphicsContext::window_mode_commands(*mode),
            final(self).window_mode == *mode,
            final(self).swapchain.status is StaleOnResize,
            final(self).swapchain.image_count == old(self).swapchain.image_count,
            final(self).swapchain.width == old(self).swapchain.width,
            final(self).swapchain.height == old(self).swapchain.height,
            final(self).frames.fences() == old(self).frames.fences(),
            final(self).frames.current == old(self).frames.current,
            GraphicsContext::scene_eq(*old(self), *final(self)),
            final(self).batch@ == old(self).batch@,
            final(self).clear_color == old(self).clear_color,
            final(self).default_filter == old(self).default_filter,
            final(self).blend_mode == old(self).blend_mode,
            final(self).srgb == old(self).srgb,
            final(self).white_image == old(self).white_image,
            old(self).wf() ==> final(self).wf(),
    {
        self.window_commands.push(WindowCommand::SetMaximized(mode.maximized));
        let min_size = if mode.min_width > 0 && mode.min_height > 0 {
            Some((mode.min_width, mode.min_height))
        } else {
            None
        };
        self.window_commands.push(WindowCommand::SetMinSize(min_size));
        let max_size = if mode.max_width > 0 && mode.max_height > 0 {
            Some((mode.max_width, mode.max_height))
        } else {
            None
        };
        self.window_commands.push(WindowCommand::SetMaxSize(max_size));
        match mode.fullscreen_type {
            FullscreenType::Windowed => {
                self.window_commands.push(WindowCommand::SetFullscreen(false));
                self.window_commands.push(WindowCommand::SetDecorations(!mode.borderless));
                self.window_commands.push(WindowCommand::SetInnerSize(mode.width, mode.height));
            },
            FullscreenType::True => {
                self.window_commands.push(WindowCommand::SetFullscreen(true));
                self.window_commands.push(WindowCommand::SetInnerSize(mode.width, mode.height));
            },
            FullscreenType::Desktop => {
                self.window_commands.push(WindowCommand::SetFullscreen(false));
                self.window_commands.push(WindowCommand::SetDecorations(false));
                self.window_commands.push(WindowCommand::MatchMonitor);
            },
        }
        self.window_mode = *mode;
        self.swapchain.status = SwapchainStatus::StaleOnResize;
        proof {
            assert(self.window_commands@ =~= old(self).window_commands@
                + GraphicsContext::window_mode_commands(*mode));
        }
        Ok(())
    }

    /// Queues a window title change for the windowing collaborator.
    pub fn set_window_title(&mut self, title: &str)
        ensures
            final(self).window_commands@.len() == old(self).window_commands@.len() + 1,
            final(self).window_commands@.subrange(0, old(self).window_commands@.len() as int)
                == old(self).window_commands@,
            final(self).window_commands@.last() matches WindowCommand::SetTitle(s) && s@ == title@,
            GraphicsContext::scene_eq(*old(self), *final(self)),
            GraphicsContext::config_eq(*old(self), *final(self)),
            GraphicsContext::sync_eq(*old(self), *final(self)),
            final(self).batch@ == old(self).batch@,
            old(self).wf() ==> final(self).wf(),
    {
        self.window_commands.push(WindowCommand::SetTitle(String::from_str(title)));
        proof {
            assert(self.window_commands@.subrange(0, old(self).window_commands@.len() as int)
                =~= old(self).window_commands@);
        }
    }

    /// Queues a window icon change for the windowing collaborator,
    /// which reads and decodes the file at the given path; `None`
    /// clears the icon.
    pub fn set_window_icon(&mut self, path: Option<&str>) -> (r: GameResult<()>)
        ensures
            r is Ok,
            final(self).window_commands@.len() == old(self).window_commands@.len() + 1,
            final(self).window_commands@.subrange(0, old(self).window_commands@.len() as int)
                == old(self).window_commands@,
            match path {
                Some(p) => final(self).window_commands@.last() matches WindowCommand::SetIcon(
                    Some(s),
                ) && s@ == p@,
                None => final(self).window_commands@.last() == WindowCommand::SetIcon(
                    None::<String>,
                ),
            },
            GraphicsContext::scene_eq(*old(self), *final(self)),
            GraphicsContext::config_eq(*old(self), *final(self)),
            GraphicsContext::sync_eq(*old(self), *final(self)),
            final(self).batch@ == old(self).batch@,
            old(self).wf() ==> final(self).wf(),
    {
        let command = match path {
            Some(p) => WindowCommand::SetIcon(Some(String::from_str(p))),
            None => WindowCommand::SetIcon(None),
        };
        self.window_commands.push(command);
        proof {
            assert(self.window_commands@.subrange(0, old(self).window_commands@.len() as int)
                =~= old(self).window_commands@);
        }
        Ok(())
    }

    /// Ends the frame: runs the acquire / record / submit / present
    /// cycle against the outcomes the driver reports, exactly as the
    /// pure transition `frame::tick` describes.
    ///
    /// The draw batch is cleared on every path: a submitted frame's
    /// records move into the returned command buffer, an abandoned
    /// frame's records are dropped.  A stale swapchain is never an
    /// error, only a lost frame; the only error is a fence wait that
    /// exceeded its bound, which is fatal.
    pub fn end_frame(&mut self, ev: &TickEvents) -> (r: GameResult<FrameOutput>)
        requires
            old(self).wf(),
            ev.acquire matches AcquireOutcome::Acquired(i) ==> i < old(self).swapchain.image_count,
        ensures
            final(self).wf(),
            final(self).swapchain.image_count == old(self).swapchain.image_count,
            final(self).batch@.len() == 0,
            final(self).sync_view() == tick(old(self).sync_view(), *ev).0,
            GraphicsContext::scene_eq(*old(self), *final(self)),
            GraphicsContext::config_eq(*old(self), *final(self)),
            final(self).window_commands@ == old(self).window_commands@,
            match r {
                Ok(FrameOutput::Submitted { image_index, commands, displayed }) => {
                    &&& tick(old(self).sync_view(), *ev).1 == (TickDecision::Submitted {
                        image_index: image_index as int,
                        displayed,
                    })
                    &&& commands.records@ == old(self).batch@
                    &&& commands.clear_color == old(self).clear_color
                    &&& commands.framebuffer_index == image_index
                    &&& image_index < old(self).swapchain.image_count
                },
                Ok(FrameOutput::Skipped) => tick(old(self).sync_view(), *ev).1
                    is Skipped,
                Err(e) => {
                    &&& tick(old(self).sync_view(), *ev).1 is TimedOut
                    &&& e is SynchronizationTimeout
                },
            },
    {
        // The batch is cleared whatever happens to this frame.
        let mut records: Vec<DrawRecord> = Vec::new();
        core::mem::swap(&mut records, &mut self.batch);

        let ghost v0 = old(self).sync_view();

        // Swapchain lifecycle: a stale swapchain is replaced before
        // anything is acquired.
        if self.swapchain.stale() {
            if ev.surface_width == 0 || ev.surface_height == 0 {
                // Degenerate surface (minimized window): stay stale and
                // retry next tick, without error.
                self.swapchain.status = SwapchainStatus::StaleOnResize;
                proof {
                    assert(self.sync_view() =~= tick(v0, *ev).0);
                }
                return Ok(FrameOutput::Skipped);
            }
            // The old image set may still be referenced by in-flight
            // work: the driver waits the device idle before it tears
            // the old swapchain down, so every fence comes back
            // signaled and the slots are replaced along with the
            // images.
            self.swapchain.status = SwapchainStatus::Recreating;
            self.swapchain.width = ev.surface_width;
            self.swapchain.height = ev.surface_height;
            self.frames.reset_after_idle();
            self.swapchain.status = SwapchainStatus::Valid;
        }

        let ghost v1 = self.sync_view();

        match ev.acquire {
            AcquireOutcome::OutOfDate => {
                // The presentation engine went stale mid-acquire: the
                // frame is lost, not retried within the same tick.
                self.swapchain.status = SwapchainStatus::StaleOnAcquire;
                proof {
                    assert(self.sync_view() =~= tick(v0, *ev).0);
                }
                Ok(FrameOutput::Skipped)
            },
            AcquireOutcome::Acquired(image_index) => {
                // A previously used slot may only be reused once its
                // fence has signaled; otherwise the driver waited, and
                // a wait that exceeded its bound is fatal.
                if !self.frames.current_signaled() && !ev.fence_wait_completed {
                    proof {
                        assert(self.sync_view() =~= tick(v0, *ev).0);
                    }
                    return Err(
                        GameError::SynchronizationTimeout(
                            String::from_str("frame fence wait exceeded its bound"),
                        ),
                    );
                }
                // Record: one primary command buffer that clears the
                // acquired framebuffer and replays the batch in
                // insertion order.
                let commands = CommandBuffer {
                    clear_color: self.clear_color,
                    framebuffer_index: image_index,
                    records,
                };
                // Submit: the slot's fence is now unsignaled until the
                // GPU finishes; the cursor moves on round-robin.
                self.frames.mark_in_flight();
                match ev.present {
                    PresentOutcome::Completed => {
                        proof {
                            assert(self.sync_view() =~= tick(v0, *ev).0);
                        }
                        Ok(FrameOutput::Submitted { image_index, commands, displayed: true })
                    },
                    PresentOutcome::OutOfDate => {
                        // Stale at present time: the submission stands
                        // but the image is not shown; recreate next
                        // tick.  Not an error.
                        self.swapchain.status = SwapchainStatus::StaleOnAcquire;
                        proof {
                            assert(self.sync_view() =~= tick(v0, *ev).0);
                        }
                        Ok(FrameOutput::Submitted { image_index, commands, displayed: false })
                    },
                }
            },
        }
    }

    /// Waits until all submitted GPU work has completed: the barrier
    /// that teardown and swapchain replacement sequence resource
    /// release behind, so nothing is destroyed while a command buffer
    /// still references it.  The driver performs the blocking wait and
    /// reports whether it completed within the internal bound; a wait
    /// that did not is fatal and leaves the fence states untouched.
    pub fn wait_idle(&mut self, wait_completed: bool) -> (r: GameResult<()>)
        ensures
            final(self).swapchain == old(self).swapchain,
            final(self).frames.slots@.len() == old(self).frames.slots@.len(),
            final(self).frames.current == 0 || final(self).frames.current == old(
                self,
            ).frames.current,
            GraphicsContext::scene_eq(*old(self), *final(self)),
            GraphicsContext::config_eq(*old(self), *final(self)),
            final(self).batch@ == old(self).batch@,
            final(self).window_commands@ == old(self).window_commands@,
            old(self).wf() ==> final(self).wf(),
            match r {
                Ok(()) => {
                    &&& wait_completed
                    &&& final(self).frames.fences() =~= Seq::new(
                        old(self).frames.slots@.len(),
                        |i: int| true,
                    )
                    &&& final(self).frames.current == 0
                },
                Err(e) => {
                    &&& !wait_completed
                    &&& e is SynchronizationTimeout
                    &&& final(self).frames.fences() == old(self).frames.fences()
                    &&& final(self).frames.current == old(self).frames.current
                },
            },
    {
        if !wait_completed {
            return Err(
                GameError::SynchronizationTimeout(
                    String::from_str("device idle wait exceeded its bound"),
                ),
            );
        }
        self.frames.reset_after_idle();
        Ok(())
    }

    /// Gets the default filter mode for new images.
    pub fn default_filter(&self) -> (f: FilterMode)
        ensures
            f == self.default_filter,
    {
        self.default_filter
    }

    /// Sets the default filter mode used to scale images.  This does
    /// not apply retroactively to already created images.
    pub fn set_default_filter(&mut self, mode: FilterMode)
        ensures
            final(self).default_filter == mode,
            GraphicsContext::scene_eq(*old(self), *final(self)),
            GraphicsContext::sync_eq(*old(self), *final(self)),
            final(self).batch@ == old(self).batch@,
            final(self).clear_color == old(self).clear_color,
            final(self).blend_mode == old(self).blend_mode,
            final(self).srgb == old(self).srgb,
            final(self).window_mode == old(self).window_mode,
            final(self).white_image == old(self).white_image,
            final(self).window_commands@ == old(self).window_commands@,
            old(self).wf() ==> final(self).wf(),
    {
        self.default_filter = mode;
    }
}

} // verus!
