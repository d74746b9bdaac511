//! The drawing API: frame control, drawables, and graphics state.
//!
//! These free functions mirror how the external driver and drawable
//! objects use the renderer: `clear` begins a frame, `draw` contributes
//! records to the batch, `present` runs the frame cycle.  Transform and
//! projection changes take effect on draws after the next
//! `apply_transformations`.

use vstd::prelude::*;
use vstd::string::StringExecFns;
use crate::batch::DrawParam;
use crate::batch::DrawRecord;
use crate::conf::{FullscreenType, WindowMode};
use crate::context::GraphicsContext;
use crate::error::GameResult;
use crate::frame::{AcquireOutcome, FrameOutput, TickEvents};
use crate::matrix::{
    mat_mul, mat_mul_spec, lemma_seq_fits, ortho_spec, ortho_tx, ortho_ty, seq_fits, Mat4, MAT_MAX,
};
use crate::shader::BlendMode;
use crate::types::{Color, FilterMode, Rect};

verus! {

/// All types that can be drawn on the screen implement the `Drawable`
/// trait.
pub trait Drawable: Sized {
    /// What drawing this value requires of the context and parameters
    /// (bounds that keep the instance transform math in range).
    spec fn draw_req(&self, ctx: GraphicsContext, param: DrawParam) -> bool;

    /// The records this value appends to the draw batch.
    spec fn draw_records(&self, param: DrawParam) -> Seq<DrawRecord>;

    /// The model-view-projection entries after the draw: drawing may
    /// recompute the MVP, but always leaves it consistent.
    spec fn mvp_after(&self, ctx: GraphicsContext) -> Seq<int>;

    /// Draws the drawable onto the rendering target, appending its
    /// records to the context's batch in order.  Recording never fails.
    fn draw(&self, ctx: &mut GraphicsContext, param: DrawParam) -> (r: GameResult<()>)
        requires
            old(ctx).wf(),
            self.draw_req(*old(ctx), param),
        ensures
            final(ctx).wf(),
            r is Ok,
            final(ctx).batch@ == old(ctx).batch@ + self.draw_records(param),
            final(ctx).mvp@ == self.mvp_after(*old(ctx)),
            final(ctx).projection == old(ctx).projection,
            final(ctx).modelview_stack@ == old(ctx).modelview_stack@,
            final(ctx).screen_rect == old(ctx).screen_rect,
            GraphicsContext::config_eq(*old(ctx), *final(ctx)),
            GraphicsContext::sync_eq(*old(ctx), *final(ctx)),
            final(ctx).window_commands@ == old(ctx).window_commands@,
    ;

    /// Sets the blend mode to be used when drawing this drawable,
    /// overriding the general one; `None` defers to the context's.
    fn set_blend_mode(&mut self, mode: Option<BlendMode>);

    /// Gets the blend mode to be used when drawing this drawable.
    fn blend_mode(&self) -> Option<BlendMode>;
}

/// Clear the screen to the background color: starts a new frame with
/// the given clear color and an empty batch.
pub fn clear(ctx: &mut GraphicsContext, color: Color)
    ensures
        final(ctx).batch@.len() == 0,
        final(ctx).clear_color == color,
        GraphicsContext::scene_eq(*old(ctx), *final(ctx)),
        GraphicsContext::sync_eq(*old(ctx), *final(ctx)),
        final(ctx).window_commands@ == old(ctx).window_commands@,
        final(ctx).default_filter == old(ctx).default_filter,
        final(ctx).blend_mode == old(ctx).blend_mode,
        final(ctx).srgb == old(ctx).srgb,
        final(ctx).window_mode == old(ctx).window_mode,
        final(ctx).white_image == old(ctx).white_image,
        old(ctx).wf() ==> final(ctx).wf(),
{
    ctx.begin_frame(color);
}

/// Draws the given `Drawable` object to the screen by calling its
/// `draw()` method.
pub fn draw<D: Drawable>(ctx: &mut GraphicsContext, drawable: &D, param: DrawParam) -> (r:
    GameResult<()>)
    requires
        old(ctx).wf(),
        drawable.draw_req(*old(ctx), param),
    ensures
        final(ctx).wf(),
        r is Ok,
        final(ctx).batch@ == old(ctx).batch@ + drawable.draw_records(param),
        final(ctx).mvp@ == drawable.mvp_after(*old(ctx)),
        final(ctx).projection == old(ctx).projection,
        final(ctx).modelview_stack@ == old(ctx).modelview_stack@,
        final(ctx).screen_rect == old(ctx).screen_rect,
        GraphicsContext::config_eq(*old(ctx), *final(ctx)),
        GraphicsContext::sync_eq(*old(ctx), *final(ctx)),
        final(ctx).window_commands@ == old(ctx).window_commands@,
{
    drawable.draw(ctx, param)
}

/// Tells the graphics system to actually put everything on the screen:
/// runs the frame cycle against the outcomes the driver reports.  See
/// `GraphicsContext::end_frame` for the exact behavior.
pub fn present(ctx: &mut GraphicsContext, events: &TickEvents) -> (r: GameResult<FrameOutput>)
    requires
        old(ctx).wf(),
        events.acquire matches AcquireOutcome::Acquired(i) ==> i < old(ctx).swapchain.image_count,
    ensures
        final(ctx).wf(),
        final(ctx).batch@.len() == 0,
        final(ctx).sync_view() == crate::frame::tick(old(ctx).sync_view(), *events).0,
        GraphicsContext::scene_eq(*old(ctx), *final(ctx)),
        GraphicsContext::config_eq(*old(ctx), *final(ctx)),
        final(ctx).window_commands@ == old(ctx).window_commands@,
        final(ctx).swapchain.image_count == old(ctx).swapchain.image_count,
        match r {
            Ok(FrameOutput::Submitted { image_index, commands, displayed }) => {
                &&& crate::frame::tick(old(ctx).sync_view(), *events).1
                    == (crate::frame::TickDecision::Submitted {
                    image_index: image_index as int,
                    displayed,
                })
                &&& commands.records@ == old(ctx).batch@
                &&& commands.clear_color == old(ctx).clear_color
                &&& commands.framebuffer_index == image_index
            },
            Ok(FrameOutput::Skipped) => crate::frame::tick(old(ctx).sync_view(), *events).1
                is Skipped,
            Err(e) => {
                &&& crate::frame::tick(old(ctx).sync_view(), *events).1 is TimedOut
                &&& e is SynchronizationTimeout
            },
        },
{
    ctx.end_frame(events)
}

/// Get the default filter mode for new images.
pub fn default_filter(ctx: &GraphicsContext) -> (f: FilterMode)
    ensures
        f == ctx.default_filter,
{
    ctx.default_filter()
}

/// Sets the default filter mode used to scale images.
///
/// This does not apply retroactively to already created images.
pub fn set_default_filter(ctx: &mut GraphicsContext, mode: FilterMode)
    requires
        old(ctx).wf(),
    ensures
        final(ctx).wf(),
        final(ctx).default_filter == mode,
        GraphicsContext::scene_eq(*old(ctx), *final(ctx)),
        GraphicsContext::sync_eq(*old(ctx), *final(ctx)),
        final(ctx).batch@ == old(ctx).batch@,
        final(ctx).window_commands@ == old(ctx).window_commands@,
        final(ctx).clear_color == old(ctx).clear_color,
        final(ctx).blend_mode == old(ctx).blend_mode,
        final(ctx).srgb == old(ctx).srgb,
        final(ctx).window_mode == old(ctx).window_mode,
        final(ctx).white_image == old(ctx).white_image,
{
    ctx.set_default_filter(mode);
}

/// Returns a string that tells a little about the obtained rendering
/// mode.  It is human-readable and will change; do not parse it.
pub fn renderer_info(ctx: &GraphicsContext) -> (r: GameResult<String>)
    ensures
        r is Ok,
{
    if ctx.srgb {
        Ok(String::from_str("explicit GPU backend, sRGB surface"))
    } else {
        Ok(String::from_str("explicit GPU backend, linear surface"))
    }
}

/// Returns the rectangle defining the coordinate system of the screen:
/// `Rect { x: left, y: top, w: width, h: height }`.
pub fn screen_coordinates(ctx: &GraphicsContext) -> (r: Rect)
    ensures
        r == ctx.screen_rect,
{
    ctx.screen_rect
}

/// Sets the bounds of the screen viewport: derives an orthographic
/// projection from the rectangle and recomputes the MVP.
///
/// The rectangle's x and y define the top-left corner of the screen,
/// and that plus its w and h define the bottom-right corner.
pub fn set_screen_coordinates(ctx: &mut GraphicsContext, rect: Rect) -> (r: GameResult<()>)
    requires
        old(ctx).wf(),
        0 < rect.w <= MAT_MAX,
        0 < rect.h <= MAT_MAX,
        -MAT_MAX <= rect.x <= MAT_MAX,
        -MAT_MAX <= rect.y <= MAT_MAX,
        -MAT_MAX <= ortho_tx(rect) <= MAT_MAX,
        -MAT_MAX <= ortho_ty(rect) <= MAT_MAX,
    ensures
        final(ctx).wf(),
        r is Ok,
        final(ctx).screen_rect == rect,
        final(ctx).projection@ == ortho_spec(rect),
        final(ctx).modelview_stack@ == old(ctx).modelview_stack@,
        final(ctx).mvp@ == mat_mul_spec(ortho_spec(rect), old(ctx).modelview_stack.top()@),
        final(ctx).batch@ == old(ctx).batch@,
        GraphicsContext::config_eq(*old(ctx), *final(ctx)),
        GraphicsContext::sync_eq(*old(ctx), *final(ctx)),
        final(ctx).window_commands@ == old(ctx).window_commands@,
{
    ctx.set_projection_rect(rect);
    ctx.calculate_transform_matrix();
    Ok(())
}

/// Sets the raw projection matrix.
///
/// You must call `apply_transformations(ctx)` after calling this to
/// apply the change and recalculate the underlying MVP matrix.
pub fn set_projection(ctx: &mut GraphicsContext, proj: Mat4)
    requires
        old(ctx).wf(),
        proj.fits(),
    ensures
        final(ctx).wf(),
        final(ctx).projection == proj,
        final(ctx).modelview_stack@ == old(ctx).modelview_stack@,
        final(ctx).mvp == old(ctx).mvp,
        final(ctx).screen_rect == old(ctx).screen_rect,
        final(ctx).batch@ == old(ctx).batch@,
        GraphicsContext::config_eq(*old(ctx), *final(ctx)),
        GraphicsContext::sync_eq(*old(ctx), *final(ctx)),
        final(ctx).window_commands@ == old(ctx).window_commands@,
{
    ctx.set_projection(proj);
}

/// Premultiplies the given matrix with the current projection matrix.
///
/// You must call `apply_transformations(ctx)` after calling this to
/// apply the change and recalculate the underlying MVP matrix.
pub fn mul_projection(ctx: &mut GraphicsContext, transform: Mat4)
    requires
        old(ctx).wf(),
        transform.fits(),
        seq_fits(mat_mul_spec(transform@, old(ctx).projection@)),
    ensures
        final(ctx).wf(),
        final(ctx).projection@ == mat_mul_spec(transform@, old(ctx).projection@),
        final(ctx).modelview_stack@ == old(ctx).modelview_stack@,
        final(ctx).mvp == old(ctx).mvp,
        final(ctx).screen_rect == old(ctx).screen_rect,
        final(ctx).batch@ == old(ctx).batch@,
        GraphicsContext::config_eq(*old(ctx), *final(ctx)),
        GraphicsContext::sync_eq(*old(ctx), *final(ctx)),
        final(ctx).window_commands@ == old(ctx).window_commands@,
{
    let curr = ctx.projection();
    let m = mat_mul(&transform, &curr);
    proof {
        lemma_seq_fits(m);
    }
    ctx.set_projection(m);
}

/// Gets a copy of the context's raw projection matrix.
pub fn projection(ctx: &GraphicsContext) -> (m: Mat4)
    requires
        ctx.wf(),
    ensures
        m == ctx.projection,
        m.fits(),
{
    ctx.projection()
}

/// Pushes a homogeneous transform matrix to the top of the transform
/// (model) matrix stack of the context.  If no matrix is given, pushes
/// a copy of the current transform matrix.
///
/// You must call `apply_transformations(ctx)` after calling this to
/// apply the change and recalculate the underlying MVP matrix.
pub fn push_transform(ctx: &mut GraphicsContext, transform: Option<Mat4>)
    requires
        old(ctx).wf(),
        transform matches Some(t) ==> t.fits(),
    ensures
        final(ctx).wf(),
        final(ctx).modelview_stack@ == old(ctx).modelview_stack@.push(
            match transform {
                Some(t) => t,
                None => old(ctx).modelview_stack.top(),
            },
        ),
        final(ctx).projection == old(ctx).projection,
        final(ctx).mvp == old(ctx).mvp,
        final(ctx).screen_rect == old(ctx).screen_rect,
        final(ctx).batch@ == old(ctx).batch@,
        GraphicsContext::config_eq(*old(ctx), *final(ctx)),
        GraphicsContext::sync_eq(*old(ctx), *final(ctx)),
        final(ctx).window_commands@ == old(ctx).window_commands@,
{
    match transform {
        Some(t) => ctx.push_transform(t),
        None => {
            let copy = ctx.transform();
            ctx.push_transform(copy);
        },
    }
}

/// Pops the transform matrix off the top of the transform (model)
/// matrix stack; a no-op when only the bottom entry is left.
///
/// You must call `apply_transformations(ctx)` after calling this to
/// apply the change and recalculate the underlying MVP matrix.
pub fn pop_transform(ctx: &mut GraphicsContext)
    requires
        old(ctx).wf(),
    ensures
        final(ctx).wf(),
        old(ctx).modelview_stack@.len() > 1 ==> final(ctx).modelview_stack@ == old(
            ctx,
        ).modelview_stack@.drop_last(),
        old(ctx).modelview_stack@.len() == 1 ==> final(ctx).modelview_stack@ == old(
            ctx,
        ).modelview_stack@,
        final(ctx).projection == old(ctx).projection,
        final(ctx).mvp == old(ctx).mvp,
        final(ctx).screen_rect == old(ctx).screen_rect,
        final(ctx).batch@ == old(ctx).batch@,
        GraphicsContext::config_eq(*old(ctx), *final(ctx)),
        GraphicsContext::sync_eq(*old(ctx), *final(ctx)),
        final(ctx).window_commands@ == old(ctx).window_commands@,
{
    ctx.pop_transform();
}

/// Sets the current model transformation to the given homogeneous
/// transformation matrix.
///
/// You must call `apply_transformations(ctx)` after calling this to
/// apply the change and recalculate the underlying MVP matrix.
pub fn set_transform(ctx: &mut GraphicsContext, transform: Mat4)
    requires
        old(ctx).wf(),
        transform.fits(),
    ensures
        final(ctx).wf(),
        final(ctx).modelview_stack@ == old(ctx).modelview_stack@.update(
            old(ctx).modelview_stack@.len() - 1,
            transform,
        ),
        final(ctx).modelview_stack.top() == transform,
        final(ctx).projection == old(ctx).projection,
        final(ctx).mvp == old(ctx).mvp,
        final(ctx).screen_rect == old(ctx).screen_rect,
        final(ctx).batch@ == old(ctx).batch@,
        GraphicsContext::config_eq(*old(ctx), *final(ctx)),
        GraphicsContext::sync_eq(*old(ctx), *final(ctx)),
        final(ctx).window_commands@ == old(ctx).window_commands@,
{
    ctx.set_transform(transform);
}

/// Gets a copy of the context's current transform matrix.
pub fn transform(ctx: &GraphicsContext) -> (t: Mat4)
    requires
        ctx.wf(),
    ensures
        t == ctx.modelview_stack.top(),
        t.fits(),
{
    ctx.transform()
}

/// Premultiplies the given transform with the current model transform.
///
/// You must call `apply_transformations(ctx)` after calling this to
/// apply the change and recalculate the underlying MVP matrix.
pub fn mul_transform(ctx: &mut GraphicsContext, transform: Mat4)
    requires
        old(ctx).wf(),
        transform.fits(),
        seq_fits(mat_mul_spec(transform@, old(ctx).modelview_stack.top()@)),
    ensures
        final(ctx).wf(),
        final(ctx).modelview_stack@.len() == old(ctx).modelview_stack@.len(),
        final(ctx).modelview_stack.top()@ == mat_mul_spec(
            transform@,
            old(ctx).modelview_stack.top()@,
        ),
        final(ctx).projection == old(ctx).projection,
        final(ctx).mvp == old(ctx).mvp,
        final(ctx).screen_rect == old(ctx).screen_rect,
        final(ctx).batch@ == old(ctx).batch@,
        GraphicsContext::config_eq(*old(ctx), *final(ctx)),
        GraphicsContext::sync_eq(*old(ctx), *final(ctx)),
        final(ctx).window_commands@ == old(ctx).window_commands@,
        final(ctx).modelview_stack@.drop_last() == old(ctx).modelview_stack@.drop_last(),
{
    let curr = ctx.transform();
    let m = mat_mul(&transform, &curr);
    proof {
        lemma_seq_fits(m);
    }
    ctx.set_transform(m);
    proof {
        assert(old(ctx).modelview_stack@.update(
            old(ctx).modelview_stack@.len() - 1,
            m,
        ).drop_last() =~= old(ctx).modelview_stack@.drop_last());
    }
}

/// Sets the current model transform to the origin transform (no
/// transformation).
///
/// You must call `apply_transformations(ctx)` after calling this to
/// apply the change and recalculate the underlying MVP matrix.
pub fn origin(ctx: &mut GraphicsContext)
    requires
        old(ctx).wf(),
    ensures
        final(ctx).wf(),
        final(ctx).modelview_stack@.len() == old(ctx).modelview_stack@.len(),
        final(ctx).modelview_stack.top() == Mat4::identity_spec(),
        final(ctx).projection == old(ctx).projection,
        final(ctx).mvp == old(ctx).mvp,
        final(ctx).screen_rect == old(ctx).screen_rect,
        final(ctx).batch@ == old(ctx).batch@,
        GraphicsContext::config_eq(*old(ctx), *final(ctx)),
        GraphicsContext::sync_eq(*old(ctx), *final(ctx)),
        final(ctx).window_commands@ == old(ctx).window_commands@,
        final(ctx).modelview_stack@.drop_last() == old(ctx).modelview_stack@.drop_last(),
{
    let id = Mat4::identity();
    ctx.set_transform(id);
    proof {
        assert(old(ctx).modelview_stack@.update(
            old(ctx).modelview_stack@.len() - 1,
            id,
        ).drop_last() =~= old(ctx).modelview_stack@.drop_last());
    }
}

/// Calculates the new total transformation (model-view-projection)
/// matrix based on the matrices at the top of the transform stack and
/// the projection matrix, and sends it to the graphics card.
pub fn apply_transformations(ctx: &mut GraphicsContext) -> (r: GameResult<()>)
    requires
        old(ctx).wf(),
    ensures
        final(ctx).wf(),
        r is Ok,
        final(ctx).mvp@ == mat_mul_spec(old(ctx).projection@, old(ctx).modelview_stack.top()@),
        final(ctx).projection == old(ctx).projection,
        final(ctx).modelview_stack@ == old(ctx).modelview_stack@,
        final(ctx).screen_rect == old(ctx).screen_rect,
        final(ctx).batch@ == old(ctx).batch@,
        GraphicsContext::config_eq(*old(ctx), *final(ctx)),
        GraphicsContext::sync_eq(*old(ctx), *final(ctx)),
        final(ctx).window_commands@ == old(ctx).window_commands@,
{
    ctx.calculate_transform_matrix();
    Ok(())
}

/// Sets the blend mode of the currently active pipeline.
pub fn set_blend_mode(ctx: &mut GraphicsContext, mode: BlendMode) -> (r: GameResult<()>)
    requires
        old(ctx).wf(),
    ensures
        final(ctx).wf(),
        r is Ok,
        final(ctx).blend_mode == mode,
        GraphicsContext::scene_eq(*old(ctx), *final(ctx)),
        GraphicsContext::sync_eq(*old(ctx), *final(ctx)),
        final(ctx).batch@ == old(ctx).batch@,
        final(ctx).window_commands@ == old(ctx).window_commands@,
        final(ctx).clear_color == old(ctx).clear_color,
        final(ctx).default_filter == old(ctx).default_filter,
        final(ctx).srgb == old(ctx).srgb,
        final(ctx).window_mode == old(ctx).window_mode,
        final(ctx).white_image == old(ctx).white_image,
{
    ctx.set_blend_mode(mode)
}

/// Sets the window mode, such as the size and other properties.
///
/// Queues the corresponding requests for the windowing collaborator and
/// marks the swapchain stale, since the window size may change.  It is
/// recommended to call `set_screen_coordinates` after changing the
/// window size.
pub fn set_mode(ctx: &mut GraphicsContext, mode: WindowMode) -> (r: GameResult<()>)
    requires
        old(ctx).wf(),
    ensures
        final(ctx).wf(),
        r is Ok,
        final(ctx).window_commands@ == old(ctx).window_commands@
            + GraphicsContext::window_mode_commands(mode),
        final(ctx).window_mode == mode,
        final(ctx).swapchain.status is StaleOnResize,
        GraphicsContext::scene_eq(*old(ctx), *final(ctx)),
        final(ctx).batch@ == old(ctx).batch@,
        final(ctx).swapchain.image_count == old(ctx).swapchain.image_count,
        final(ctx).swapchain.width == old(ctx).swapchain.width,
        final(ctx).swapchain.height == old(ctx).swapchain.height,
        final(ctx).frames.fences() == old(ctx).frames.fences(),
        final(ctx).frames.current == old(ctx).frames.current,
        final(ctx).clear_color == old(ctx).clear_color,
        final(ctx).default_filter == old(ctx).default_filter,
        final(ctx).blend_mode == old(ctx).blend_mode,
        final(ctx).srgb == old(ctx).srgb,
        final(ctx).white_image == old(ctx).white_image,
{
    ctx.set_window_mode(&mode)
}

/// Sets the window to fullscreen or back.
pub fn set_fullscreen(ctx: &mut GraphicsContext, fullscreen: FullscreenType) -> (r: GameResult<()>)
    requires
        old(ctx).wf(),
    ensures
        final(ctx).wf(),
        r is Ok,
        final(ctx).window_mode == (WindowMode {
            fullscreen_type: fullscreen,
            ..old(ctx).window_mode
        }),
        final(ctx).swapchain.status is StaleOnResize,
        final(ctx).window_commands@ == old(ctx).window_commands@
            + GraphicsContext::window_mode_commands(
            WindowMode { fullscreen_type: fullscreen, ..old(ctx).window_mode },
        ),
        GraphicsContext::scene_eq(*old(ctx), *final(ctx)),
        final(ctx).batch@ == old(ctx).batch@,
        final(ctx).swapchain.image_count == old(ctx).swapchain.image_count,
        final(ctx).swapchain.width == old(ctx).swapchain.width,
        final(ctx).swapchain.height == old(ctx).swapchain.height,
        final(ctx).frames.fences() == old(ctx).frames.fences(),
        final(ctx).frames.current == old(ctx).frames.current,
        final(ctx).clear_color == old(ctx).clear_color,
        final(ctx).default_filter == old(ctx).default_filter,
        final(ctx).blend_mode == old(ctx).blend_mode,
        final(ctx).srgb == old(ctx).srgb,
        final(ctx).white_image == old(ctx).white_image,
{
    let mut window_mode = ctx.window_mode;
    window_mode.fullscreen_type = fullscreen;
    ctx.set_window_mode(&window_mode)
}

/// Sets the window size to the specified width and height, in pixels.
pub fn set_resolution(ctx: &mut GraphicsContext, width: u32, height: u32) -> (r: GameResult<()>)
    requires
        old(ctx).wf(),
    ensures
        final(ctx).wf(),
        r is Ok,
        final(ctx).window_mode == (WindowMode { width, height, ..old(ctx).window_mode }),
        final(ctx).swapchain.status is StaleOnResize,
        final(ctx).window_commands@ == old(ctx).window_commands@
            + GraphicsContext::window_mode_commands(
            WindowMode { width, height, ..old(ctx).window_mode },
        ),
        GraphicsContext::scene_eq(*old(ctx), *final(ctx)),
        final(ctx).batch@ == old(ctx).batch@,
        final(ctx).swapchain.image_count == old(ctx).swapchain.image_count,
        final(ctx).swapchain.width == old(ctx).swapchain.width,
        final(ctx).swapchain.height == old(ctx).swapchain.height,
        final(ctx).frames.fences() == old(ctx).frames.fences(),
        final(ctx).frames.current == old(ctx).frames.current,
        final(ctx).clear_color == old(ctx).clear_color,
        final(ctx).default_filter == old(ctx).default_filter,
        final(ctx).blend_mode == old(ctx).blend_mode,
        final(ctx).srgb == old(ctx).srgb,
        final(ctx).white_image == old(ctx).white_image,
{
    let mut window_mode = ctx.window_mode;
    window_mode.width = width;
    window_mode.height = height;
    ctx.set_window_mode(&window_mode)
}

/// Sets whether or not the window is resizable.
pub fn set_resizable(ctx: &mut GraphicsContext, resizable: bool) -> (r: GameResult<()>)
    requires
        old(ctx).wf(),
    ensures
        final(ctx).wf(),
        r is Ok,
        final(ctx).window_mode == (WindowMode { resizable, ..old(ctx).window_mode }),
        final(ctx).swapchain.status is StaleOnResize,
        final(ctx).window_commands@ == old(ctx).window_commands@
            + GraphicsContext::window_mode_commands(
            WindowMode { resizable, ..old(ctx).window_mode },
        ),
        GraphicsContext::scene_eq(*old(ctx), *final(ctx)),
        final(ctx).batch@ == old(ctx).batch@,
        final(ctx).swapchain.image_count == old(ctx).swapchain.image_count,
        final(ctx).swapchain.width == old(ctx).swapchain.width,
        final(ctx).swapchain.height == old(ctx).swapchain.height,
        final(ctx).frames.fences() == old(ctx).frames.fences(),
        final(ctx).frames.current == old(ctx).frames.current,
        final(ctx).clear_color == old(ctx).clear_color,
        final(ctx).default_filter == old(ctx).default_filter,
        final(ctx).blend_mode == old(ctx).blend_mode,
        final(ctx).srgb == old(ctx).srgb,
        final(ctx).white_image == old(ctx).white_image,
{
    let mut window_mode = ctx.window_mode;
    window_mode.resizable = resizable;
    ctx.set_window_mode(&window_mode)
}

/// Sets the window icon from the image file at the given path, or
/// clears it.  The windowing collaborator reads and decodes the file.
pub fn set_window_icon(ctx: &mut GraphicsContext, path: Option<&str>) -> (r: GameResult<()>)
    requires
        old(ctx).wf(),
    ensures
        final(ctx).wf(),
        r is Ok,
        final(ctx).window_commands@.len() == old(ctx).window_commands@.len() + 1,
        final(ctx).window_commands@.subrange(0, old(ctx).window_commands@.len() as int) == old(
            ctx,
        ).window_commands@,
        match path {
            Some(p) => final(ctx).window_commands@.last()
                matches crate::conf::WindowCommand::SetIcon(Some(s)) && s@ == p@,
            None => final(ctx).window_commands@.last() == crate::conf::WindowCommand::SetIcon(
                None::<String>,
            ),
        },
        GraphicsContext::scene_eq(*old(ctx), *final(ctx)),
        GraphicsContext::sync_eq(*old(ctx), *final(ctx)),
        GraphicsContext::config_eq(*old(ctx), *final(ctx)),
        final(ctx).batch@ == old(ctx).batch@,
{
    ctx.set_window_icon(path)
}

/// Sets the window title.
pub fn set_window_title(ctx: &mut GraphicsContext, title: &str)
    requires
        old(ctx).wf(),
    ensures
        final(ctx).wf(),
        final(ctx).window_commands@.len() == old(ctx).window_commands@.len() + 1,
        final(ctx).window_commands@.subrange(0, old(ctx).window_commands@.len() as int) == old(
            ctx,
        ).window_commands@,
        final(ctx).window_commands@.last() matches crate::conf::WindowCommand::SetTitle(s) && s@
            == title@,
        GraphicsContext::scene_eq(*old(ctx), *final(ctx)),
        GraphicsContext::sync_eq(*old(ctx), *final(ctx)),
        GraphicsContext::config_eq(*old(ctx), *final(ctx)),
        final(ctx).batch@ == old(ctx).batch@,
{
    ctx.set_window_title(title);
}

} // verus!
