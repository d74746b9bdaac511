//! The draw batch: per-frame, append-only instance records.
//!
//! Each draw call becomes one instance record carrying the source UV
//! rectangle, four column vectors forming the per-instance model
//! transform, and an RGBA color.  The transform is pre-multiplied by a
//! scale derived from the source rectangle and the texture's pixel
//! dimensions, so a unit quad maps onto a pixel-accurate sprite.
//! Records accumulate in insertion order; recording never fails.

use vstd::prelude::*;
use crate::matrix::{div_trunc, fx_scale_down, lemma_mul_bound, Mat4, Vec4, FX_ONE};
use vstd::arithmetic::div_mod::lemma_div_is_ordered;
use crate::types::{Color, FilterMode, Point2, Rect, Vector2};

verus! {

/// Bound on the magnitude of a draw parameter field (source rectangle,
/// destination, scale), so per-instance transforms cannot overflow.
pub const PARAM_MAX: i64 = 0x100_0000;

/// Bound on a texture dimension accepted by the draw path.
pub const TEX_MAX: u32 = 0x10_0000;

/// The parameters of one draw request.
#[derive(Debug, Clone, Copy, PartialEq, Eq, Structural)]
pub struct DrawParam {
    /// Portion of the texture to draw, as a fraction of its size:
    /// `(0, 0, FX_ONE, FX_ONE)` selects the whole texture.
    pub src: Rect,
    /// Where to put the top-left corner, in screen units.
    pub dest: Point2,
    /// Additional scale applied to the sprite.
    pub scale: Vector2,
    /// Color modulation.
    pub color: Color,
}

impl DrawParam {
    /// All fields small enough for the per-instance transform math.
    pub open spec fn fits(self) -> bool {
        &&& -PARAM_MAX <= self.src.x <= PARAM_MAX
        &&& -PARAM_MAX <= self.src.y <= PARAM_MAX
        &&& -PARAM_MAX <= self.src.w <= PARAM_MAX
        &&& -PARAM_MAX <= self.src.h <= PARAM_MAX
        &&& -PARAM_MAX <= self.dest.x <= PARAM_MAX
        &&& -PARAM_MAX <= self.dest.y <= PARAM_MAX
        &&& -PARAM_MAX <= self.scale.x <= PARAM_MAX
        &&& -PARAM_MAX <= self.scale.y <= PARAM_MAX
    }

    /// The default parameters: whole texture, origin destination, unit
    /// scale, white color.
    pub open spec fn default_spec() -> DrawParam {
        DrawParam {
            src: Rect { x: 0, y: 0, w: FX_ONE, h: FX_ONE },
            dest: Point2 { x: 0, y: 0 },
            scale: Vector2 { x: FX_ONE, y: FX_ONE },
            color: Color { r: 255, g: 255, b: 255, a: 255 },
        }
    }

    /// Default draw parameters.
    pub fn new() -> (p: DrawParam)
        ensures
            p == DrawParam::default_spec(),
            p.fits(),
    {
        DrawParam {
            src: Rect { x: 0, y: 0, w: FX_ONE, h: FX_ONE },
            dest: Point2 { x: 0, y: 0 },
            scale: Vector2 { x: FX_ONE, y: FX_ONE },
            color: Color { r: 255, g: 255, b: 255, a: 255 },
        }
    }
}

/// One vertex of the built-in quad geometry: position and texture
/// coordinates in fixed-point units, plus a color.
#[derive(Debug, Clone, Copy, PartialEq, Eq, Structural)]
pub struct Vertex {
    /// Position component.
    pub pos: Point2,
    /// Texture coordinates component.
    pub uv: Point2,
    /// Color component.
    pub color: Color,
}

/// The four corners of the built-in unit quad, in order: top-left,
/// top-right, bottom-right, bottom-left, each with matching texture
/// coordinates and a white color.  Draw requests that supply no
/// geometry of their own are drawn with this quad, which the instance
/// transform then maps onto a pixel-accurate sprite.
pub fn quad_vertices() -> (r: Vec<Vertex>)
    ensures
        r@ =~= seq![
            Vertex { pos: (Point2 { x: 0, y: 0 }), uv: (Point2 { x: 0, y: 0 }), color: Color { r: 255, g: 255, b: 255, a: 255 } },
            Vertex {
                pos: (Point2 { x: FX_ONE, y: 0 }),
                uv: (Point2 { x: FX_ONE, y: 0 }),
                color: Color { r: 255, g: 255, b: 255, a: 255 },
            },
            Vertex {
                pos: (Point2 { x: FX_ONE, y: FX_ONE }),
                uv: (Point2 { x: FX_ONE, y: FX_ONE }),
                color: Color { r: 255, g: 255, b: 255, a: 255 },
            },
            Vertex {
                pos: (Point2 { x: 0, y: FX_ONE }),
                uv: (Point2 { x: 0, y: FX_ONE }),
                color: Color { r: 255, g: 255, b: 255, a: 255 },
            },
        ],
{
    let white = Color { r: 255, g: 255, b: 255, a: 255 };
    let mut v: Vec<Vertex> = Vec::new();
    v.push(Vertex { pos: (Point2 { x: 0, y: 0 }), uv: (Point2 { x: 0, y: 0 }), color: white });
    v.push(Vertex { pos: Point2 { x: FX_ONE, y: 0 }, uv: Point2 { x: FX_ONE, y: 0 }, color: white });
    v.push(Vertex { pos: Point2 { x: FX_ONE, y: FX_ONE }, uv: Point2 { x: FX_ONE, y: FX_ONE }, color: white });
    v.push(Vertex { pos: Point2 { x: 0, y: FX_ONE }, uv: Point2 { x: 0, y: FX_ONE }, color: white });
    v
}

/// The index list that draws the unit quad as two triangles.
pub fn quad_indices() -> (r: Vec<u16>)
    ensures
        r@ =~= seq![0u16, 1u16, 2u16, 0u16, 2u16, 3u16],
{
    let mut v: Vec<u16> = Vec::new();
    v.push(0);
    v.push(1);
    v.push(2);
    v.push(0);
    v.push(2);
    v.push(3);
    v
}

/// The per-instance data uploaded for one draw: source rectangle, the
/// four columns of the instance transform, and a color.
#[derive(Debug, Clone, Copy, PartialEq, Eq, Structural)]
pub struct InstanceProperties {
    /// Source UV rectangle.
    pub src: Rect,
    /// First column of the instance transform.
    pub col1: Vec4,
    /// Second column of the instance transform.
    pub col2: Vec4,
    /// Third column of the instance transform.
    pub col3: Vec4,
    /// Fourth column of the instance transform.
    pub col4: Vec4,
    /// RGBA color.
    pub color: Color,
}

impl InstanceProperties {
    /// The identity instance: whole texture, identity transform, white.
    pub open spec fn default_spec() -> InstanceProperties {
        InstanceProperties {
            src: Rect { x: 0, y: 0, w: FX_ONE, h: FX_ONE },
            col1: Vec4 { x: FX_ONE, y: 0, z: 0, w: 0 },
            col2: Vec4 { x: 0, y: FX_ONE, z: 0, w: 0 },
            col3: Vec4 { x: 0, y: 0, z: FX_ONE, w: 0 },
            col4: Vec4 { x: 0, y: 0, z: 0, w: FX_ONE },
            color: Color { r: 255, g: 255, b: 255, a: 255 },
        }
    }
}

impl Default for InstanceProperties {
    /// The identity instance record.
    fn default() -> (r: InstanceProperties)
        ensures
            r == InstanceProperties::default_spec(),
    {
        InstanceProperties {
            src: Rect { x: 0, y: 0, w: FX_ONE, h: FX_ONE },
            col1: Vec4 { x: FX_ONE, y: 0, z: 0, w: 0 },
            col2: Vec4 { x: 0, y: FX_ONE, z: 0, w: 0 },
            col3: Vec4 { x: 0, y: 0, z: FX_ONE, w: 0 },
            col4: Vec4 { x: 0, y: 0, z: 0, w: FX_ONE },
            color: Color { r: 255, g: 255, b: 255, a: 255 },
        }
    }
}

/// One entry of the draw batch: the instance record plus the texture and
/// sampler it targets.
#[derive(Debug, Clone, Copy, PartialEq, Eq, Structural)]
pub struct DrawRecord {
    /// The per-instance data.
    pub instance: InstanceProperties,
    /// Width in pixels of the texture the record samples.
    pub texture_width: u32,
    /// Height in pixels of the texture the record samples.
    pub texture_height: u32,
    /// The sampler's filter mode.
    pub filter: FilterMode,
}

/// The horizontal pixel scale of an instance: the requested scale times
/// the source width times the texture width in pixels.
pub open spec fn instance_scale_x(p: DrawParam, tex_w: u32) -> int {
    fx_scale_down(p.scale.x * p.src.w) * tex_w
}

/// The vertical pixel scale of an instance.
pub open spec fn instance_scale_y(p: DrawParam, tex_h: u32) -> int {
    fx_scale_down(p.scale.y * p.src.h) * tex_h
}

/// The instance record a draw request produces against a texture of the
/// given pixel dimensions.
pub open spec fn instance_spec(p: DrawParam, tex_w: u32, tex_h: u32) -> InstanceProperties {
    InstanceProperties {
        src: p.src,
        col1: Vec4 { x: instance_scale_x(p, tex_w) as i64, y: 0, z: 0, w: 0 },
        col2: Vec4 { x: 0, y: instance_scale_y(p, tex_h) as i64, z: 0, w: 0 },
        col3: Vec4 { x: 0, y: 0, z: FX_ONE, w: 0 },
        col4: Vec4 { x: p.dest.x, y: p.dest.y, z: 0, w: FX_ONE },
        color: p.color,
    }
}

/// The transform matrix a draw request denotes on its own, before the
/// texture-derived scale: scale by `p.scale`, then translate to
/// `p.dest`.
pub open spec fn param_matrix_spec(p: DrawParam) -> Mat4 {
    Mat4 {
        c0r0: p.scale.x, c0r1: 0, c0r2: 0, c0r3: 0,
        c1r0: 0, c1r1: p.scale.y, c1r2: 0, c1r3: 0,
        c2r0: 0, c2r1: 0, c2r2: FX_ONE, c2r3: 0,
        c3r0: p.dest.x, c3r1: p.dest.y, c3r2: 0, c3r3: FX_ONE,
    }
}

/// Builds the transform matrix a draw request denotes on its own.
pub fn param_matrix(p: &DrawParam) -> (m: Mat4)
    requires
        p.fits(),
    ensures
        m == param_matrix_spec(*p),
        m.fits(),
{
    Mat4 {
        c0r0: p.scale.x, c0r1: 0, c0r2: 0, c0r3: 0,
        c1r0: 0, c1r1: p.scale.y, c1r2: 0, c1r3: 0,
        c2r0: 0, c2r1: 0, c2r2: FX_ONE, c2r3: 0,
        c3r0: p.dest.x, c3r1: p.dest.y, c3r2: 0, c3r3: FX_ONE,
    }
}

/// One axis of the pixel scale: `scale * src_extent`, scaled down by one
/// fixed-point unit, times the texture extent.
fn scale_axis(scale: i64, src_extent: i64, tex_extent: u32) -> (r: i64)
    requires
        -PARAM_MAX <= scale <= PARAM_MAX,
        -PARAM_MAX <= src_extent <= PARAM_MAX,
        tex_extent <= TEX_MAX,
    ensures
        r == fx_scale_down(scale * src_extent) * tex_extent,
{
    proof {
        lemma_mul_bound(scale as int, src_extent as int, PARAM_MAX as int, PARAM_MAX as int);
    }
    let prod: i128 = (scale as i128) * (src_extent as i128);
    let q: i128 = div_trunc(prod, FX_ONE as i128);
    proof {
        if prod >= 0 {
            lemma_div_is_ordered(prod as int, (PARAM_MAX * PARAM_MAX) as int, FX_ONE as int);
        } else {
            lemma_div_is_ordered((-prod) as int, (PARAM_MAX * PARAM_MAX) as int, FX_ONE as int);
        }
        lemma_mul_bound(q as int, tex_extent as int, 0x1_0000_0000, TEX_MAX as int);
    }
    (q as i64) * (tex_extent as i64)
}

/// Builds the instance record for one draw request against a texture of
/// the given pixel dimensions.
pub fn make_instance(p: &DrawParam, tex_w: u32, tex_h: u32) -> (r: InstanceProperties)
    requires
        p.fits(),
        tex_w <= TEX_MAX,
        tex_h <= TEX_MAX,
    ensures
        r == instance_spec(*p, tex_w, tex_h),
{
    let sx = scale_axis(p.scale.x, p.src.w, tex_w);
    let sy = scale_axis(p.scale.y, p.src.h, tex_h);
    InstanceProperties {
        src: p.src,
        col1: Vec4 { x: sx, y: 0, z: 0, w: 0 },
        col2: Vec4 { x: 0, y: sy, z: 0, w: 0 },
        col3: Vec4 { x: 0, y: 0, z: FX_ONE, w: 0 },
        col4: Vec4 { x: p.dest.x, y: p.dest.y, z: 0, w: FX_ONE },
        color: p.color,
    }
}

} // verus!
