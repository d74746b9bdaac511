//! GPU-resident 2D textures, modeled by their observable contents.
//!
//! An `Image` is created with fixed width and height and is immutable in
//! size thereafter.  Its pixel data is row-major RGBA with 8-bit
//! channels: the first four bytes are the top-left pixel.  The backend
//! uploads the bytes through a staging buffer; everything the rest of
//! the renderer reads of a texture (dimensions, pixels, sampler state)
//! is held here as plain values.

use vstd::prelude::*;
use vstd::slice::slice_to_vec;
use vstd::string::StringExecFns;
use crate::batch::{instance_spec, make_instance, DrawParam, DrawRecord, TEX_MAX};
use crate::context::GraphicsContext;
use crate::error::{GameError, GameResult};
use crate::graphics::Drawable;
use crate::matrix::FX_ONE;
use crate::shader::BlendMode;
use crate::types::{FilterMode, Rect, WrapMode};

verus! {

/// The supported formats for saving an image.
#[derive(Debug, Copy, Clone, PartialEq, Eq, Structural)]
pub enum ImageFormat {
    /// .png image format (defaults to RGBA with 8-bit channels.)
    Png,
}

/// In-GPU-memory image data available to be drawn on the screen.
#[derive(Debug)]
pub struct Image {
    /// Width in pixels.  Fixed at construction, never zero.
    pub width: u32,
    /// Height in pixels.  Fixed at construction, never zero.
    pub height: u32,
    /// The RGBA8 contents, row-major, exactly `width * height * 4`
    /// bytes.
    pub pixels: Vec<u8>,
    /// The sampler filter mode used when drawing this image.
    pub filter: FilterMode,
    /// The sampler wrap modes along the X and Y axes.
    pub wrap: (WrapMode, WrapMode),
    /// A blend mode overriding the context's, if set.
    pub blend_mode: Option<BlendMode>,
}

impl Image {
    /// Valid dimensions, and pixel data of exactly the right length.
    pub open spec fn wf(self) -> bool {
        &&& self.width > 0
        &&& self.height > 0
        &&& self.pixels@.len() == self.width * self.height * 4
    }

    /// Whether `from_rgba8` accepts these arguments: both dimensions
    /// nonzero and exactly `width * height * 4` bytes of data.
    pub open spec fn valid_rgba8(width: u32, height: u32, len: int) -> bool {
        &&& width != 0
        &&& height != 0
        &&& len == width * height * 4
    }

    /// Creates a new `Image` from the given buffer of `u8` RGBA values.
    ///
    /// The pixel layout is row-major: the first 4 values make the
    /// top-left pixel, the next 4 the next pixel in the same row, and so
    /// on; each row is `width * 4` values.
    ///
    /// Fails, touching nothing, when a dimension is zero or the byte
    /// count does not match the dimensions exactly.
    pub fn from_rgba8(width: u32, height: u32, rgba: &[u8]) -> (r: GameResult<Image>)
        ensures
            match r {
                Ok(img) => {
                    &&& Image::valid_rgba8(width, height, rgba@.len() as int)
                    &&& img.wf()
                    &&& img.width == width
                    &&& img.height == height
                    &&& img.pixels@ == rgba@
                    &&& img.filter == FilterMode::Linear
                    &&& img.wrap == (WrapMode::Clamp, WrapMode::Clamp)
                    &&& img.blend_mode is None
                },
                Err(e) => {
                    &&& !Image::valid_rgba8(width, height, rgba@.len() as int)
                    &&& e is ResourceLoadError
                },
            },
    {
        if width == 0 || height == 0 {
            return Err(
                GameError::ResourceLoadError(
                    String::from_str("image dimensions must both be nonzero"),
                ),
            );
        }
        proof {
            crate::matrix::lemma_mul_bound(
                width as int,
                height as int,
                u32::MAX as int,
                u32::MAX as int,
            );
        }
        let expected: u128 = (width as u128) * (height as u128) * 4;
        if (rgba.len() as u128) != expected {
            return Err(
                GameError::ResourceLoadError(
                    String::from_str("pixel data length does not match the image dimensions"),
                ),
            );
        }
        Ok(
            Image {
                width,
                height,
                pixels: slice_to_vec(rgba),
                filter: FilterMode::Linear,
                wrap: (WrapMode::Clamp, WrapMode::Clamp),
                blend_mode: None,
            },
        )
    }

    /// Dumps the `Image`'s data to a `Vec` of `u8` RGBA values.
    pub fn to_rgba8(&self) -> (r: GameResult<Vec<u8>>)
        ensures
            r matches Ok(v) && v@ == self.pixels@,
    {
        let mut out: Vec<u8> = Vec::new();
        let n = self.pixels.len();
        for i in 0..n
            invariant
                n == self.pixels@.len(),
                out@ == self.pixels@.subrange(0, i as int),
        {
            out.push(self.pixels[i]);
        }
        proof {
            assert(self.pixels@.subrange(0, n as int) =~= self.pixels@);
        }
        Ok(out)
    }

    /// Return the width of the image.
    pub fn width(&self) -> (w: u32)
        ensures
            w == self.width,
    {
        self.width
    }

    /// Return the height of the image.
    pub fn height(&self) -> (h: u32)
        ensures
            h == self.height,
    {
        self.height
    }

    /// Get the filter mode for the image.
    pub fn filter(&self) -> (f: FilterMode)
        ensures
            f == self.filter,
    {
        self.filter
    }

    /// Set the filter mode for the image.
    pub fn set_filter(&mut self, mode: FilterMode)
        ensures
            *final(self) == (Image { filter: mode, ..*old(self) }),
    {
        self.filter = mode;
    }

    /// Returns the dimensions of the image, in fixed-point screen units.
    pub fn dimensions(&self) -> (r: Rect)
        ensures
            r == (Rect {
                x: 0i64,
                y: 0i64,
                w: (self.width * FX_ONE) as i64,
                h: (self.height * FX_ONE) as i64,
            }),
    {
        Rect {
            x: 0,
            y: 0,
            w: (self.width as i64) * FX_ONE,
            h: (self.height as i64) * FX_ONE,
        }
    }

    /// Gets the `Image`'s `WrapMode` along the X and Y axes.
    pub fn wrap(&self) -> (r: (WrapMode, WrapMode))
        ensures
            r == self.wrap,
    {
        self.wrap
    }

    /// Sets the `Image`'s `WrapMode` along the X and Y axes.
    pub fn set_wrap(&mut self, wrap_x: WrapMode, wrap_y: WrapMode)
        ensures
            *final(self) == (Image { wrap: (wrap_x, wrap_y), ..*old(self) }),
    {
        self.wrap = (wrap_x, wrap_y);
    }

    /// Sets the blend mode to be used when drawing this image,
    /// overriding the context's blend mode; `None` defers to it.
    pub fn set_blend_mode(&mut self, mode: Option<BlendMode>)
        ensures
            *final(self) == (Image { blend_mode: mode, ..*old(self) }),
    {
        self.blend_mode = mode;
    }

    /// Gets the blend mode of the image.
    pub fn blend_mode(&self) -> (r: Option<BlendMode>)
        ensures
            r == self.blend_mode,
    {
        self.blend_mode
    }
}

impl Drawable for Image {
    /// The parameters and the texture dimensions must be small enough
    /// for the instance transform math.
    open spec fn draw_req(&self, ctx: GraphicsContext, param: DrawParam) -> bool {
        &&& param.fits()
        &&& self.width <= TEX_MAX
        &&& self.height <= TEX_MAX
    }

    /// One record: this texture, scaled so a unit quad covers the
    /// selected source region pixel-accurately.
    open spec fn draw_records(&self, param: DrawParam) -> Seq<DrawRecord> {
        seq![
            DrawRecord {
                instance: instance_spec(param, self.width, self.height),
                texture_width: self.width,
                texture_height: self.height,
                filter: self.filter,
            },
        ]
    }

    /// Drawing an image does not touch the transform state.
    open spec fn mvp_after(&self, ctx: GraphicsContext) -> Seq<int> {
        ctx.mvp@
    }

    fn draw(&self, ctx: &mut GraphicsContext, param: DrawParam) -> GameResult<()> {
        let instance = make_instance(&param, self.width, self.height);
        let mut records: Vec<DrawRecord> = Vec::new();
        records.push(
            DrawRecord {
                instance,
                texture_width: self.width,
                texture_height: self.height,
                filter: self.filter,
            },
        );
        ctx.record_draw(&records);
        proof {
            assert(old(ctx).batch@ + records@ =~= old(ctx).batch@ + self.draw_records(param));
        }
        Ok(())
    }

    fn set_blend_mode(&mut self, mode: Option<BlendMode>) {
        self.blend_mode = mode;
    }

    fn blend_mode(&self) -> Option<BlendMode> {
        self.blend_mode
    }
}

} // verus!
