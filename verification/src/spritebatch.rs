//! A `SpriteBatch` is a way to efficiently draw a large number of
//! copies of the same image, or part of the same image.  It's useful
//! for implementing tiled maps, spritesheets, particles, and other such
//! things.
//!
//! Essentially this uses a technique called "instancing" to queue up a
//! large amount of location/position data in a buffer, then feed it to
//! the graphics card all in one go.  Computing the per-sprite instance
//! records is a pure fan-out over the sprites and runs in parallel; it
//! completes before the records join the batch, so insertion order is
//! preserved.

use vstd::prelude::*;
use vstd::string::StringExecFns;
use rayon::iter::IntoParallelRefIterator;
use rayon::iter::ParallelIterator;
use crate::batch::{
    instance_spec, make_instance, param_matrix, param_matrix_spec, DrawParam, DrawRecord,
    InstanceProperties, TEX_MAX,
};
use crate::context::GraphicsContext;
use crate::error::{GameError, GameResult};
use crate::graphics::Drawable;
use crate::image::Image;
use crate::matrix::{lemma_seq_fits, mat_mul, mat_mul_spec, seq_fits};
use crate::shader::BlendMode;

verus! {

/// A `SpriteBatch` draws a number of copies of the same image, using a
/// single draw call.
///
/// This is generally faster than drawing the same sprite with many
/// invocations of `draw()`, though it has a bit of overhead to set up
/// the batch.
#[derive(Debug)]
pub struct SpriteBatch {
    /// The image every sprite of the batch samples.
    pub image: Image,
    /// The queued sprites, in insertion order.
    pub sprites: Vec<DrawParam>,
    /// A blend mode overriding the context's, if set.
    pub blend_mode: Option<BlendMode>,
}

/// An index of a particular sprite in a `SpriteBatch`.
#[derive(Copy, Clone, Debug, PartialEq, Eq, PartialOrd, Ord, Hash, Structural)]
pub struct SpriteIdx(pub usize);

impl SpriteBatch {
    /// Creates a new `SpriteBatch`, drawing with the given image.
    pub fn new(image: Image) -> (b: SpriteBatch)
        ensures
            b.image == image,
            b.sprites@.len() == 0,
            b.blend_mode is None,
    {
        SpriteBatch { image, sprites: Vec::new(), blend_mode: None }
    }

    /// Adds a new sprite to the sprite batch.
    ///
    /// Returns a handle with which to modify the sprite using `set()`.
    pub fn add(&mut self, param: DrawParam) -> (idx: SpriteIdx)
        ensures
            final(self).sprites@ == old(self).sprites@.push(param),
            idx == SpriteIdx(old(self).sprites@.len() as usize),
            final(self).image == old(self).image,
            final(self).blend_mode == old(self).blend_mode,
    {
        self.sprites.push(param);
        SpriteIdx(self.sprites.len() - 1)
    }

    /// Alters a sprite in the batch to use the given draw params.
    /// Fails exactly when the handle is out of bounds, leaving the
    /// batch untouched.
    pub fn set(&mut self, handle: SpriteIdx, param: DrawParam) -> (r: GameResult<()>)
        ensures
            final(self).image == old(self).image,
            final(self).blend_mode == old(self).blend_mode,
            match r {
                Ok(()) => {
                    &&& handle.0 < old(self).sprites@.len()
                    &&& final(self).sprites@ == old(self).sprites@.update(
                        handle.0 as int,
                        param,
                    )
                },
                Err(e) => {
                    &&& handle.0 >= old(self).sprites@.len()
                    &&& final(self).sprites@ == old(self).sprites@
                    &&& e is RenderError
                },
            },
    {
        if handle.0 < self.sprites.len() {
            self.sprites[handle.0] = param;
            Ok(())
        } else {
            Err(GameError::RenderError(String::from_str("provided index is out of bounds")))
        }
    }

    /// Removes all data from the sprite batch.
    pub fn clear(&mut self)
        ensures
            final(self).sprites@.len() == 0,
            final(self).image == old(self).image,
            final(self).blend_mode == old(self).blend_mode,
    {
        self.sprites.clear();
    }

    /// Unwraps and returns the contained `Image`.
    pub fn into_inner(self) -> (img: Image)
        ensures
            img == self.image,
    {
        self.image
    }

    /// Replaces the contained `Image`, returning the old one.
    pub fn set_image(&mut self, image: Image) -> (prev: Image)
        ensures
            final(self).image == image,
            prev == old(self).image,
            final(self).sprites@ == old(self).sprites@,
            final(self).blend_mode == old(self).blend_mode,
    {
        let mut image = image;
        core::mem::swap(&mut self.image, &mut image);
        image
    }
}

/// Computes the instance records of all sprites, one per sprite in
/// order, fanning the pure per-sprite computation out over a thread
/// pool.
///
/// Relies on rayon's `par_iter().map(..).collect()`: an indexed
/// parallel iterator maps each element independently and collects in
/// input order, so the result equals the sequential map.
#[verifier::external_body]
fn par_make_instances(sprites: &Vec<DrawParam>, tex_w: u32, tex_h: u32) -> (r: Vec<
    InstanceProperties,
>)
    requires
        forall|i: int| 0 <= i < sprites@.len() ==> (#[trigger] sprites@[i]).fits(),
        tex_w <= TEX_MAX,
        tex_h <= TEX_MAX,
    ensures
        r@ == sprites@.map_values(|p: DrawParam| instance_spec(p, tex_w, tex_h)),
{
    sprites.par_iter().map(|p| make_instance(p, tex_w, tex_h)).collect()
}

impl Drawable for SpriteBatch {
    /// Every sprite and the batch parameters must be in range, and the
    /// combined transform pushed for the batch must stay bounded.
    open spec fn draw_req(&self, ctx: GraphicsContext, param: DrawParam) -> bool {
        &&& param.fits()
        &&& self.image.width <= TEX_MAX
        &&& self.image.height <= TEX_MAX
        &&& forall|i: int| 0 <= i < self.sprites@.len() ==> (#[trigger] self.sprites@[i]).fits()
        &&& seq_fits(mat_mul_spec(param_matrix_spec(param)@, ctx.modelview_stack.top()@))
    }

    /// One record per sprite, in insertion order, each against the
    /// batch's image.
    open spec fn draw_records(&self, param: DrawParam) -> Seq<DrawRecord> {
        self.sprites@.map_values(
            |p: DrawParam|
                DrawRecord {
                    instance: instance_spec(p, self.image.width, self.image.height),
                    texture_width: self.image.width,
                    texture_height: self.image.height,
                    filter: self.image.filter,
                },
        )
    }

    /// Drawing the batch recomputes the MVP from the unchanged stack
    /// top after its transient push is popped.
    open spec fn mvp_after(&self, ctx: GraphicsContext) -> Seq<int> {
        mat_mul_spec(ctx.projection@, ctx.modelview_stack.top()@)
    }

    fn draw(&self, ctx: &mut GraphicsContext, param: DrawParam) -> GameResult<()> {
        let instances = par_make_instances(&self.sprites, self.image.width, self.image.height);
        let current = ctx.transform();
        let pm = param_matrix(&param);
        let combined = mat_mul(&pm, &current);
        proof {
            lemma_seq_fits(combined);
        }
        ctx.push_transform(combined);
        ctx.calculate_transform_matrix();
        let mut records: Vec<DrawRecord> = Vec::new();
        let n = instances.len();
        for i in 0..n
            invariant
                n == instances@.len(),
                records@.len() == i,
                forall|j: int|
                    0 <= j < i ==> records@[j] == (DrawRecord {
                        instance: instances@[j],
                        texture_width: self.image.width,
                        texture_height: self.image.height,
                        filter: self.image.filter,
                    }),
        {
            records.push(
                DrawRecord {
                    instance: instances[i],
                    texture_width: self.image.width,
                    texture_height: self.image.height,
                    filter: self.image.filter,
                },
            );
        }
        proof {
            assert(records@ =~= self.draw_records(param));
        }
        ctx.record_draw(&records);
        ctx.pop_transform();
        ctx.calculate_transform_matrix();
        proof {
            assert(old(ctx).modelview_stack@.push(combined).drop_last() =~= old(
                ctx,
            ).modelview_stack@);
        }
        Ok(())
    }

    fn set_blend_mode(&mut self, mode: Option<BlendMode>) {
        self.blend_mode = mode;
    }

    fn blend_mode(&self) -> Option<BlendMode> {
        self.blend_mode
    }
}

} // verus!
