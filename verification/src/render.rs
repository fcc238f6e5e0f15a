//! The frame driver: the state that lasts from frame to frame, the caches of
//! GPU textures, and the plan of each frame.

use crate::draw::{views, DrawCall};
use crate::entity::{
    background_draws, blit_fbo, bottom_layer_draw, layer_rendered, layer_strokable,
    lemma_background_leaves_copy, lemma_layer_leaves_copy, render_background, render_layer,
};
use crate::frame::{BottomPass, Frame};
use crate::scalar::Scalar;
use crate::scene::Scene;
use crate::texture::{planned_upload, texture_upload, TextureUpload};
use crate::types::{GlImage, GlImageData, Outline, Tessellation};
use vstd::prelude::*;

verus! {

/// Converts a dimension to the signed size that the graphics interface takes.
pub fn gl_size(value: u32) -> (size: i32)
    requires
        value <= i32::MAX,
    ensures
        size == value,
{
    value as i32
}

/// The signed size of a dimension, or nothing where it exceeds the range
/// that the graphics interface takes.
pub fn checked_gl_size(value: u32) -> (size: Option<i32>)
    ensures
        value <= i32::MAX ==> size == Some(value as i32),
        value > i32::MAX ==> size is None,
{
    if value <= 0x7fff_ffff {
        Some(gl_size(value))
    } else {
        None
    }
}

/// The texture that was uploaded for one image.
pub struct TextureEntry<H> {
    /// The image's identity.
    pub image: u64,
    pub texture: H,
}

/// The one blurred background that is kept.
pub struct BlurCache<H> {
    /// Identity of the source image.
    pub source: u64,
    /// The blur setting this was computed for.
    pub blur_value: Scalar,
    /// The texture that holds the blurred pixels.
    pub texture: H,
}

/// What lasts from one frame to the next. `H` is the GPU's handle on a texture.
pub struct GlowRenderer<H> {
    /// Current dimensions of both render targets.
    pub fbo_size: [u32; 2],
    /// Whether the resolved copy of the bottom layer is stale.
    pub bottom_layer_dirty: bool,
    /// The blurred background, kept while image and blur setting stay the same.
    pub blur_cache: Option<BlurCache<H>>,
    /// The texture of every image that was drawn so far.
    pub textures: Vec<TextureEntry<H>>,
}

/// The renderer's state, as contracts see it.
pub struct RendererView<H> {
    pub width: u32,
    pub height: u32,
    pub dirty: bool,
    pub blur: Option<BlurCache<H>>,
    pub textures: Seq<TextureEntry<H>>,
}

impl<H> View for GlowRenderer<H> {
    type V = RendererView<H>;

    open spec fn view(&self) -> RendererView<H> {
        RendererView {
            width: self.fbo_size[0],
            height: self.fbo_size[1],
            dirty: self.bottom_layer_dirty,
            blur: self.blur_cache,
            textures: self.textures@,
        }
    }
}

impl<H> RendererView<H> {
    /// No image has two textures.
    pub open spec fn wf(self) -> bool {
        forall|i: int, j: int|
            0 <= i < j < self.textures.len() ==> (#[trigger] self.textures[i]).image != (
            #[trigger] self.textures[j]).image
    }

    /// Whether a texture was uploaded for the image.
    pub open spec fn uploaded(self, image: u64) -> bool {
        exists|i: int| 0 <= i < self.textures.len() && (#[trigger] self.textures[i]).image == image
    }

    /// The texture that was uploaded for the image, if one was.
    pub open spec fn texture_of(self, image: u64) -> Option<H> {
        if self.uploaded(image) {
            let i = choose|i: int|
                0 <= i < self.textures.len() && (#[trigger] self.textures[i]).image == image;
            Some(self.textures[i].texture)
        } else {
            None
        }
    }

    /// The state after a texture was uploaded for the image.
    pub open spec fn with_texture(self, image: u64, texture: H) -> RendererView<H> {
        RendererView { textures: self.textures.push(TextureEntry { image, texture }), ..self }
    }

    /// The state that a request for an image's texture leaves, where an
    /// upload would give `uploaded`: nothing changes if the image has its
    /// texture, else the upload is kept.
    pub open spec fn texture_ensured(self, image: u64, uploaded: H) -> (RendererView<H>, H) {
        match self.texture_of(image) {
            Some(kept) => (self, kept),
            None => (self.with_texture(image, uploaded), uploaded),
        }
    }

    /// The blurred texture that a request for `(image, blur)` finds: the kept
    /// one if it was made from the same image with a blur setting within
    /// tolerance of the request, none otherwise.
    pub open spec fn blurred(self, image: u64, blur: Scalar) -> Option<H> {
        match self.blur {
            Some(kept) => if kept.source == image && kept.blur_value.near(blur) {
                Some(kept.texture)
            } else {
                None
            },
            None => None,
        }
    }

    /// The texture that a new blurred background pushes out.
    pub open spec fn evicted(self) -> Option<H> {
        match self.blur {
            Some(kept) => Some(kept.texture),
            None => None,
        }
    }

    /// The state that a request for a blurred texture leaves, with the
    /// texture it gives and the one it pushes out, where blurring anew would
    /// give `created`.
    pub open spec fn blur_ensured(self, image: u64, blur: Scalar, created: H) -> (
        RendererView<H>,
        H,
        Option<H>,
    ) {
        match self.blurred(image, blur) {
            Some(kept) => (self, kept, None),
            None => (
                RendererView {
                    blur: Some(BlurCache { source: image, blur_value: blur, texture: created }),
                    ..self
                },
                created,
                self.evicted(),
            ),
        }
    }

    /// Whether the render targets have another size than the output.
    pub open spec fn resized(self, width: u32, height: u32) -> bool {
        self.width != width || self.height != height
    }

    /// Whether a frame renders the bottom layer anew: when the scene says
    /// that it changed, when its resolved copy is stale, or when the output
    /// has a new size.
    pub open spec fn redraws(self, width: u32, height: u32, changed: bool) -> bool {
        changed || self.dirty || self.resized(width, height)
    }

    /// The state after a frame at the given output size.
    pub open spec fn after_frame(self, width: u32, height: u32) -> RendererView<H> {
        RendererView { width, height, dirty: false, ..self }
    }

    /// Every texture that the renderer holds: those of the images in the
    /// order of their upload, then the blurred background.
    pub open spec fn held(self) -> Seq<H> {
        Seq::new(self.textures.len(), |i: int| self.textures[i].texture) + match self.blur {
            Some(kept) => seq![kept.texture],
            None => Seq::empty(),
        }
    }
}

impl<H: Copy> GlowRenderer<H> {
    /// The state before the first frame: targets without a size, the bottom
    /// layer's copy stale, nothing cached.
    pub fn new() -> (renderer: GlowRenderer<H>)
        ensures
            renderer@ == (RendererView::<H> {
                width: 0,
                height: 0,
                dirty: true,
                blur: None,
                textures: Seq::empty(),
            }),
            renderer@.wf(),
    {
        GlowRenderer {
            fbo_size: [0, 0],
            bottom_layer_dirty: true,
            blur_cache: None,
            textures: Vec::new(),
        }
    }

    /// Takes down the new size of both render targets, which are resized
    /// together, and marks the bottom layer's copy as stale. Returns the size
    /// to reallocate them at.
    pub fn resize_fbo(&mut self, width: u32, height: u32) -> (size: [i32; 2])
        requires
            width <= i32::MAX,
            height <= i32::MAX,
        ensures
            size[0] == width,
            size[1] == height,
            final(self)@ == (RendererView { width, height, dirty: true, ..old(self)@ }),
    {
        let w = gl_size(width);
        let h = gl_size(height);
        self.fbo_size = [width, height];
        self.bottom_layer_dirty = true;
        [w, h]
    }

    fn find_texture(&self, image: u64) -> (texture: Option<H>)
        requires
            self@.wf(),
        ensures
            texture == self@.texture_of(image),
    {
        let mut i: usize = 0;
        while i < self.textures.len()
            invariant
                i <= self.textures.len(),
                self@.wf(),
                forall|j: int| 0 <= j < i ==> (#[trigger] self.textures[j]).image != image,
            decreases self.textures.len() - i,
        {
            if self.textures[i].image == image {
                proof {
                    let found = choose|k: int|
                        0 <= k < self@.textures.len() && (#[trigger] self@.textures[k]).image
                            == image;
                    assert(found == i) by {
                        if found < i {
                            assert(self@.textures[found].image != self@.textures[i as int].image);
                        } else if found > i {
                            assert(self@.textures[i as int].image != self@.textures[found].image);
                        }
                    }
                }
                return Some(self.textures[i].texture);
            }
            i = i + 1;
        }
        None
    }

    /// The texture of an image's pixels.
    ///
    /// On the first request for an image `upload` is called with the pixels
    /// and the plan of their upload (the image's size, linear filtering,
    /// clamping to the edge) to make the texture, and the texture is kept.
    /// Every later request for that image returns the kept texture and does
    /// not call `upload`.
    pub fn ensure_texture<U: FnOnce(&GlImageData, TextureUpload) -> H>(
        &mut self,
        image: &GlImage,
        upload: U,
    ) -> (texture: H)
        requires
            old(self)@.wf(),
            old(self)@.texture_of(image.id()) is None ==> {
                &&& image.data.width <= i32::MAX
                &&& image.data.height <= i32::MAX
                &&& call_requires(upload, (&*image.data, planned_upload(*image.data)))
            },
        ensures
            final(self)@.wf(),
            old(self)@.texture_of(image.id()) is None ==> call_ensures(
                upload,
                (&*image.data, planned_upload(*image.data)),
                texture,
            ),
            (final(self)@, texture) == old(self)@.texture_ensured(image.id(), texture),
            final(self)@.texture_of(image.id()) == Some(texture),
            forall|other: u64|
                other != image.id() ==> final(self)@.texture_of(other) == old(self)@.texture_of(
                    other,
                ),
    {
        let id: u64 = image.data.id;
        if let Some(kept) = self.find_texture(id) {
            return kept;
        }
        let plan = texture_upload(&image.data);
        let texture = upload(&image.data, plan);
        self.textures.push(TextureEntry { image: id, texture });
        proof {
            lemma_texture_added(old(self)@, id, texture);
        }
        texture
    }

    /// The texture of a blurred copy of an image.
    ///
    /// The kept texture is returned if it was made from the same image with
    /// a blur setting within tolerance of `blur_value`, and `create` is not
    /// called. Otherwise `create` is called with the pixels, the blur
    /// setting and the plan of the upload (the image's size, linear
    /// filtering, clamping to the edge) to blur the pixels and upload them.
    /// Its texture is kept in place of the one kept before, which is
    /// returned as the second value so that it can be released.
    pub fn get_or_create_blurred_texture<B: FnOnce(&GlImageData, Scalar, TextureUpload) -> H>(
        &mut self,
        image: &GlImage,
        blur_value: Scalar,
        create: B,
    ) -> (found: (H, Option<H>))
        requires
            old(self)@.blurred(image.id(), blur_value) is None ==> {
                &&& image.data.width <= i32::MAX
                &&& image.data.height <= i32::MAX
                &&& call_requires(
                    create,
                    (&*image.data, blur_value, planned_upload(*image.data)),
                )
            },
        ensures
            old(self)@.blurred(image.id(), blur_value) is None ==> call_ensures(
                create,
                (&*image.data, blur_value, planned_upload(*image.data)),
                found.0,
            ),
            (final(self)@, found.0, found.1) == old(self)@.blur_ensured(
                image.id(),
                blur_value,
                found.0,
            ),
    {
        let id: u64 = image.data.id;
        let mut evicted: Option<H> = None;
        if let Some(kept) = &self.blur_cache {
            if kept.source == id && kept.blur_value.approx_eq(blur_value) {
                return (kept.texture, None);
            }
            evicted = Some(kept.texture);
        }
        let plan = texture_upload(&image.data);
        let texture = create(&image.data, blur_value, plan);
        self.blur_cache = Some(BlurCache { source: id, blur_value, texture });
        (texture, evicted)
    }

    /// Plans one frame of `scene` at the given output size.
    ///
    /// The render targets are resized where the output has a new size. The
    /// bottom layer is rendered anew where the scene says that it changed,
    /// where its resolved copy is stale and after a resize; otherwise its
    /// copy is reused and none of its entities is looked at. The top layer is
    /// rendered in every frame.
    pub fn render<F: Fn(&Outline, Scalar) -> Option<Tessellation>>(
        &mut self,
        scene: &mut Scene,
        size: [u32; 2],
        stroke: &F,
    ) -> (frame: Frame)
        requires
            size[0] <= i32::MAX,
            size[1] <= i32::MAX,
            old(self)@.redraws(size[0], size[1], old(scene).bottom_layer_changed)
                ==> layer_strokable(old(scene).bottom_layer@, *stroke),
            layer_strokable(old(scene).top_layer@, *stroke),
        ensures
            frame.width == size[0],
            frame.height == size[1],
            frame.resize == old(self)@.resized(size[0], size[1]),
            final(self)@ == old(self)@.after_frame(size[0], size[1]),
            final(scene).background == old(scene).background,
            final(scene).rectangle == old(scene).rectangle,
            final(scene).bottom_layer_changed == old(scene).bottom_layer_changed,
            frame.bottom is Some == old(self)@.redraws(
                size[0],
                size[1],
                old(scene).bottom_layer_changed,
            ),
            match frame.bottom {
                Some(pass) => {
                    &&& views(pass.background@) == match old(scene).background {
                        Some(background) => background_draws(background, old(scene).rectangle),
                        None => Seq::empty(),
                    }
                    &&& layer_rendered(
                        old(scene).bottom_layer@,
                        final(scene).bottom_layer@,
                        pass.entities@,
                        old(scene).rectangle,
                        *stroke,
                    )
                    &&& pass.leaves_copy()
                },
                None => final(scene).bottom_layer == old(scene).bottom_layer,
            },
            frame.composite@ == bottom_layer_draw(old(scene).rectangle),
            layer_rendered(
                old(scene).top_layer@,
                final(scene).top_layer@,
                frame.top@,
                old(scene).rectangle,
                *stroke,
            ),
    {
        let width: u32 = size[0];
        let height: u32 = size[1];
        let resize = self.fbo_size[0] != width || self.fbo_size[1] != height;
        if resize {
            self.resize_fbo(width, height);
        }
        let w = gl_size(width);
        let h = gl_size(height);
        let bottom = if scene.bottom_layer_changed || self.bottom_layer_dirty {
            let background = match &scene.background {
                Some(background) => render_background(background, &scene.rectangle),
                None => Vec::new(),
            };
            let entities = render_layer(&mut scene.bottom_layer, &scene.rectangle, stroke);
            proof {
                if let Some(background) = old(scene).background {
                    lemma_background_leaves_copy(background, old(scene).rectangle);
                }
                lemma_layer_leaves_copy(
                    old(scene).bottom_layer@,
                    scene.bottom_layer@,
                    entities@,
                    old(scene).rectangle,
                    *stroke,
                );
            }
            self.bottom_layer_dirty = false;
            Some(BottomPass { background, entities })
        } else {
            None
        };
        let composite = blit_fbo(&scene.rectangle);
        let top = render_layer(&mut scene.top_layer, &scene.rectangle, stroke);
        Frame { width: w, height: h, resize, bottom, composite, top }
    }

    /// Ends the renderer and hands out every texture it holds, each once, so
    /// that they can be released.
    pub fn destroy(self) -> (textures: Vec<H>)
        ensures
            textures@ == self@.held(),
    {
        let mut textures: Vec<H> = Vec::new();
        let mut i: usize = 0;
        while i < self.textures.len()
            invariant
                i <= self.textures.len(),
                textures@ == Seq::new(i as nat, |j: int| self.textures[j].texture),
            decreases self.textures.len() - i,
        {
            textures.push(self.textures[i].texture);
            i = i + 1;
        }
        if let Some(kept) = &self.blur_cache {
            textures.push(kept.texture);
        }
        textures
    }
}

/// An image is uploaded once: whatever a first request for its texture
/// gave, a second request gives the same texture and changes nothing,
/// whatever an upload would give then.
pub proof fn lemma_texture_memoized<H>(state: RendererView<H>, image: u64, first: H, second: H)
    requires
        state.wf(),
    ensures
        ({
            let (kept, texture) = state.texture_ensured(image, first);
            kept.wf() && kept.texture_ensured(image, second) == (kept, texture)
        }),
{
    if state.texture_of(image) is None {
        lemma_texture_added(state, image, first);
    }
}

/// A blurred background is reused while image and blur setting stay the
/// same: after any request for `(image, blur)` with a finite `blur`, a second
/// one gives the same texture, pushes nothing out and changes nothing,
/// whatever blurring anew would give.
pub proof fn lemma_blur_reused<H>(state: RendererView<H>, image: u64, blur: Scalar, first: H, second: H)
    requires
        blur.finite(),
    ensures
        ({
            let (kept, texture, _) = state.blur_ensured(image, blur, first);
            kept.blur_ensured(image, blur, second) == (kept, texture, None::<H>)
        }),
{
    crate::scalar::lemma_near_reflexive(blur);
}

/// Another blur setting pushes the blurred background out: after a request
/// for `(image, first_blur)` that blurred anew, a request for the same image
/// with a setting that is not within tolerance of `first_blur` blurs anew
/// too and pushes the first texture out.
pub proof fn lemma_blur_replaced<H>(
    state: RendererView<H>,
    image: u64,
    first_blur: Scalar,
    first: H,
    second_blur: Scalar,
    second: H,
)
    requires
        state.blurred(image, first_blur) is None,
        !first_blur.near(second_blur),
    ensures
        ({
            let (kept, _, _) = state.blur_ensured(image, first_blur, first);
            let (last, texture, evicted) = kept.blur_ensured(image, second_blur, second);
            &&& kept.blurred(image, second_blur) is None
            &&& texture == second
            &&& evicted == Some(first)
            &&& last.blur == Some(BlurCache { source: image, blur_value: second_blur, texture: second })
        }),
{
}

/// The bottom layer is reused: the frame after any frame, at the same output
/// size and with a scene whose bottom layer did not change, does not render it.
pub proof fn lemma_bottom_layer_reused<H>(state: RendererView<H>, width: u32, height: u32)
    ensures
        !state.after_frame(width, height).redraws(width, height, false),
{
}

/// A resize forces a redraw: the frame after any frame, at another output
/// size, renders the bottom layer anew whether or not the scene says that
/// it changed.
pub proof fn lemma_resize_forces_redraw<H>(
    state: RendererView<H>,
    width: u32,
    height: u32,
    new_width: u32,
    new_height: u32,
    changed: bool,
)
    requires
        new_width != width || new_height != height,
    ensures
        state.after_frame(width, height).resized(new_width, new_height),
        state.after_frame(width, height).redraws(new_width, new_height, changed),
{
}

/// Keeping the texture of an image that had none leaves every other image's
/// texture as it was.
proof fn lemma_texture_added<H>(before: RendererView<H>, image: u64, texture: H)
    requires
        before.wf(),
        before.texture_of(image) is None,
    ensures
        before.with_texture(image, texture).wf(),
        before.with_texture(image, texture).texture_of(image) == Some(texture),
        forall|other: u64|
            other != image ==> before.with_texture(image, texture).texture_of(other)
                == before.texture_of(other),
{
    let after = before.with_texture(image, texture);
    let last = before.textures.len() as int;
    assert forall|i: int, j: int| 0 <= i < j < after.textures.len() implies (
    #[trigger] after.textures[i]).image != (#[trigger] after.textures[j]).image by {
        if j < last {
            assert(after.textures[i] == before.textures[i]);
            assert(after.textures[j] == before.textures[j]);
        } else {
            assert(after.textures[i] == before.textures[i]);
            assert(!before.uploaded(image));
        }
    }
    assert(after.textures[last].image == image);
    lemma_texture_at(after, last);
    assert forall|other: u64| other != image implies after.texture_of(other) == before.texture_of(
        other,
    ) by {
        if before.uploaded(other) {
            let k = choose|i: int|
                0 <= i < before.textures.len() && (#[trigger] before.textures[i]).image == other;
            assert(after.textures[k] == before.textures[k]);
            lemma_texture_at(after, k);
            lemma_texture_at(before, k);
        } else {
            if after.uploaded(other) {
                let k = choose|i: int|
                    0 <= i < after.textures.len() && (#[trigger] after.textures[i]).image == other;
                assert(k < last);
                assert(after.textures[k] == before.textures[k]);
            }
        }
    }
}

/// An image's texture is the one in its entry.
proof fn lemma_texture_at<H>(state: RendererView<H>, at: int)
    requires
        state.wf(),
        0 <= at < state.textures.len(),
    ensures
        state.texture_of(state.textures[at].image) == Some(state.textures[at].texture),
{
    let image = state.textures[at].image;
    let found = choose|i: int|
        0 <= i < state.textures.len() && (#[trigger] state.textures[i]).image == image;
    if found < at {
        assert(state.textures[found].image != state.textures[at].image);
    } else if found > at {
        assert(state.textures[at].image != state.textures[found].image);
    }
}

} // verus!
