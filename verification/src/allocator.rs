//! Creation of resources: outlines recorded command by command, tessellated
//! paths, cached strokes and decoded images.

use crate::scalar::Scalar;
use crate::types::{
    share, GlImage, GlImageData, GlPath, Outline, PathCommand, PathView, Tessellation,
};
use std::sync::Arc;
use vstd::prelude::*;

verus! {

/// Records the commands of an outline and turns them into a path on `finish`.
pub struct GlPathBuilder {
    /// The commands recorded so far, in order.
    pub commands: Outline,
}

impl View for GlPathBuilder {
    type V = Seq<PathCommand>;

    open spec fn view(&self) -> Seq<PathCommand> {
        self.commands@
    }
}

/// What a path or no path looks like to a contract.
pub open spec fn path_view(path: Option<GlPath>) -> Option<PathView> {
    match path {
        Some(p) => Some(p@),
        None => None,
    }
}

/// The path that comes of a tessellator's answer: none if it reported a
/// failure or produced no vertex, else its buffers with nothing cached.
pub open spec fn accepted(outline: Seq<PathCommand>, outcome: Option<Tessellation>) -> Option<
    PathView,
> {
    match outcome {
        Some(buffers) => if buffers.0@.len() > 0 {
            Some(
                PathView { vertices: buffers.0@, indices: buffers.1@, outline, stroke: None },
            )
        } else {
            None
        },
        None => None,
    }
}

/// How a stroke request that missed the cache ends, given the tessellator's
/// answer: a usable answer replaces the cached stroke and is returned, any
/// other leaves the path as it was and returns nothing.
pub open spec fn stroke_stored(
    before: PathView,
    width: Scalar,
    outcome: Option<Tessellation>,
    after: PathView,
    stroked: Option<PathView>,
) -> bool {
    &&& stroked == accepted(before.outline, outcome)
    &&& after == match stroked {
        Some(s) => before.with_stroke(width, s.vertices, s.indices),
        None => before,
    }
}

/// How a request for the stroke of `path` at `width` ends. A cached stroke
/// within tolerance of `width` is handed out and the path stays as it is;
/// otherwise the tessellator is asked, and its answer decides.
pub open spec fn stroke_requested<F: FnOnce(&Outline, Scalar) -> Option<Tessellation>>(
    path: GlPath,
    width: Scalar,
    stroke: F,
    after: PathView,
    stroked: Option<PathView>,
) -> bool {
    match path@.lookup(width) {
        Some(cached) => {
            &&& after == path@
            &&& stroked == Some(
                PathView {
                    vertices: cached.0,
                    indices: cached.1,
                    outline: path@.outline,
                    stroke: None,
                },
            )
        },
        None => exists|outcome: Option<Tessellation>|
            {
                &&& call_ensures(stroke, (&*path.outline, width), outcome)
                &&& #[trigger] stroke_stored(path@, width, outcome, after, stroked)
            },
    }
}

impl GlPathBuilder {
    /// A builder with nothing recorded.
    pub fn new() -> (builder: GlPathBuilder)
        ensures
            builder@ == Seq::<PathCommand>::empty(),
    {
        GlPathBuilder { commands: Vec::new() }
    }

    /// Begins a sub-path at `(x, y)`.
    pub fn move_to(&mut self, x: Scalar, y: Scalar)
        ensures
            final(self)@ == old(self)@.push(PathCommand::MoveTo(x, y)),
    {
        self.commands.push(PathCommand::MoveTo(x, y));
    }

    /// Adds a straight segment to `(x, y)`.
    pub fn line_to(&mut self, x: Scalar, y: Scalar)
        ensures
            final(self)@ == old(self)@.push(PathCommand::LineTo(x, y)),
    {
        self.commands.push(PathCommand::LineTo(x, y));
    }

    /// Adds a quadratic curve to `(x, y)` with control point `(x1, y1)`.
    pub fn quad_to(&mut self, x1: Scalar, y1: Scalar, x: Scalar, y: Scalar)
        ensures
            final(self)@ == old(self)@.push(PathCommand::QuadTo(x1, y1, x, y)),
    {
        self.commands.push(PathCommand::QuadTo(x1, y1, x, y));
    }

    /// Adds a cubic curve to `(x, y)` with control points `(x1, y1)` and `(x2, y2)`.
    pub fn curve_to(&mut self, x1: Scalar, y1: Scalar, x2: Scalar, y2: Scalar, x: Scalar, y: Scalar)
        ensures
            final(self)@ == old(self)@.push(PathCommand::CurveTo(x1, y1, x2, y2, x, y)),
    {
        self.commands.push(PathCommand::CurveTo(x1, y1, x2, y2, x, y));
    }

    /// Closes the current sub-path.
    pub fn close(&mut self)
        ensures
            final(self)@ == old(self)@.push(PathCommand::Close),
    {
        self.commands.push(PathCommand::Close);
    }

    /// Ends the outline and fills it with the given tessellator.
    pub fn finish<F: FnOnce(&Outline) -> Option<Tessellation>>(self, fill: F) -> (path: Option<
        GlPath,
    >)
        requires
            call_requires(fill, (&self.commands,)),
        ensures
            exists|outcome: Option<Tessellation>|
                call_ensures(fill, (&self.commands,), outcome) && path_view(path) == accepted(
                    self@,
                    outcome,
                ),
    {
        let outline = Arc::new(self.commands);
        let path = tessellate_path(outline, fill);
        proof {
            let outcome = choose|outcome: Option<Tessellation>|
                call_ensures(fill, (&*outline,), outcome) && path_view(path) == accepted(
                    outline@,
                    outcome,
                );
            assert(call_ensures(fill, (&self.commands,), outcome) && path_view(path) == accepted(
                self@,
                outcome,
            ));
        }
        path
    }
}

/// A fresh builder, for callers that make builders on demand.
pub fn gl_path_builder() -> (builder: GlPathBuilder)
    ensures
        builder@ == Seq::<PathCommand>::empty(),
{
    GlPathBuilder::new()
}

/// Turns a fill tessellator's answer into a path over `outline`.
pub fn accept_fill(outline: Arc<Outline>, outcome: Option<Tessellation>) -> (path: Option<GlPath>)
    ensures
        path_view(path) == accepted(outline@, outcome),
{
    match outcome {
        Some((vertices, indices)) => {
            if vertices.len() > 0 {
                Some(GlPath::new(vertices, indices, outline))
            } else {
                None
            }
        },
        None => None,
    }
}

/// Fills an outline into an indexed triangle mesh with the given tessellator.
///
/// Returns `None` if the tessellator fails or produces no vertices.
pub fn tessellate_path<F: FnOnce(&Outline) -> Option<Tessellation>>(
    outline: Arc<Outline>,
    fill: F,
) -> (path: Option<GlPath>)
    requires
        call_requires(fill, (&*outline,)),
    ensures
        exists|outcome: Option<Tessellation>|
            call_ensures(fill, (&*outline,), outcome) && path_view(path) == accepted(
                outline@,
                outcome,
            ),
{
    let outcome = fill(&outline);
    accept_fill(outline, outcome)
}

/// Ends a stroke request that missed the cache: keeps a usable answer in the
/// path's cache, in place of what was there, and returns it as a path.
pub fn store_stroke(path: &mut GlPath, stroke_width: Scalar, outcome: Option<Tessellation>) -> (stroked:
    Option<GlPath>)
    ensures
        stroke_stored(old(path)@, stroke_width, outcome, final(path)@, path_view(stroked)),
{
    match outcome {
        Some((vertices, indices)) => {
            if vertices.len() > 0 {
                let vertices = Arc::new(vertices);
                let indices = Arc::new(indices);
                path.set_stroke_cache(
                    stroke_width,
                    share(&vertices),
                    share(&indices),
                );
                Some(GlPath::from_arcs(vertices, indices, share(&path.outline)))
            } else {
                None
            }
        },
        None => None,
    }
}

/// The outline of `path` stroked at `stroke_width`, as an indexed triangle mesh.
///
/// A cached stroke whose width is within tolerance of the request is
/// returned as it is, and the tessellator is not called. Otherwise the
/// tessellator is called once; a usable answer replaces the cached stroke.
/// Returns `None` if the tessellator fails or produces no vertices; the cache
/// is then left as it was.
pub fn tessellate_stroke<F: FnOnce(&Outline, Scalar) -> Option<Tessellation>>(
    path: &mut GlPath,
    stroke_width: Scalar,
    stroke: F,
) -> (stroked: Option<GlPath>)
    requires
        old(path)@.lookup(stroke_width) is None ==> call_requires(
            stroke,
            (&*old(path).outline, stroke_width),
        ),
    ensures
        stroke_requested(*old(path), stroke_width, stroke, final(path)@, path_view(stroked)),
{
    if let Some((vertices, indices)) = path.cached_stroke(stroke_width) {
        return Some(GlPath::from_arcs(vertices, indices, share(&path.outline)));
    }
    let outcome = stroke(&path.outline, stroke_width);
    store_stroke(path, stroke_width, outcome)
}

/// A request for a stroke that was just tessellated finds it: after a miss
/// at a finite `width` that gave geometry, a request at the same width hands
/// out the very buffers of the first, whatever the tessellator would answer
/// now, and leaves the path as it is. The same then holds of every request
/// that follows at that width.
pub proof fn lemma_stroke_reused<F: FnOnce(&Outline, Scalar) -> Option<Tessellation>>(
    first: GlPath,
    width: Scalar,
    outcome: Option<Tessellation>,
    second: GlPath,
    stroked: Option<PathView>,
    stroke: F,
    third: PathView,
    again: Option<PathView>,
)
    requires
        width.finite(),
        first@.lookup(width) is None,
        stroke_stored(first@, width, outcome, second@, stroked),
        stroked is Some,
        stroke_requested(second, width, stroke, third, again),
    ensures
        third == second@,
        again == stroked,
{
    crate::scalar::lemma_near_reflexive(width);
}

/// A stroke at another width pushes out the cached one: after a miss at
/// `first_width` that gave geometry, a request at a width that is not within
/// tolerance of it misses too, and once that one gave geometry a request at
/// `first_width` misses again.
pub proof fn lemma_stroke_replaced(
    start: PathView,
    first_width: Scalar,
    first_outcome: Option<Tessellation>,
    first: PathView,
    first_stroked: Option<PathView>,
    second_width: Scalar,
    second_outcome: Option<Tessellation>,
    second: PathView,
    second_stroked: Option<PathView>,
)
    requires
        !first_width.near(second_width),
        start.lookup(first_width) is None,
        stroke_stored(start, first_width, first_outcome, first, first_stroked),
        first_stroked is Some,
        stroke_stored(first, second_width, second_outcome, second, second_stroked),
        second_stroked is Some,
    ensures
        first.lookup(second_width) is None,
        second.lookup(first_width) is None,
        second.stroke matches Some(kept) && kept.width == second_width,
{
    crate::scalar::lemma_near_symmetric(first_width, second_width);
}

/// Plain values of a decoded image, as contracts see them: the pixels as
/// RGBA8, then width and height.
pub open spec fn decoded_view(decoded: Option<(Vec<u8>, u32, u32)>) -> Option<(Seq<u8>, u32, u32)> {
    match decoded {
        Some(d) => Some((d.0@, d.1, d.2)),
        None => None,
    }
}

/// Whether decoded pixels hold four bytes at least for every pixel of their
/// width and height.
pub open spec fn pixels_fit(decoded: Option<(Seq<u8>, u32, u32)>) -> bool {
    decoded matches Some(d) ==> d.0.len() >= 4 * d.1 * d.2
}

/// Decodes an image held in memory with `image::load_from_memory`, which
/// guesses the format from the data, and hands out its RGBA8 copy
/// (`to_rgba8`) as raw bytes with its dimensions. Nothing when decoding fails.
///
/// Which data decode, and to which pixels, is not stated: format detection
/// and decoders can be registered while the process runs. Stated is what the
/// image buffer holds of every image it is made of: four bytes at least for
/// each of its pixels.
#[verifier::external_body]
fn decode_rgba8(data: &[u8]) -> (decoded: Option<(Vec<u8>, u32, u32)>)
    ensures
        pixels_fit(decoded_view(decoded)),
{
    let rgba = image::load_from_memory(data).ok()?.to_rgba8();
    let (width, height) = rgba.dimensions();
    Some((rgba.into_raw(), width, height))
}

/// Hands out paths and images. Every image gets an identity of its own.
pub struct GlAllocator {
    /// The identity that the next image will get.
    pub next_image: u64,
}

impl GlAllocator {
    /// An allocator that has made nothing yet.
    pub fn new() -> (allocator: GlAllocator)
        ensures
            allocator.next_image == 0,
    {
        GlAllocator { next_image: 0 }
    }

    /// A builder for the next path.
    pub fn path_builder(&mut self) -> (builder: GlPathBuilder)
        ensures
            builder@ == Seq::<PathCommand>::empty(),
            *final(self) == *old(self),
    {
        GlPathBuilder::new()
    }

    /// The image that comes of a decoder's answer, under a fresh identity.
    pub open spec fn adopted(self, decoded: Option<(Seq<u8>, u32, u32)>, image: Option<GlImage>, after: GlAllocator) -> bool {
        match decoded {
            Some(d) => {
                &&& image matches Some(img)
                &&& img.data.id == self.next_image
                &&& img.data.pixels@ == d.0
                &&& img.data.width == d.1
                &&& img.data.height == d.2
                &&& after.next_image == self.next_image + 1
            },
            None => image is None && after == self,
        }
    }

    /// Wraps decoded pixels as an image with the next free identity.
    pub fn adopt_image(&mut self, decoded: Option<(Vec<u8>, u32, u32)>) -> (image: Option<GlImage>)
        requires
            old(self).next_image < u64::MAX,
        ensures
            old(self).adopted(decoded_view(decoded), image, *final(self)),
    {
        match decoded {
            Some((pixels, width, height)) => {
                let id: u64 = self.next_image;
                self.next_image = id + 1;
                Some(GlImage { data: Arc::new(GlImageData { id, pixels, width, height }) })
            },
            None => None,
        }
    }

    /// Decodes `data` into an image. Returns `None` if it does not decode.
    ///
    /// The image is the decoder's answer, adopted: it gets the next identity
    /// and holds four bytes at least for each of its pixels. Where the
    /// decoder gives nothing the allocator stays as it is.
    pub fn create_image(&mut self, data: &[u8]) -> (image: Option<GlImage>)
        requires
            old(self).next_image < u64::MAX,
        ensures
            exists|decoded: Option<(Seq<u8>, u32, u32)>|
                pixels_fit(decoded) && #[trigger] old(self).adopted(decoded, image, *final(self)),
    {
        let decoded = decode_rgba8(data);
        let image = self.adopt_image(decoded);
        assert(old(self).adopted(decoded_view(decoded), image, *self));
        image
    }
}

impl Default for GlAllocator {
    fn default() -> (allocator: GlAllocator)
        ensures
            allocator.next_image == 0,
    {
        GlAllocator::new()
    }
}

} // verus!
