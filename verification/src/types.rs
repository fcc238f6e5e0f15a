//! Resources that a scene refers to: tessellated paths and decoded images.

use crate::scalar::Scalar;
use std::sync::Arc;
use vstd::prelude::*;

verus! {

/// A vertex of a tessellated path, ready for the GPU.
#[derive(Clone, Copy, Debug, PartialEq, Eq)]
pub struct Vertex {
    /// X and Y position in local (pre-transform) coordinate space.
    pub position: [Scalar; 2],
}

/// One step of an outline, in local coordinates.
#[derive(Clone, Copy, Debug, PartialEq, Eq)]
pub enum PathCommand {
    /// Begins a sub-path at a point.
    MoveTo(Scalar, Scalar),
    /// A straight segment to a point.
    LineTo(Scalar, Scalar),
    /// A quadratic curve: control point, then end point.
    QuadTo(Scalar, Scalar, Scalar, Scalar),
    /// A cubic curve: two control points, then end point.
    CurveTo(Scalar, Scalar, Scalar, Scalar, Scalar, Scalar),
    /// Ends the current sub-path with a segment back to its first point.
    Close,
    /// Ends the current sub-path and leaves it open.
    End,
}

/// The source outline of a path, kept so that it can be stroked at any width.
pub type Outline = Vec<PathCommand>;

/// Shared vertex and index buffers of a tessellated path.
pub type StrokeGeometry = (Arc<Vec<Vertex>>, Arc<Vec<u32>>);

/// What a tessellator hands back: vertex and index buffers.
pub type Tessellation = (Vec<Vertex>, Vec<u32>);

/// Stroke tessellation kept for one line width.
pub struct StrokeCache {
    /// The width the outline was stroked at.
    pub width: Scalar,
    /// Stroke triangle vertices.
    pub vertices: Arc<Vec<Vertex>>,
    /// Stroke triangle indices.
    pub indices: Arc<Vec<u32>>,
}

/// The cached stroke of a path, as contracts see it.
pub struct StrokeView {
    pub width: Scalar,
    pub vertices: Seq<Vertex>,
    pub indices: Seq<u32>,
}

/// A path, as contracts see it.
pub struct PathView {
    pub vertices: Seq<Vertex>,
    pub indices: Seq<u32>,
    pub outline: Seq<PathCommand>,
    /// At most one stroke is kept, for the width it was last tessellated at.
    pub stroke: Option<StrokeView>,
}

impl PathView {
    /// The stroke that a request for `width` finds: the kept one if its width
    /// is within tolerance of the request, none otherwise.
    pub open spec fn lookup(self, width: Scalar) -> Option<(Seq<Vertex>, Seq<u32>)> {
        match self.stroke {
            Some(entry) => if entry.width.near(width) {
                Some((entry.vertices, entry.indices))
            } else {
                None
            },
            None => None,
        }
    }

    /// The same path with its stroke cache overwritten.
    pub open spec fn with_stroke(self, width: Scalar, vertices: Seq<Vertex>, indices: Seq<u32>) -> PathView {
        PathView { stroke: Some(StrokeView { width, vertices, indices }), ..self }
    }

    /// The same geometry with nothing cached.
    pub open spec fn without_stroke(self) -> PathView {
        PathView { stroke: None, ..self }
    }
}

/// A tessellated path stored as indexed triangle data, with the outline it
/// was made from and a one-entry cache of its stroke.
pub struct GlPath {
    /// Triangle vertices in local coordinate space.
    pub vertices: Arc<Vec<Vertex>>,
    /// Triangle indices into `vertices`.
    pub indices: Arc<Vec<u32>>,
    /// The outline the triangles were made from.
    pub outline: Arc<Outline>,
    /// Cached stroke tessellation, keyed by stroke width.
    pub stroke_cache: Option<StrokeCache>,
}

/// What a pair of shared buffers holds.
pub open spec fn geometry_view(geometry: Option<StrokeGeometry>) -> Option<(Seq<Vertex>, Seq<u32>)> {
    match geometry {
        Some(g) => Some((g.0@, g.1@)),
        None => None,
    }
}

/// Another handle on the same shared value. States of `Arc::clone` that the
/// clone is equal to the value it was made from.
#[verifier::external_body]
pub(crate) fn share<T>(value: &Arc<T>) -> (shared: Arc<T>)
    ensures
        shared == *value,
{
    Arc::clone(value)
}

impl View for GlPath {
    type V = PathView;

    open spec fn view(&self) -> PathView {
        PathView {
            vertices: self.vertices@,
            indices: self.indices@,
            outline: self.outline@,
            stroke: self.stroke(),
        }
    }
}

impl GlPath {
    /// The cached stroke, if any.
    pub open spec fn stroke(&self) -> Option<StrokeView> {
        match self.stroke_cache {
            Some(cache) => Some(
                StrokeView { width: cache.width, vertices: cache.vertices@, indices: cache.indices@ },
            ),
            None => None,
        }
    }

    /// Creates a path from tessellated geometry and the outline it came from.
    pub fn new(vertices: Vec<Vertex>, indices: Vec<u32>, outline: Arc<Outline>) -> (path: GlPath)
        ensures
            path@ == (PathView {
                vertices: vertices@,
                indices: indices@,
                outline: outline@,
                stroke: None,
            }),
    {
        GlPath {
            vertices: Arc::new(vertices),
            indices: Arc::new(indices),
            outline,
            stroke_cache: None,
        }
    }

    /// Creates a path from buffers that are already shared.
    pub fn from_arcs(
        vertices: Arc<Vec<Vertex>>,
        indices: Arc<Vec<u32>>,
        outline: Arc<Outline>,
    ) -> (path: GlPath)
        ensures
            path.vertices == vertices,
            path.indices == indices,
            path.outline == outline,
            path@ == (PathView {
                vertices: vertices@,
                indices: indices@,
                outline: outline@,
                stroke: None,
            }),
    {
        GlPath { vertices, indices, outline, stroke_cache: None }
    }

    /// The cached stroke for `width`, or `None` if nothing is cached or the
    /// cached stroke was made for another width.
    pub fn cached_stroke(&self, width: Scalar) -> (geometry: Option<StrokeGeometry>)
        ensures
            geometry_view(geometry) == self@.lookup(width),
    {
        match &self.stroke_cache {
            Some(cache) => {
                if cache.width.approx_eq(width) {
                    Some((share(&cache.vertices), share(&cache.indices)))
                } else {
                    None
                }
            },
            None => None,
        }
    }

    /// Keeps a stroke for `width`, in place of whatever was kept before.
    pub fn set_stroke_cache(
        &mut self,
        width: Scalar,
        vertices: Arc<Vec<Vertex>>,
        indices: Arc<Vec<u32>>,
    )
        ensures
            final(self)@ == old(self)@.with_stroke(width, vertices@, indices@),
            final(self).vertices == old(self).vertices,
            final(self).indices == old(self).indices,
            final(self).outline == old(self).outline,
    {
        self.stroke_cache = Some(StrokeCache { width, vertices, indices });
    }

    /// Another handle on the same geometry and outline. The new handle
    /// starts with nothing cached.
    pub fn share(&self) -> (shared: GlPath)
        ensures
            shared@ == self@.without_stroke(),
            shared.vertices == self.vertices,
            shared.indices == self.indices,
            shared.outline == self.outline,
    {
        GlPath {
            vertices: share(&self.vertices),
            indices: share(&self.indices),
            outline: share(&self.outline),
            stroke_cache: None,
        }
    }
}

impl Clone for GlPath {
    fn clone(&self) -> (shared: GlPath)
        ensures
            shared@ == self@.without_stroke(),
    {
        self.share()
    }
}

/// Decoded pixels of an image. Fixed once created.
pub struct GlImageData {
    /// What tells this image from every other one that the same allocator made.
    pub id: u64,
    /// Pixel data in RGBA8 format, row-major, top-to-bottom.
    pub pixels: Vec<u8>,
    /// Image width in pixels.
    pub width: u32,
    /// Image height in pixels.
    pub height: u32,
}

/// A decoded image ready for texture upload. Handles on one image share its data.
pub struct GlImage {
    /// Shared image data.
    pub data: Arc<GlImageData>,
}

impl GlImage {
    /// The identity under which the image's GPU resources are cached.
    pub open spec fn id(&self) -> u64 {
        self.data.id
    }

    /// The larger of the two dimensions.
    pub open spec fn extent(&self) -> u32 {
        if self.data.width >= self.data.height {
            self.data.width
        } else {
            self.data.height
        }
    }

    /// The larger of the image's two dimensions, by which a blur setting is scaled.
    pub fn larger_dimension(&self) -> (extent: u32)
        ensures
            extent == self.extent(),
    {
        if self.data.width >= self.data.height {
            self.data.width
        } else {
            self.data.height
        }
    }

    /// Another handle on the same image.
    pub fn share(&self) -> (shared: GlImage)
        ensures
            shared == *self,
    {
        GlImage { data: share(&self.data) }
    }
}

impl Clone for GlImage {
    fn clone(&self) -> (shared: GlImage)
        ensures
            shared == *self,
    {
        self.share()
    }
}

} // verus!
