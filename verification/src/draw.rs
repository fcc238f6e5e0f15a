//! Draw calls: what the GPU is asked to draw for one entity, with the values
//! of every shader input.

use crate::scalar::{Scalar, INFINITY_BITS, SIGN_BIT};
use crate::scene::{FillShader, Rgba, Transform};
use crate::types::{share, GlImage, GlPath, PathView, StrokeGeometry, Vertex};
use std::sync::Arc;
use vstd::prelude::*;

verus! {

/// Shader mode of a solid fill.
pub const SHADER_SOLID: i32 = 0;

/// Shader mode of a vertical gradient, which runs along local Y.
pub const SHADER_VERTICAL: i32 = 1;

/// Shader mode of a horizontal gradient, which runs along local X.
pub const SHADER_HORIZONTAL: i32 = 2;

/// Index of the X coordinate in a vertex position.
pub const AXIS_X: usize = 0;

/// Index of the Y coordinate in a vertex position.
pub const AXIS_Y: usize = 1;

/// The coordinate of every vertex along one axis, in vertex order.
pub open spec fn axis_values(vertices: Seq<Vertex>, axis: int) -> Seq<Scalar> {
    Seq::new(vertices.len(), |i: int| vertices[i].position[axis])
}

/// The running minimum of `values`, started at positive infinity: the first
/// value that no other number in `values` lies below. NaNs are passed over.
pub open spec fn lowest(values: Seq<Scalar>) -> Scalar
    decreases values.len(),
{
    if values.len() == 0 {
        Scalar { bits: INFINITY_BITS }
    } else {
        let rest = lowest(values.drop_last());
        if values.last().below(rest) {
            values.last()
        } else {
            rest
        }
    }
}

/// The running maximum of `values`, started at negative infinity: the first
/// value that lies below no other number in `values`. NaNs are passed over.
pub open spec fn highest(values: Seq<Scalar>) -> Scalar
    decreases values.len(),
{
    if values.len() == 0 {
        Scalar { bits: (INFINITY_BITS + SIGN_BIT) as u32 }
    } else {
        let rest = highest(values.drop_last());
        if rest.below(values.last()) {
            values.last()
        } else {
            rest
        }
    }
}

/// The range that `values` span: from the lowest to the highest, or from
/// zero to zero where they hold no number at all.
pub open spec fn span(values: Seq<Scalar>) -> [Scalar; 2] {
    if highest(values).below(lowest(values)) {
        [Scalar { bits: 0 }, Scalar { bits: 0 }]
    } else {
        [lowest(values), highest(values)]
    }
}

/// The minimum and maximum along one axis over all vertices.
///
/// Gives the range over which a gradient is interpolated. `axis` is the index
/// into a vertex position. Returns zero and zero for no vertices.
pub fn vertex_bounds(vertices: &[Vertex], axis: usize) -> (bounds: [Scalar; 2])
    requires
        axis < 2,
    ensures
        bounds == span(axis_values(vertices@, axis as int)),
{
    let mut min = Scalar::new(INFINITY_BITS);
    let mut max = Scalar::new(INFINITY_BITS + SIGN_BIT);
    let ghost values = axis_values(vertices@, axis as int);
    let mut i: usize = 0;
    while i < vertices.len()
        invariant
            i <= vertices.len(),
            axis < 2,
            values == axis_values(vertices@, axis as int),
            min == lowest(values.take(i as int)),
            max == highest(values.take(i as int)),
        decreases vertices.len() - i,
    {
        let val = vertices[i].position[axis];
        assert(values.take(i + 1).drop_last() == values.take(i as int));
        if val.lt(min) {
            min = val;
        }
        if max.lt(val) {
            max = val;
        }
        i = i + 1;
    }
    assert(values.take(i as int) == values);
    if max.lt(min) {
        [Scalar::zero(), Scalar::zero()]
    } else {
        [min, max]
    }
}

/// Whether `at` is the place of the first number in `values` that no other
/// number lies below.
pub open spec fn first_lowest(values: Seq<Scalar>, at: int) -> bool {
    &&& 0 <= at < values.len()
    &&& !values[at].nan()
    &&& forall|i: int| 0 <= i < values.len() ==> !(#[trigger] values[i]).below(values[at])
    &&& forall|i: int| 0 <= i < at ==> (#[trigger] values[i]).nan() || values[at].below(values[i])
}

/// Whether `at` is the place of the first number in `values` that lies
/// below no other number.
pub open spec fn first_highest(values: Seq<Scalar>, at: int) -> bool {
    &&& 0 <= at < values.len()
    &&& !values[at].nan()
    &&& forall|i: int| 0 <= i < values.len() ==> !values[at].below(#[trigger] values[i])
    &&& forall|i: int| 0 <= i < at ==> (#[trigger] values[i]).nan() || values[i].below(values[at])
}

/// Where `values` hold a number, the running minimum is the first of them
/// that no other lies below.
pub proof fn lemma_lowest_is_minimum(values: Seq<Scalar>)
    ensures
        !lowest(values).nan(),
        forall|i: int| 0 <= i < values.len() ==> !(#[trigger] values[i]).below(lowest(values)),
        (exists|i: int| 0 <= i < values.len() && !(#[trigger] values[i]).nan()) ==> exists|at: int|
            #[trigger] first_lowest(values, at) && values[at] == lowest(values),
    decreases values.len(),
{
    if values.len() > 0 {
        let front = values.drop_last();
        let last = values.len() - 1;
        lemma_lowest_is_minimum(front);
        assert forall|i: int| 0 <= i < values.len() implies !(#[trigger] values[i]).below(
            lowest(values),
        ) by {
            if i < front.len() {
                assert(values[i] == front[i]);
            }
        }
        if exists|i: int| 0 <= i < values.len() && !(#[trigger] values[i]).nan() {
            if exists|i: int| 0 <= i < front.len() && !(#[trigger] front[i]).nan() {
                let at = choose|at: int|
                    #[trigger] first_lowest(front, at) && front[at] == lowest(front);
                if values[last].below(lowest(front)) {
                    // The last value is lower than every number before it.
                    assert forall|i: int| 0 <= i < last implies (#[trigger] values[i]).nan()
                        || values[last].below(values[i]) by {
                        assert(values[i] == front[i]);
                    }
                    assert(first_lowest(values, last));
                } else {
                    assert forall|i: int| 0 <= i < values.len() implies !(
                    #[trigger] values[i]).below(values[at]) by {
                        if i < last {
                            assert(values[i] == front[i]);
                        }
                    }
                    assert forall|i: int| 0 <= i < at implies (#[trigger] values[i]).nan()
                        || values[at].below(values[i]) by {
                        assert(values[i] == front[i]);
                    }
                    assert(first_lowest(values, at));
                }
            } else {
                // The last value is the only number.
                let k = choose|i: int| 0 <= i < values.len() && !(#[trigger] values[i]).nan();
                if k < last {
                    assert(front[k] == values[k]);
                }
                assert forall|i: int| 0 <= i < last implies (#[trigger] values[i]).nan() by {
                    assert(values[i] == front[i]);
                }
                assert forall|i: int| 0 <= i < front.len() implies (#[trigger] front[i]).nan() by {
                    assert(values[i] == front[i]);
                }
                lemma_no_number(front);
                assert(first_lowest(values, last));
            }
        }
    }
}

/// Where `values` hold a number, the running maximum is the first of them
/// that lies below no other.
pub proof fn lemma_highest_is_maximum(values: Seq<Scalar>)
    ensures
        !highest(values).nan(),
        forall|i: int| 0 <= i < values.len() ==> !highest(values).below(#[trigger] values[i]),
        (exists|i: int| 0 <= i < values.len() && !(#[trigger] values[i]).nan()) ==> exists|at: int|
            #[trigger] first_highest(values, at) && values[at] == highest(values),
    decreases values.len(),
{
    if values.len() > 0 {
        let front = values.drop_last();
        let last = values.len() - 1;
        lemma_highest_is_maximum(front);
        assert forall|i: int| 0 <= i < values.len() implies !highest(values).below(
            #[trigger] values[i],
        ) by {
            if i < front.len() {
                assert(values[i] == front[i]);
            }
        }
        if exists|i: int| 0 <= i < values.len() && !(#[trigger] values[i]).nan() {
            if exists|i: int| 0 <= i < front.len() && !(#[trigger] front[i]).nan() {
                let at = choose|at: int|
                    #[trigger] first_highest(front, at) && front[at] == highest(front);
                if highest(front).below(values[last]) {
                    // The last value is higher than every number before it.
                    assert forall|i: int| 0 <= i < last implies (#[trigger] values[i]).nan()
                        || values[i].below(values[last]) by {
                        assert(values[i] == front[i]);
                    }
                    assert(first_highest(values, last));
                } else {
                    assert forall|i: int| 0 <= i < values.len() implies !values[at].below(
                        #[trigger] values[i],
                    ) by {
                        if i < last {
                            assert(values[i] == front[i]);
                        }
                    }
                    assert forall|i: int| 0 <= i < at implies (#[trigger] values[i]).nan()
                        || values[i].below(values[at]) by {
                        assert(values[i] == front[i]);
                    }
                    assert(first_highest(values, at));
                }
            } else {
                // The last value is the only number.
                let k = choose|i: int| 0 <= i < values.len() && !(#[trigger] values[i]).nan();
                if k < last {
                    assert(front[k] == values[k]);
                }
                assert forall|i: int| 0 <= i < last implies (#[trigger] values[i]).nan() by {
                    assert(values[i] == front[i]);
                }
                assert forall|i: int| 0 <= i < front.len() implies (#[trigger] front[i]).nan() by {
                    assert(values[i] == front[i]);
                }
                lemma_no_number(front);
                assert(first_highest(values, last));
            }
        }
    }
}

/// There is one such place at most, so the two extremes are told apart
/// from every other value, the zero of the other sign included.
pub proof fn lemma_first_is_unique(values: Seq<Scalar>, a: int, b: int)
    ensures
        first_lowest(values, a) && first_lowest(values, b) ==> a == b,
        first_highest(values, a) && first_highest(values, b) ==> a == b,
{
}

/// The span is from zero to zero exactly where `values` hold no number;
/// everywhere else it runs from the lowest to the highest of them.
pub proof fn lemma_span(values: Seq<Scalar>)
    ensures
        (forall|i: int| 0 <= i < values.len() ==> (#[trigger] values[i]).nan()) ==> span(values)
            == [Scalar { bits: 0 }, Scalar { bits: 0 }],
        (exists|i: int| 0 <= i < values.len() && !(#[trigger] values[i]).nan()) ==> span(values)
            == [lowest(values), highest(values)],
{
    lemma_lowest_is_minimum(values);
    lemma_highest_is_maximum(values);
    if exists|i: int| 0 <= i < values.len() && !(#[trigger] values[i]).nan() {
        // A number lies between the two extremes, so the highest is not
        // below the lowest.
        let k = choose|i: int| 0 <= i < values.len() && !(#[trigger] values[i]).nan();
        assert(!values[k].below(lowest(values)) && !highest(values).below(values[k]));
    } else {
        lemma_no_number(values);
    }
}

/// Where `values` hold no number the running extremes stay where they started.
proof fn lemma_no_number(values: Seq<Scalar>)
    requires
        forall|i: int| 0 <= i < values.len() ==> (#[trigger] values[i]).nan(),
    ensures
        lowest(values).bits == INFINITY_BITS,
        highest(values).bits == INFINITY_BITS + SIGN_BIT,
    decreases values.len(),
{
    if values.len() > 0 {
        let front = values.drop_last();
        assert forall|i: int| 0 <= i < front.len() implies (#[trigger] front[i]).nan() by {
            assert(front[i] == values[i]);
        }
        lemma_no_number(front);
        assert(values.last().nan());
    }
}

/// How the transform of a draw call is formed.
#[derive(Clone, Copy, Debug, PartialEq, Eq)]
pub enum Placement {
    /// The entity's own transform.
    At(Transform),
    /// Scaled to the whole output surface and not moved.
    Surface,
    /// A glyph of a label: the label's transform, moved by the fixed shadow
    /// offset where `shadow` is set, then moved to the glyph's position and
    /// scaled by the glyph's size.
    Glyph { label: Transform, x: Scalar, y: Scalar, scale: Scalar, shadow: bool },
}

/// The alpha that a label's fill resolves to.
#[derive(Clone, Copy, Debug, PartialEq, Eq)]
pub enum Alpha {
    /// The alpha of a solid fill.
    Of(Scalar),
    /// The mean of the alphas of a gradient's two colors.
    MeanOf(Scalar, Scalar),
}

/// The fragment stage's inputs for one path.
#[derive(Clone, Copy, Debug, PartialEq, Eq)]
pub enum Paint {
    /// One color.
    Solid(Rgba),
    /// One color, whose alpha is first multiplied by a label's alpha.
    Shadow { color: Rgba, alpha: Alpha },
    /// Two colors, interpolated between `bounds[0]` and `bounds[1]` along local
    /// Y where `vertical` is set, along local X where it is not.
    Gradient { vertical: bool, start: Rgba, end: Rgba, bounds: [Scalar; 2] },
}

impl Paint {
    /// The mode that the fragment stage is put in.
    pub open spec fn mode(self) -> i32 {
        match self {
            Paint::Solid(_) => SHADER_SOLID,
            Paint::Shadow { .. } => SHADER_SOLID,
            Paint::Gradient { vertical, .. } => if vertical {
                SHADER_VERTICAL
            } else {
                SHADER_HORIZONTAL
            },
        }
    }

    /// The mode that the fragment stage is put in: 0, 1 or 2.
    pub fn shader_type(&self) -> (mode: i32)
        ensures
            mode == self.mode(),
    {
        match self {
            Paint::Solid(_) => SHADER_SOLID,
            Paint::Shadow { .. } => SHADER_SOLID,
            Paint::Gradient { vertical, .. } => if *vertical {
                SHADER_VERTICAL
            } else {
                SHADER_HORIZONTAL
            },
        }
    }
}

/// The texture that an image draw samples.
pub enum TextureSource {
    /// The image's own pixels.
    Image(GlImage),
    /// The image, blurred by the given setting.
    Blurred(GlImage, Scalar),
    /// The resolved copy of the bottom layer.
    BottomLayer,
}

/// One draw of an indexed triangle mesh with the path program.
pub struct PathDraw {
    pub vertices: Arc<Vec<Vertex>>,
    pub indices: Arc<Vec<u32>>,
    pub placement: Placement,
    pub paint: Paint,
}

/// One draw of a textured quad with the image program. Without a quad the
/// texture is still made ready, and nothing is drawn.
pub struct ImageDraw {
    pub texture: TextureSource,
    pub placement: Placement,
    /// Whether the vertical texture coordinate is flipped.
    pub flip_uv_y: bool,
    pub brightness: Scalar,
    pub opacity: Scalar,
    /// The unit square's mesh.
    pub quad: Option<StrokeGeometry>,
}

/// One draw call.
pub enum DrawCall {
    Path(PathDraw),
    Image(ImageDraw),
}

/// A path draw, as contracts see it.
pub struct PathDrawView {
    pub vertices: Seq<Vertex>,
    pub indices: Seq<u32>,
    pub placement: Placement,
    pub paint: Paint,
}

/// An image draw, as contracts see it.
pub struct ImageDrawView {
    pub texture: TextureSource,
    pub placement: Placement,
    pub flip_uv_y: bool,
    pub brightness: Scalar,
    pub opacity: Scalar,
    pub quad: Option<(Seq<Vertex>, Seq<u32>)>,
}

/// A draw call, as contracts see it.
pub enum DrawView {
    Path(PathDrawView),
    Image(ImageDrawView),
}

impl View for DrawCall {
    type V = DrawView;

    open spec fn view(&self) -> DrawView {
        match *self {
            DrawCall::Path(d) => DrawView::Path(
                PathDrawView {
                    vertices: d.vertices@,
                    indices: d.indices@,
                    placement: d.placement,
                    paint: d.paint,
                },
            ),
            DrawCall::Image(d) => DrawView::Image(
                ImageDrawView {
                    texture: d.texture,
                    placement: d.placement,
                    flip_uv_y: d.flip_uv_y,
                    brightness: d.brightness,
                    opacity: d.opacity,
                    quad: crate::types::geometry_view(d.quad),
                },
            ),
        }
    }
}

impl TextureSource {
    /// Another handle on the same texture source.
    pub fn share(&self) -> (shared: TextureSource)
        ensures
            shared == *self,
    {
        match self {
            TextureSource::Image(image) => TextureSource::Image(image.share()),
            TextureSource::Blurred(image, blur) => TextureSource::Blurred(image.share(), *blur),
            TextureSource::BottomLayer => TextureSource::BottomLayer,
        }
    }
}

impl DrawCall {
    /// The same draw call on shared buffers.
    pub fn share(&self) -> (shared: DrawCall)
        ensures
            shared@ == self@,
    {
        match self {
            DrawCall::Path(d) => DrawCall::Path(
                PathDraw {
                    vertices: share(&d.vertices),
                    indices: share(&d.indices),
                    placement: d.placement,
                    paint: d.paint,
                },
            ),
            DrawCall::Image(d) => {
                let quad = match &d.quad {
                    Some(g) => Some((share(&g.0), share(&g.1))),
                    None => None,
                };
                DrawCall::Image(
                    ImageDraw {
                        texture: d.texture.share(),
                        placement: d.placement,
                        flip_uv_y: d.flip_uv_y,
                        brightness: d.brightness,
                        opacity: d.opacity,
                        quad,
                    },
                )
            },
        }
    }
}

/// The number of indices of a mesh, as the graphics interface takes it.
pub fn index_count(indices: &[u32]) -> (count: i32)
    requires
        indices@.len() <= i32::MAX,
    ensures
        count == indices@.len(),
{
    indices.len() as i32
}

/// Bytes from one vertex to the next in a vertex buffer.
pub const VERTEX_STRIDE: i32 = 8;

/// The coordinates of a mesh as the GPU reads them: for each vertex the bit
/// pattern of its X, then that of its Y.
pub open spec fn position_words(vertices: Seq<Vertex>) -> Seq<u32> {
    Seq::new(2 * vertices.len(), |i: int| vertices[i / 2].position[i % 2].bits)
}

/// Lays the coordinates of a mesh out as the GPU reads them.
pub fn vertex_words(vertices: &[Vertex]) -> (words: Vec<u32>)
    ensures
        words@ == position_words(vertices@),
{
    let mut words: Vec<u32> = Vec::new();
    let mut i: usize = 0;
    while i < vertices.len()
        invariant
            i <= vertices.len(),
            words@ == position_words(vertices@.take(i as int)),
        decreases vertices.len() - i,
    {
        words.push(vertices[i].position[0].bits);
        words.push(vertices[i].position[1].bits);
        assert(words@ =~= position_words(vertices@.take(i + 1)));
        i = i + 1;
    }
    words
}

/// One byte of a word; place 0 is the least significant.
pub open spec fn word_byte(word: u32, place: int) -> u8 {
    if place == 0 {
        (word % 0x100) as u8
    } else if place == 1 {
        (word / 0x100 % 0x100) as u8
    } else if place == 2 {
        (word / 0x1_0000 % 0x100) as u8
    } else {
        (word / 0x100_0000) as u8
    }
}

/// The bytes of the words in order, each word's least significant byte first.
pub open spec fn little_endian(words: Seq<u32>) -> Seq<u8> {
    Seq::new(4 * words.len(), |i: int| word_byte(words[i / 4], i % 4))
}

/// The bytes of the words in order, each word's most significant byte first.
pub open spec fn big_endian(words: Seq<u32>) -> Seq<u8> {
    Seq::new(4 * words.len(), |i: int| word_byte(words[i / 4], 3 - i % 4))
}

/// Whether `bytes` are the words as they lie in memory, in one of the two
/// byte orders that a machine can have.
pub open spec fn in_memory(words: Seq<u32>, bytes: Seq<u8>) -> bool {
    bytes == little_endian(words) || bytes == big_endian(words)
}

/// The bytes of 32-bit words as they lie in memory, by
/// `bytemuck::cast_slice` from words to bytes, which reads the same memory
/// as bytes. States that they are the bytes of the words in order, in the
/// machine's byte order, whichever of the two it is.
#[verifier::external_body]
fn word_bytes(words: &[u32]) -> (bytes: Vec<u8>)
    ensures
        in_memory(words@, bytes@),
{
    bytemuck::cast_slice::<u32, u8>(words).to_vec()
}

/// What is streamed to the GPU for one draw of a mesh.
pub struct MeshUpload {
    /// The vertex buffer: the words of `vertex_words` as they lie in memory.
    pub vertex_bytes: Vec<u8>,
    /// The index buffer: the indices as they lie in memory.
    pub index_bytes: Vec<u8>,
    /// The number of indices to draw.
    pub index_count: i32,
}

/// The buffers and the index count of one draw of a mesh: for each vertex
/// the bits of its X and of its Y, and the indices, both as they lie in
/// memory.
pub fn upload_and_draw(vertices: &[Vertex], indices: &[u32]) -> (upload: MeshUpload)
    requires
        indices@.len() <= i32::MAX,
    ensures
        in_memory(position_words(vertices@), upload.vertex_bytes@),
        in_memory(indices@, upload.index_bytes@),
        upload.vertex_bytes@.len() == VERTEX_STRIDE * vertices@.len(),
        upload.index_bytes@.len() == 4 * indices@.len(),
        upload.index_count == indices@.len(),
{
    let words = vertex_words(vertices);
    MeshUpload {
        vertex_bytes: word_bytes(words.as_slice()),
        index_bytes: word_bytes(indices),
        index_count: index_count(indices),
    }
}

/// The draw calls of a batch, as contracts see them.
pub open spec fn views(draws: Seq<DrawCall>) -> Seq<DrawView> {
    Seq::new(draws.len(), |i: int| draws[i]@)
}

/// Whether a draw call reads the resolved copy of the bottom layer.
pub open spec fn samples_copy(draw: DrawView) -> bool {
    match draw {
        DrawView::Path(_) => false,
        DrawView::Image(d) => d.texture is BottomLayer,
    }
}

/// Whether no draw call of a batch reads the resolved copy of the bottom layer.
pub open spec fn none_samples_copy(draws: Seq<DrawView>) -> bool {
    forall|i: int| 0 <= i < draws.len() ==> !samples_copy(#[trigger] draws[i])
}

/// The fragment inputs that a fill comes to on a mesh with the given
/// vertices: a gradient is interpolated over the span of the vertices along
/// its axis.
pub open spec fn uniforms(shader: FillShader, vertices: Seq<Vertex>) -> Paint {
    match shader {
        FillShader::SolidColor(color) => Paint::Solid(color),
        FillShader::VerticalGradient(top, bottom) => Paint::Gradient {
            vertical: true,
            start: top,
            end: bottom,
            bounds: span(axis_values(vertices, AXIS_Y as int)),
        },
        FillShader::HorizontalGradient(left, right) => Paint::Gradient {
            vertical: false,
            start: left,
            end: right,
            bounds: span(axis_values(vertices, AXIS_X as int)),
        },
    }
}

/// The fragment inputs for filling `vertices` with `shader`.
pub fn set_shader_uniforms(shader: &FillShader, vertices: &[Vertex]) -> (paint: Paint)
    ensures
        paint == uniforms(*shader, vertices@),
{
    match shader {
        FillShader::SolidColor(color) => Paint::Solid(*color),
        FillShader::VerticalGradient(top, bottom) => {
            let bounds = vertex_bounds(vertices, AXIS_Y);
            Paint::Gradient { vertical: true, start: *top, end: *bottom, bounds }
        },
        FillShader::HorizontalGradient(left, right) => {
            let bounds = vertex_bounds(vertices, AXIS_X);
            Paint::Gradient { vertical: false, start: *left, end: *right, bounds }
        },
    }
}

/// The alpha that a label filled with `shader` resolves to: the fill's alpha
/// where it is solid, the mean of its two colors' alphas where it is a gradient.
pub open spec fn resolved_alpha(shader: FillShader) -> Alpha {
    match shader {
        FillShader::SolidColor(color) => Alpha::Of(color[3]),
        FillShader::VerticalGradient(first, second) => Alpha::MeanOf(first[3], second[3]),
        FillShader::HorizontalGradient(first, second) => Alpha::MeanOf(first[3], second[3]),
    }
}

/// The alpha by which a label's shadow is weakened.
pub fn label_alpha(shader: &FillShader) -> (alpha: Alpha)
    ensures
        alpha == resolved_alpha(*shader),
{
    match shader {
        FillShader::SolidColor(color) => Alpha::Of(color[3]),
        FillShader::VerticalGradient(first, second) => Alpha::MeanOf(first[3], second[3]),
        FillShader::HorizontalGradient(first, second) => Alpha::MeanOf(first[3], second[3]),
    }
}

/// The draw of a whole mesh.
pub open spec fn mesh_draw(mesh: PathView, placement: Placement, paint: Paint) -> DrawView {
    DrawView::Path(
        PathDrawView { vertices: mesh.vertices, indices: mesh.indices, placement, paint },
    )
}

/// The draw of a mesh filled with `shader`.
pub open spec fn fill_draw(mesh: PathView, shader: FillShader, placement: Placement) -> DrawView {
    mesh_draw(mesh, placement, uniforms(shader, mesh.vertices))
}

/// The mesh of the unit square, if the scene has one.
pub open spec fn quad_view(rectangle: Option<GlPath>) -> Option<(Seq<Vertex>, Seq<u32>)> {
    match rectangle {
        Some(path) => Some((path@.vertices, path@.indices)),
        None => None,
    }
}

/// The draw of a texture on the unit square.
pub open spec fn textured_draw(
    texture: TextureSource,
    placement: Placement,
    flip_uv_y: bool,
    brightness: Scalar,
    opacity: Scalar,
    rectangle: Option<GlPath>,
) -> DrawView {
    DrawView::Image(
        ImageDrawView {
            texture,
            placement,
            flip_uv_y,
            brightness,
            opacity,
            quad: quad_view(rectangle),
        },
    )
}

/// Draws a mesh with the given fragment inputs.
pub fn draw_mesh(path: &GlPath, placement: Placement, paint: Paint) -> (draw: DrawCall)
    ensures
        draw@ == mesh_draw(path@, placement, paint),
{
    DrawCall::Path(
        PathDraw {
            vertices: share(&path.vertices),
            indices: share(&path.indices),
            placement,
            paint,
        },
    )
}

/// Draws a path filled with `shader`.
pub fn draw_path(path: &GlPath, shader: &FillShader, placement: Placement) -> (draw: DrawCall)
    ensures
        draw@ == fill_draw(path@, *shader, placement),
{
    let paint = set_shader_uniforms(shader, path.vertices.as_slice());
    draw_mesh(path, placement, paint)
}

/// The unit square's buffers, shared.
pub fn quad(rectangle: &Option<GlPath>) -> (geometry: Option<StrokeGeometry>)
    ensures
        crate::types::geometry_view(geometry) == quad_view(*rectangle),
{
    match rectangle {
        Some(path) => Some((share(&path.vertices), share(&path.indices))),
        None => None,
    }
}

/// Draws a texture on the unit square.
pub fn draw_texture(
    texture: TextureSource,
    placement: Placement,
    flip_uv_y: bool,
    brightness: Scalar,
    opacity: Scalar,
    rectangle: &Option<GlPath>,
) -> (draw: DrawCall)
    ensures
        draw@ == textured_draw(texture, placement, flip_uv_y, brightness, opacity, *rectangle),
{
    DrawCall::Image(
        ImageDraw { texture, placement, flip_uv_y, brightness, opacity, quad: quad(rectangle) },
    )
}

} // verus!
