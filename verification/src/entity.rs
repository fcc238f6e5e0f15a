//! The entity renderer: the draw calls that each kind of entity comes to.

use crate::allocator::{path_view, stroke_requested, stroke_stored, tessellate_stroke};
use crate::draw::{
    draw_mesh, draw_path, draw_texture, fill_draw, label_alpha, mesh_draw, none_samples_copy,
    resolved_alpha, textured_draw, views, Alpha, DrawCall, DrawView, Paint, Placement,
    TextureSource,
};
use crate::scalar::{Scalar, ONE_BITS};
use crate::scene::{Background, BackgroundImage, Entity, FillShader, Glyph, Label, Rgba, Transform};
use crate::types::{GlImage, GlPath, Outline, PathView, Tessellation};
use vstd::prelude::*;

verus! {

/// A filled shape is drawn once with its fill; an absent shape is not drawn.
pub open spec fn fill_draws(path: Option<GlPath>, shader: FillShader, transform: Transform) -> Seq<
    DrawView,
> {
    match path {
        Some(p) => seq![fill_draw(p@, shader, Placement::At(transform))],
        None => Seq::empty(),
    }
}

/// A stroke is drawn once, as its mesh in the stroke's color; where there is
/// no stroke mesh nothing is drawn in its place.
pub open spec fn stroke_draws(stroked: Option<PathView>, color: Rgba, transform: Transform) -> Seq<
    DrawView,
> {
    match stroked {
        Some(mesh) => seq![mesh_draw(mesh, Placement::At(transform), Paint::Solid(color))],
        None => Seq::empty(),
    }
}

/// An image is drawn on the unit square as it is: not flipped, at full
/// brightness and opacity.
pub open spec fn image_draws(image: GlImage, transform: Transform, rectangle: Option<GlPath>) -> Seq<
    DrawView,
> {
    seq![
        textured_draw(
            TextureSource::Image(image),
            Placement::At(transform),
            false,
            Scalar { bits: ONE_BITS },
            Scalar { bits: ONE_BITS },
            rectangle,
        ),
    ]
}

/// The shadow of one glyph, if the glyph has a shape.
pub open spec fn glyph_shadow(glyph: Glyph, color: Rgba, alpha: Alpha, label: Transform) -> Seq<
    DrawView,
> {
    match glyph.path {
        Some(p) => seq![
            mesh_draw(
                p@,
                Placement::Glyph { label, x: glyph.x, y: glyph.y, scale: glyph.scale, shadow: true },
                Paint::Shadow { color, alpha },
            ),
        ],
        None => Seq::empty(),
    }
}

/// The fill that a glyph is drawn with: its own color where it has one, the
/// label's fill otherwise.
pub open spec fn glyph_fill(glyph: Glyph, shader: FillShader) -> FillShader {
    match glyph.color {
        Some(color) => FillShader::SolidColor(color),
        None => shader,
    }
}

/// One glyph at its place, if the glyph has a shape.
pub open spec fn glyph_face(glyph: Glyph, shader: FillShader, label: Transform) -> Seq<DrawView> {
    match glyph.path {
        Some(p) => seq![
            fill_draw(
                p@,
                glyph_fill(glyph, shader),
                Placement::Glyph { label, x: glyph.x, y: glyph.y, scale: glyph.scale, shadow: false },
            ),
        ],
        None => Seq::empty(),
    }
}

/// The shadows of all glyphs, in glyph order.
pub open spec fn shadow_pass(glyphs: Seq<Glyph>, color: Rgba, alpha: Alpha, label: Transform) -> Seq<
    DrawView,
>
    decreases glyphs.len(),
{
    if glyphs.len() == 0 {
        Seq::empty()
    } else {
        shadow_pass(glyphs.drop_last(), color, alpha, label) + glyph_shadow(
            glyphs.last(),
            color,
            alpha,
            label,
        )
    }
}

/// All glyphs at their places, in glyph order.
pub open spec fn glyph_pass(glyphs: Seq<Glyph>, shader: FillShader, label: Transform) -> Seq<
    DrawView,
>
    decreases glyphs.len(),
{
    if glyphs.len() == 0 {
        Seq::empty()
    } else {
        glyph_pass(glyphs.drop_last(), shader, label) + glyph_face(glyphs.last(), shader, label)
    }
}

/// A label is drawn glyph by glyph. Where it has a shadow, the shadows of all
/// glyphs come first, in the shadow color weakened by the label's alpha.
pub open spec fn label_draws(
    label: Label,
    shader: FillShader,
    text_shadow: Option<Rgba>,
    transform: Transform,
) -> Seq<DrawView> {
    let shadows = match text_shadow {
        Some(color) => shadow_pass(label.glyphs@, color, resolved_alpha(shader), transform),
        None => Seq::empty(),
    };
    shadows + glyph_pass(label.glyphs@, shader, transform)
}

/// The texture of a background image: blurred where the blur setting is
/// greater than zero, the image itself otherwise.
pub open spec fn background_texture(background: BackgroundImage) -> TextureSource {
    if background.blur.positive() {
        TextureSource::Blurred(background.image, background.blur)
    } else {
        TextureSource::Image(background.image)
    }
}

/// A fill covers the whole surface, drawn on the unit square; an image is
/// drawn where its transform puts it, with its brightness and opacity.
pub open spec fn background_draws(background: Background, rectangle: Option<GlPath>) -> Seq<
    DrawView,
> {
    match background {
        Background::Shader(shader) => match rectangle {
            Some(p) => seq![fill_draw(p@, shader, Placement::Surface)],
            None => Seq::empty(),
        },
        Background::Image(image, transform) => seq![
            textured_draw(
                background_texture(image),
                Placement::At(transform),
                false,
                image.brightness,
                image.opacity,
                rectangle,
            ),
        ],
    }
}

/// The bottom layer's resolved copy covers the whole surface, flipped
/// vertically, at full brightness and opacity.
pub open spec fn bottom_layer_draw(rectangle: Option<GlPath>) -> DrawView {
    textured_draw(
        TextureSource::BottomLayer,
        Placement::Surface,
        true,
        Scalar { bits: ONE_BITS },
        Scalar { bits: ONE_BITS },
        rectangle,
    )
}

/// What drawing an entity other than a stroke comes to.
pub open spec fn plain_draws(entity: Entity, rectangle: Option<GlPath>) -> Seq<DrawView> {
    match entity {
        Entity::FillPath(path, shader, transform) => fill_draws(path, shader, transform),
        Entity::StrokePath(_, _, _, _) => Seq::empty(),
        Entity::Image(image, transform) => image_draws(image, transform, rectangle),
        Entity::Label(label, shader, text_shadow, transform) => label_draws(
            label,
            shader,
            text_shadow,
            transform,
        ),
    }
}

/// Whether the tessellator can be asked for the stroke that `entity` needs
/// and has not cached.
pub open spec fn strokable<F: Fn(&Outline, Scalar) -> Option<Tessellation>>(
    entity: Entity,
    stroke: F,
) -> bool {
    match entity {
        Entity::StrokePath(Some(path), width, _, _) => path@.lookup(width) is None
            ==> call_requires(stroke, (&*path.outline, width)),
        _ => true,
    }
}

/// What rendering one entity does. Only a stroked shape can change: its
/// stroke cache, as the request for its stroke left it. Every other entity
/// stays as it is and is drawn as `plain_draws` says.
pub open spec fn entity_rendered<F: Fn(&Outline, Scalar) -> Option<Tessellation>>(
    before: Entity,
    after: Entity,
    draws: Seq<DrawView>,
    rectangle: Option<GlPath>,
    stroke: F,
) -> bool {
    match before {
        Entity::StrokePath(Some(path), width, color, transform) => {
            &&& after matches Entity::StrokePath(Some(kept), w, c, t)
            &&& w == width
            &&& c == color
            &&& t == transform
            &&& exists|stroked: Option<PathView>|
                {
                    &&& #[trigger] stroke_requested(path, width, stroke, kept@, stroked)
                    &&& draws == stroke_draws(stroked, color, transform)
                }
        },
        _ => after == before && draws == plain_draws(before, rectangle),
    }
}

/// The shadows of a label are meshes, none of them a texture.
proof fn lemma_shadow_pass_leaves_copy(glyphs: Seq<Glyph>, color: Rgba, alpha: Alpha, label: Transform)
    ensures
        none_samples_copy(shadow_pass(glyphs, color, alpha, label)),
    decreases glyphs.len(),
{
    if glyphs.len() > 0 {
        lemma_shadow_pass_leaves_copy(glyphs.drop_last(), color, alpha, label);
    }
}

/// The glyphs of a label are meshes, none of them a texture.
proof fn lemma_glyph_pass_leaves_copy(glyphs: Seq<Glyph>, shader: FillShader, label: Transform)
    ensures
        none_samples_copy(glyph_pass(glyphs, shader, label)),
    decreases glyphs.len(),
{
    if glyphs.len() > 0 {
        lemma_glyph_pass_leaves_copy(glyphs.drop_last(), shader, label);
    }
}

/// No entity reads the resolved copy of the bottom layer, whatever its kind
/// and whatever the tessellator answered.
pub proof fn lemma_entity_leaves_copy<F: Fn(&Outline, Scalar) -> Option<Tessellation>>(
    before: Entity,
    after: Entity,
    draws: Seq<DrawView>,
    rectangle: Option<GlPath>,
    stroke: F,
)
    requires
        entity_rendered(before, after, draws, rectangle, stroke),
    ensures
        none_samples_copy(draws),
{
    match before {
        Entity::Label(label, shader, text_shadow, transform) => {
            if let Some(color) = text_shadow {
                lemma_shadow_pass_leaves_copy(
                    label.glyphs@,
                    color,
                    resolved_alpha(shader),
                    transform,
                );
            }
            lemma_glyph_pass_leaves_copy(label.glyphs@, shader, transform);
        },
        _ => {},
    }
}

/// No background reads the resolved copy of the bottom layer.
pub proof fn lemma_background_leaves_copy(background: Background, rectangle: Option<GlPath>)
    ensures
        none_samples_copy(background_draws(background, rectangle)),
{
}

/// No entity of a rendered layer reads the resolved copy of the bottom layer.
pub proof fn lemma_layer_leaves_copy<F: Fn(&Outline, Scalar) -> Option<Tessellation>>(
    before: Seq<Entity>,
    after: Seq<Entity>,
    batches: Seq<Vec<DrawCall>>,
    rectangle: Option<GlPath>,
    stroke: F,
)
    requires
        layer_rendered(before, after, batches, rectangle, stroke),
    ensures
        forall|i: int| 0 <= i < batches.len() ==> none_samples_copy(views(#[trigger] batches[i]@)),
{
    assert forall|i: int| 0 <= i < batches.len() implies none_samples_copy(
        views(#[trigger] batches[i]@),
    ) by {
        lemma_entity_leaves_copy(before[i], after[i], views(batches[i]@), rectangle, stroke);
    }
}

/// Draws a filled shape, if there is one.
pub fn draw_fill(path: &Option<GlPath>, shader: &FillShader, transform: &Transform) -> (draws: Vec<
    DrawCall,
>)
    ensures
        views(draws@) == fill_draws(*path, *shader, *transform),
{
    let mut draws: Vec<DrawCall> = Vec::new();
    if let Some(p) = path {
        draws.push(draw_path(p, shader, Placement::At(*transform)));
    }
    draws
}

/// Draws a stroke mesh in the stroke's color, if there is one.
pub fn draw_stroke(stroked: &Option<GlPath>, color: &Rgba, transform: &Transform) -> (draws: Vec<
    DrawCall,
>)
    ensures
        views(draws@) == stroke_draws(path_view(*stroked), *color, *transform),
{
    let mut draws: Vec<DrawCall> = Vec::new();
    if let Some(mesh) = stroked {
        draws.push(draw_mesh(mesh, Placement::At(*transform), Paint::Solid(*color)));
    }
    draws
}

/// Draws an image entity as a textured quad.
pub fn draw_image(image: &GlImage, transform: &Transform, rectangle: &Option<GlPath>) -> (draws:
    Vec<DrawCall>)
    ensures
        views(draws@) == image_draws(*image, *transform, *rectangle),
{
    let mut draws: Vec<DrawCall> = Vec::new();
    draws.push(
        draw_texture(
            TextureSource::Image(image.share()),
            Placement::At(*transform),
            false,
            Scalar::one(),
            Scalar::one(),
            rectangle,
        ),
    );
    draws
}

/// Draws a text label, each glyph as a filled path.
///
/// If `text_shadow` is set, a shadow pass comes first, in the shadow color
/// weakened by the label's alpha.
pub fn draw_label(
    label: &Label,
    shader: &FillShader,
    text_shadow: &Option<Rgba>,
    transform: &Transform,
) -> (draws: Vec<DrawCall>)
    ensures
        views(draws@) == label_draws(*label, *shader, *text_shadow, *transform),
{
    let mut draws: Vec<DrawCall> = Vec::new();
    let ghost glyphs = label.glyphs@;
    if let Some(color) = text_shadow {
        let alpha = label_alpha(shader);
        let mut i: usize = 0;
        while i < label.glyphs.len()
            invariant
                i <= label.glyphs.len(),
                glyphs == label.glyphs@,
                alpha == resolved_alpha(*shader),
                views(draws@) == shadow_pass(glyphs.take(i as int), *color, alpha, *transform),
            decreases label.glyphs.len() - i,
        {
            let glyph = &label.glyphs[i];
            assert(glyphs.take(i + 1).drop_last() == glyphs.take(i as int));
            if let Some(path) = &glyph.path {
                let placement = Placement::Glyph {
                    label: *transform,
                    x: glyph.x,
                    y: glyph.y,
                    scale: glyph.scale,
                    shadow: true,
                };
                draws.push(draw_mesh(path, placement, Paint::Shadow { color: *color, alpha }));
            }
            i = i + 1;
        }
    }
    let ghost shadows = views(draws@);
    let mut i: usize = 0;
    while i < label.glyphs.len()
        invariant
            i <= label.glyphs.len(),
            glyphs == label.glyphs@,
            views(draws@) == shadows + glyph_pass(glyphs.take(i as int), *shader, *transform),
        decreases label.glyphs.len() - i,
    {
        let glyph = &label.glyphs[i];
        let ghost before = draws@;
        assert(glyphs.take(i + 1).drop_last() == glyphs.take(i as int));
        if let Some(path) = &glyph.path {
            let placement = Placement::Glyph {
                label: *transform,
                x: glyph.x,
                y: glyph.y,
                scale: glyph.scale,
                shadow: false,
            };
            let glyph_shader = if let Some(color) = &glyph.color {
                FillShader::SolidColor(*color)
            } else {
                *shader
            };
            draws.push(draw_path(path, &glyph_shader, placement));
            assert(views(draws@) =~= views(before) + glyph_face(*glyph, *shader, *transform));
        }
        i = i + 1;
    }
    assert(glyphs.take(i as int) == glyphs);
    draws
}

/// Draws a background image with its brightness and opacity, blurred where
/// its blur setting is greater than zero.
pub fn draw_background_image(
    background: &BackgroundImage,
    transform: &Transform,
    rectangle: &Option<GlPath>,
) -> (draw: DrawCall)
    ensures
        draw@ == textured_draw(
            background_texture(*background),
            Placement::At(*transform),
            false,
            background.brightness,
            background.opacity,
            *rectangle,
        ),
{
    let texture = if background.blur.is_positive() {
        TextureSource::Blurred(background.image.share(), background.blur)
    } else {
        TextureSource::Image(background.image.share())
    };
    draw_texture(
        texture,
        Placement::At(*transform),
        false,
        background.brightness,
        background.opacity,
        rectangle,
    )
}

/// Draws the scene background: a fill over the whole surface, or an image.
pub fn render_background(background: &Background, rectangle: &Option<GlPath>) -> (draws: Vec<
    DrawCall,
>)
    ensures
        views(draws@) == background_draws(*background, *rectangle),
{
    let mut draws: Vec<DrawCall> = Vec::new();
    match background {
        Background::Shader(shader) => {
            if let Some(path) = rectangle {
                draws.push(draw_path(path, shader, Placement::Surface));
            }
        },
        Background::Image(image, transform) => {
            draws.push(draw_background_image(image, transform, rectangle));
        },
    }
    draws
}

/// Draws the resolved copy of the bottom layer over the whole surface.
pub fn blit_fbo(rectangle: &Option<GlPath>) -> (draw: DrawCall)
    ensures
        draw@ == bottom_layer_draw(*rectangle),
{
    draw_texture(
        TextureSource::BottomLayer,
        Placement::Surface,
        true,
        Scalar::one(),
        Scalar::one(),
        rectangle,
    )
}

/// Renders a single scene entity.
///
/// A stroked shape asks for its stroke first, which may call the
/// tessellator and overwrite the shape's stroke cache.
pub fn render_entity<F: Fn(&Outline, Scalar) -> Option<Tessellation>>(
    entity: &mut Entity,
    rectangle: &Option<GlPath>,
    stroke: &F,
) -> (draws: Vec<DrawCall>)
    requires
        strokable(*old(entity), *stroke),
    ensures
        entity_rendered(*old(entity), *final(entity), views(draws@), *rectangle, *stroke),
{
    match entity {
        Entity::FillPath(path, shader, transform) => draw_fill(path, shader, transform),
        Entity::StrokePath(path, stroke_width, color, transform) => {
            match path {
                Some(path) => {
                    let ghost before = *path;
                    let ask = |outline: &Outline, width: Scalar| -> (outcome: Option<Tessellation>)
                        requires
                            call_requires(*stroke, (outline, width)),
                        ensures
                            call_ensures(*stroke, (outline, width), outcome),
                        { stroke(outline, width) };
                    let stroked = tessellate_stroke(path, *stroke_width, ask);
                    proof {
                        if before@.lookup(*stroke_width) is None {
                            // What `ask` answered, the tessellator answered.
                            let outcome = choose|outcome: Option<Tessellation>|
                                {
                                    &&& call_ensures(ask, (&*before.outline, *stroke_width), outcome)
                                    &&& stroke_stored(
                                        before@,
                                        *stroke_width,
                                        outcome,
                                        path@,
                                        path_view(stroked),
                                    )
                                };
                            assert(call_ensures(*stroke, (&*before.outline, *stroke_width), outcome));
                        }
                        assert(stroke_requested(
                            before,
                            *stroke_width,
                            *stroke,
                            path@,
                            path_view(stroked),
                        ));
                    }
                    draw_stroke(&stroked, color, transform)
                },
                None => {
                    let draws: Vec<DrawCall> = Vec::new();
                    assert(views(draws@) =~= Seq::<DrawView>::empty());
                    draws
                },
            }
        },
        Entity::Image(image, transform) => draw_image(image, transform, rectangle),
        Entity::Label(label, shader, text_shadow, transform) => draw_label(
            label,
            shader,
            text_shadow,
            transform,
        ),
    }
}

/// What rendering a layer does: every entity is rendered, in order, into a
/// batch of its own.
pub open spec fn layer_rendered<F: Fn(&Outline, Scalar) -> Option<Tessellation>>(
    before: Seq<Entity>,
    after: Seq<Entity>,
    batches: Seq<Vec<DrawCall>>,
    rectangle: Option<GlPath>,
    stroke: F,
) -> bool {
    &&& after.len() == before.len()
    &&& batches.len() == before.len()
    &&& forall|i: int|
        0 <= i < before.len() ==> entity_rendered(
            #[trigger] before[i],
            after[i],
            views(batches[i]@),
            rectangle,
            stroke,
        )
}

/// Whether the tessellator can be asked for every stroke that `layer` needs.
pub open spec fn layer_strokable<F: Fn(&Outline, Scalar) -> Option<Tessellation>>(
    layer: Seq<Entity>,
    stroke: F,
) -> bool {
    forall|i: int| 0 <= i < layer.len() ==> strokable(#[trigger] layer[i], stroke)
}

/// Renders the entities of a layer in order, one batch of draw calls each.
pub fn render_layer<F: Fn(&Outline, Scalar) -> Option<Tessellation>>(
    layer: &mut Vec<Entity>,
    rectangle: &Option<GlPath>,
    stroke: &F,
) -> (batches: Vec<Vec<DrawCall>>)
    requires
        layer_strokable(old(layer)@, *stroke),
    ensures
        layer_rendered(old(layer)@, final(layer)@, batches@, *rectangle, *stroke),
{
    let mut batches: Vec<Vec<DrawCall>> = Vec::new();
    let mut i: usize = 0;
    while i < layer.len()
        invariant
            i <= layer.len(),
            layer.len() == old(layer).len(),
            batches.len() == i,
            layer_strokable(old(layer)@, *stroke),
            forall|j: int| i <= j < layer.len() ==> layer[j] == old(layer)[j],
            forall|j: int|
                0 <= j < i ==> entity_rendered(
                    #[trigger] old(layer)[j],
                    layer[j],
                    views(batches[j]@),
                    *rectangle,
                    *stroke,
                ),
        decreases layer.len() - i,
    {
        let draws = render_entity(&mut layer[i], rectangle, stroke);
        batches.push(draws);
        i = i + 1;
    }
    batches
}

} // verus!
