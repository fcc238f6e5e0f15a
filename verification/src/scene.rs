//! The scene of one frame: a background, a bottom layer that changes
//! rarely and a top layer that changes often.

use crate::scalar::Scalar;
use crate::types::{GlImage, GlPath};
use vstd::prelude::*;

verus! {

/// A color with straight (not premultiplied) alpha: red, green, blue, alpha.
pub type Rgba = [Scalar; 4];

/// Scales, then moves: a point `p` of an entity lands on `offset + scale * p`.
#[derive(Clone, Copy, Debug, PartialEq, Eq)]
pub struct Transform {
    pub scale_x: Scalar,
    pub scale_y: Scalar,
    pub x: Scalar,
    pub y: Scalar,
}

/// How the inside of a shape is colored.
#[derive(Clone, Copy, Debug, PartialEq, Eq)]
pub enum FillShader {
    /// One color everywhere.
    SolidColor(Rgba),
    /// From the first color at the top to the second at the bottom.
    VerticalGradient(Rgba, Rgba),
    /// From the first color at the left to the second at the right.
    HorizontalGradient(Rgba, Rgba),
}

/// One shaped glyph of a label, placed relative to the label.
pub struct Glyph {
    /// The glyph's outline as a mesh; absent for glyphs without one, such as spaces.
    pub path: Option<GlPath>,
    pub x: Scalar,
    pub y: Scalar,
    pub scale: Scalar,
    /// A color of the glyph's own, which overrides the label's fill.
    pub color: Option<Rgba>,
}

/// A shaped line of text.
pub struct Label {
    pub glyphs: Vec<Glyph>,
}

/// An image that fills the background.
pub struct BackgroundImage {
    pub image: GlImage,
    /// Multiplier on the color channels; one leaves them as they are.
    pub brightness: Scalar,
    /// Multiplier on alpha; one leaves it as it is.
    pub opacity: Scalar,
    /// Blur setting; the image is blurred where it is greater than zero.
    pub blur: Scalar,
}

/// What lies behind the bottom layer.
pub enum Background {
    /// The whole surface in one fill.
    Shader(FillShader),
    /// An image, placed by a transform.
    Image(BackgroundImage, Transform),
}

/// One thing to draw.
pub enum Entity {
    /// A shape whose inside is filled. An absent shape draws nothing.
    FillPath(Option<GlPath>, FillShader, Transform),
    /// The outline of a shape, drawn as a line of the given thickness.
    StrokePath(Option<GlPath>, Scalar, Rgba, Transform),
    /// An image.
    Image(GlImage, Transform),
    /// A text label, with the color of its shadow if it has one.
    Label(Label, FillShader, Option<Rgba>, Transform),
}

/// Everything to show in one frame.
pub struct Scene {
    pub background: Option<Background>,
    /// Entities that change rarely, drawn first.
    pub bottom_layer: Vec<Entity>,
    /// Entities that change often, drawn over the bottom layer.
    pub top_layer: Vec<Entity>,
    /// Whether the background or the bottom layer differ from the frame before.
    pub bottom_layer_changed: bool,
    /// The unit square, which images and full-surface fills are drawn on.
    pub rectangle: Option<GlPath>,
}

} // verus!
