use std::sync::Arc;

use image::ImageEncoder;
use livesplit_renderer_glow::allocator::{
    accept_fill, gl_path_builder, store_stroke, tessellate_path, tessellate_stroke, GlAllocator,
    GlPathBuilder,
};
use livesplit_renderer_glow::scalar::Scalar;
use livesplit_renderer_glow::types::{GlPath, PathCommand, Vertex};
use lyon::math::point;
use lyon::path::Path as LyonPath;
use lyon::tessellation::{
    BuffersBuilder, FillOptions, FillRule, FillTessellator, FillVertex, StrokeOptions,
    StrokeTessellator, StrokeVertex, VertexBuffers,
};

fn s(value: f32) -> Scalar {
    Scalar { bits: value.to_bits() }
}

fn f(value: Scalar) -> f32 {
    f32::from_bits(value.bits)
}

fn lyon_path(outline: &Vec<PathCommand>) -> LyonPath {
    let mut builder = LyonPath::builder();
    for command in outline {
        match *command {
            PathCommand::MoveTo(x, y) => {
                builder.begin(point(f(x), f(y)));
            }
            PathCommand::LineTo(x, y) => {
                builder.line_to(point(f(x), f(y)));
            }
            PathCommand::QuadTo(x1, y1, x, y) => {
                builder.quadratic_bezier_to(point(f(x1), f(y1)), point(f(x), f(y)));
            }
            PathCommand::CurveTo(x1, y1, x2, y2, x, y) => {
                builder.cubic_bezier_to(
                    point(f(x1), f(y1)),
                    point(f(x2), f(y2)),
                    point(f(x), f(y)),
                );
            }
            PathCommand::Close => builder.end(true),
            PathCommand::End => builder.end(false),
        }
    }
    builder.build()
}

fn fill(outline: &Vec<PathCommand>) -> Option<(Vec<Vertex>, Vec<u32>)> {
    let path = lyon_path(outline);
    let mut geometry: VertexBuffers<Vertex, u32> = VertexBuffers::new();
    let mut tessellator = FillTessellator::new();
    let result = tessellator.tessellate_path(
        &path,
        &FillOptions::tolerance(0.01).with_fill_rule(FillRule::NonZero),
        &mut BuffersBuilder::new(&mut geometry, |vertex: FillVertex| {
            let p = vertex.position().to_array();
            Vertex { position: [s(p[0]), s(p[1])] }
        }),
    );
    result.ok().map(|()| (geometry.vertices, geometry.indices))
}

fn stroke(outline: &Vec<PathCommand>, width: Scalar) -> Option<(Vec<Vertex>, Vec<u32>)> {
    let path = lyon_path(outline);
    let mut geometry: VertexBuffers<Vertex, u32> = VertexBuffers::new();
    let mut tessellator = StrokeTessellator::new();
    let result = tessellator.tessellate_path(
        &path,
        &StrokeOptions::tolerance(0.01).with_line_width(f(width)),
        &mut BuffersBuilder::new(&mut geometry, |vertex: StrokeVertex| {
            let p = vertex.position().to_array();
            Vertex { position: [s(p[0]), s(p[1])] }
        }),
    );
    result.ok().map(|()| (geometry.vertices, geometry.indices))
}

fn triangle() -> GlPathBuilder {
    let mut pb = gl_path_builder();
    pb.move_to(s(0.0), s(0.0));
    pb.line_to(s(1.0), s(0.0));
    pb.line_to(s(0.5), s(1.0));
    pb.close();
    pb
}

#[test]
fn tessellate_unit_rectangle() {
    let outline = vec![
        PathCommand::MoveTo(s(0.0), s(0.0)),
        PathCommand::LineTo(s(1.0), s(0.0)),
        PathCommand::LineTo(s(1.0), s(1.0)),
        PathCommand::LineTo(s(0.0), s(1.0)),
        PathCommand::Close,
    ];

    let result = tessellate_path(Arc::new(outline), fill);
    assert!(result.is_some(), "rectangle should tessellate successfully");

    let gl_path = result.unwrap();
    assert!(!gl_path.vertices.is_empty(), "rectangle should have vertices");
    assert!(!gl_path.indices.is_empty(), "rectangle should have indices");
    assert_eq!(
        gl_path.indices.len() % 3,
        0,
        "index count must be a multiple of 3 (triangles)"
    );
}

#[test]
fn tessellate_empty_path_returns_none() {
    let outline: Vec<PathCommand> = Vec::new();

    assert!(
        tessellate_path(Arc::new(outline), fill).is_none(),
        "empty path should return None"
    );
}

#[test]
fn tessellate_degenerate_single_point_returns_none() {
    let outline = vec![PathCommand::MoveTo(s(1.0), s(1.0)), PathCommand::Close];

    assert!(
        tessellate_path(Arc::new(outline), fill).is_none(),
        "single-point path should return None"
    );
}

#[test]
fn path_builder_trait_builds_triangle() {
    let mut pb = gl_path_builder();
    pb.move_to(s(0.0), s(0.0));
    pb.line_to(s(1.0), s(0.0));
    pb.line_to(s(0.5), s(1.0));
    pb.close();
    let result = pb.finish(fill);

    assert!(result.is_some(), "triangle should tessellate successfully");
    let path = result.unwrap();
    assert_eq!(path.indices.len(), 3, "triangle should have 3 indices");
}

#[test]
fn path_builder_quadratic_curve() {
    let mut pb = gl_path_builder();
    pb.move_to(s(0.0), s(0.0));
    pb.quad_to(s(0.5), s(1.0), s(1.0), s(0.0));
    pb.close();
    let result = pb.finish(fill);

    assert!(
        result.is_some(),
        "quadratic curve path should tessellate successfully"
    );
}

#[test]
fn path_builder_cubic_curve() {
    let mut pb = gl_path_builder();
    pb.move_to(s(0.0), s(0.0));
    pb.curve_to(s(0.25), s(1.0), s(0.75), s(1.0), s(1.0), s(0.0));
    pb.close();
    let result = pb.finish(fill);

    assert!(
        result.is_some(),
        "cubic curve path should tessellate successfully"
    );
}

#[test]
fn gl_path_share_clones_arcs() {
    let path = triangle().finish(fill).unwrap();

    let shared = path.share();
    assert!(Arc::ptr_eq(&path.vertices, &shared.vertices));
    assert!(Arc::ptr_eq(&path.indices, &shared.indices));
}

#[test]
fn stroke_tessellate_rectangle() {
    let mut pb = gl_path_builder();
    pb.move_to(s(0.0), s(0.0));
    pb.line_to(s(1.0), s(0.0));
    pb.line_to(s(1.0), s(1.0));
    pb.line_to(s(0.0), s(1.0));
    pb.close();
    let mut path = pb.finish(fill).unwrap();

    let stroked = tessellate_stroke(&mut path, s(0.1), stroke);
    assert!(stroked.is_some(), "rectangle stroke should produce geometry");
    let stroked = stroked.unwrap();
    assert!(!stroked.vertices.is_empty());
    assert!(!stroked.indices.is_empty());
}

#[test]
fn stroke_tessellate_open_line() {
    // An open path (line segment) should also stroke successfully.
    let outline = vec![
        PathCommand::MoveTo(s(0.0), s(0.0)),
        PathCommand::LineTo(s(1.0), s(0.0)),
        PathCommand::End,
    ];
    let outline = Arc::new(outline);
    let filled = tessellate_path(Arc::clone(&outline), fill);
    // Fill of an open line may be None, but the outline is needed for the stroke.
    let mut path = filled.unwrap_or_else(|| GlPath::new(vec![], vec![], outline));

    let stroked = tessellate_stroke(&mut path, s(0.1), stroke);
    assert!(stroked.is_some(), "open line stroke should produce geometry");
}

#[test]
fn stroke_cache_hit() {
    let mut path = triangle().finish(fill).unwrap();

    // First call populates the cache.
    let first = tessellate_stroke(&mut path, s(0.1), stroke);
    assert!(first.is_some());

    // Second call with same width should hit the cache.
    let cached = path.cached_stroke(s(0.1));
    assert!(cached.is_some(), "cache should be populated after first stroke");
}

#[test]
fn stroke_cache_miss_on_different_width() {
    let mut path = triangle().finish(fill).unwrap();

    let _ = tessellate_stroke(&mut path, s(0.1), stroke);

    // Different width should miss the cache.
    let cached = path.cached_stroke(s(0.2));
    assert!(cached.is_none(), "cache should miss for different width");
}

#[test]
fn create_image_with_invalid_data_returns_none() {
    let mut alloc = GlAllocator::new();
    assert!(alloc.create_image(b"not an image").is_none());
}

#[test]
fn create_image_with_valid_png() {
    // Encode a 2x1 PNG at runtime so the bytes are always correct.
    let mut buf = std::io::Cursor::new(Vec::new());
    {
        let encoder = image::codecs::png::PngEncoder::new(&mut buf);
        // 2x1 RGBA image: red pixel, blue pixel
        let pixels: &[u8] = &[255, 0, 0, 255, 0, 0, 255, 255];
        encoder
            .write_image(pixels, 2, 1, image::ExtendedColorType::Rgba8)
            .unwrap();
    }

    let mut alloc = GlAllocator::new();
    let image = alloc.create_image(buf.get_ref());
    assert!(image.is_some(), "valid PNG should produce an image");

    let img = image.unwrap();
    assert_eq!(img.data.width, 2);
    assert_eq!(img.data.height, 1);
    let aspect_ratio = img.data.width as f32 / img.data.height as f32;
    assert!((aspect_ratio - 2.0).abs() < f32::EPSILON);
    // RGBA: 4 bytes per pixel x 2 pixels
    assert_eq!(img.data.pixels.len(), 8);
    assert_eq!(img.data.pixels, vec![255, 0, 0, 255, 0, 0, 255, 255]);
}

#[test]
fn allocator_default_matches_new() {
    let alloc: GlAllocator = GlAllocator::default();
    assert_eq!(alloc.next_image, GlAllocator::new().next_image);
}

#[test]
fn builder_records_commands_in_order() {
    let mut pb = GlPathBuilder::new();
    pb.move_to(s(1.0), s(2.0));
    pb.line_to(s(3.0), s(4.0));
    pb.quad_to(s(5.0), s(6.0), s(7.0), s(8.0));
    pb.curve_to(s(9.0), s(10.0), s(11.0), s(12.0), s(13.0), s(14.0));
    pb.close();
    assert_eq!(
        pb.commands,
        vec![
            PathCommand::MoveTo(s(1.0), s(2.0)),
            PathCommand::LineTo(s(3.0), s(4.0)),
            PathCommand::QuadTo(s(5.0), s(6.0), s(7.0), s(8.0)),
            PathCommand::CurveTo(s(9.0), s(10.0), s(11.0), s(12.0), s(13.0), s(14.0)),
            PathCommand::Close,
        ]
    );
}

#[test]
fn allocator_path_builder_starts_empty() {
    let mut alloc = GlAllocator::new();
    assert!(alloc.path_builder().commands.is_empty());
    assert_eq!(alloc.next_image, 0);
}

#[test]
fn accept_fill_rejects_failure_and_empty_geometry() {
    let outline = Arc::new(vec![PathCommand::MoveTo(s(0.0), s(0.0)), PathCommand::Close]);
    assert!(accept_fill(Arc::clone(&outline), None).is_none());
    assert!(accept_fill(Arc::clone(&outline), Some((vec![], vec![0, 1, 2]))).is_none());

    let vertex = Vertex { position: [s(1.0), s(2.0)] };
    let path = accept_fill(Arc::clone(&outline), Some((vec![vertex], vec![0]))).unwrap();
    assert_eq!(*path.vertices, vec![vertex]);
    assert_eq!(*path.indices, vec![0]);
    assert!(Arc::ptr_eq(&path.outline, &outline));
    assert!(path.stroke_cache.is_none());
}

#[test]
fn tessellate_path_hands_the_outline_to_the_tessellator() {
    let outline = Arc::new(vec![PathCommand::MoveTo(s(3.0), s(4.0)), PathCommand::Close]);
    let seen = std::cell::RefCell::new(Vec::new());
    let vertex = Vertex { position: [s(0.0), s(0.0)] };
    let path = tessellate_path(Arc::clone(&outline), |o: &Vec<PathCommand>| {
        seen.borrow_mut().push(o.clone());
        Some((vec![vertex], vec![0, 0, 0]))
    });
    assert_eq!(*seen.borrow(), vec![(*outline).clone()]);
    assert_eq!(*path.unwrap().indices, vec![0, 0, 0]);
}

#[test]
fn stroke_hit_does_not_call_the_tessellator() {
    let mut path = triangle().finish(fill).unwrap();
    let calls = std::cell::Cell::new(0u32);
    let counted = |outline: &Vec<PathCommand>, width: Scalar| {
        calls.set(calls.get() + 1);
        stroke(outline, width)
    };

    let first = tessellate_stroke(&mut path, s(0.1), &counted).unwrap();
    assert_eq!(calls.get(), 1);
    let second = tessellate_stroke(&mut path, s(0.1), &counted).unwrap();
    let third = tessellate_stroke(&mut path, s(0.1), &counted).unwrap();
    assert_eq!(calls.get(), 1);
    assert!(Arc::ptr_eq(&first.vertices, &second.vertices));
    assert!(Arc::ptr_eq(&first.indices, &second.indices));
    assert_eq!(*second.vertices, *third.vertices);
    assert_eq!(*second.indices, *third.indices);
    assert!(Arc::ptr_eq(&second.outline, &path.outline));
    assert!(second.stroke_cache.is_none());
}

#[test]
fn stroke_at_another_width_replaces_the_cached_one() {
    let mut path = triangle().finish(fill).unwrap();
    let calls = std::cell::Cell::new(0u32);
    let counted = |outline: &Vec<PathCommand>, width: Scalar| {
        calls.set(calls.get() + 1);
        stroke(outline, width)
    };

    tessellate_stroke(&mut path, s(0.1), &counted).unwrap();
    tessellate_stroke(&mut path, s(0.2), &counted).unwrap();
    assert_eq!(calls.get(), 2);
    assert!(path.cached_stroke(s(0.1)).is_none());
    assert!(path.cached_stroke(s(0.2)).is_some());
    assert_eq!(path.stroke_cache.as_ref().unwrap().width, s(0.2));

    // Back at the first width the stroke is tessellated anew.
    tessellate_stroke(&mut path, s(0.1), &counted).unwrap();
    assert_eq!(calls.get(), 3);
}

#[test]
fn stroke_within_tolerance_is_a_hit() {
    let mut path = triangle().finish(fill).unwrap();
    tessellate_stroke(&mut path, s(0.1), stroke).unwrap();
    assert!(path.cached_stroke(s(0.1 + 0.5 * f32::EPSILON)).is_some());
    assert!(path.cached_stroke(s(0.1 + 2.0 * f32::EPSILON)).is_none());
}

#[test]
fn failed_stroke_leaves_the_cache_as_it_was() {
    let mut path = triangle().finish(fill).unwrap();
    tessellate_stroke(&mut path, s(0.1), stroke).unwrap();

    let none = tessellate_stroke(&mut path, s(0.5), |_: &Vec<PathCommand>, _: Scalar| None);
    assert!(none.is_none());
    let empty = tessellate_stroke(&mut path, s(0.5), |_: &Vec<PathCommand>, _: Scalar| {
        Some((vec![], vec![1, 2, 3]))
    });
    assert!(empty.is_none());
    assert!(path.cached_stroke(s(0.1)).is_some());
    assert!(path.cached_stroke(s(0.5)).is_none());
}

#[test]
fn stroke_at_a_width_that_is_no_number_is_never_a_hit() {
    let mut path = triangle().finish(fill).unwrap();
    let vertex = Vertex { position: [s(0.0), s(0.0)] };
    let calls = std::cell::Cell::new(0u32);
    let fixed = |_: &Vec<PathCommand>, _: Scalar| {
        calls.set(calls.get() + 1);
        Some((vec![vertex], vec![0, 0, 0]))
    };
    assert!(tessellate_stroke(&mut path, s(f32::NAN), &fixed).is_some());
    assert!(tessellate_stroke(&mut path, s(f32::NAN), &fixed).is_some());
    assert_eq!(calls.get(), 2);
    assert!(tessellate_stroke(&mut path, s(f32::INFINITY), &fixed).is_some());
    assert!(tessellate_stroke(&mut path, s(f32::INFINITY), &fixed).is_some());
    assert_eq!(calls.get(), 4);
}

#[test]
fn store_stroke_keeps_usable_geometry() {
    let mut path = triangle().finish(fill).unwrap();
    let vertex = Vertex { position: [s(1.5), s(2.5)] };
    let stroked = store_stroke(&mut path, s(0.3), Some((vec![vertex], vec![0, 0, 0]))).unwrap();
    assert_eq!(*stroked.vertices, vec![vertex]);
    assert_eq!(*stroked.indices, vec![0, 0, 0]);
    let (vertices, indices) = path.cached_stroke(s(0.3)).unwrap();
    assert!(Arc::ptr_eq(&vertices, &stroked.vertices));
    assert!(Arc::ptr_eq(&indices, &stroked.indices));
    assert!(store_stroke(&mut path, s(0.4), None).is_none());
    assert!(path.cached_stroke(s(0.3)).is_some());
}

#[test]
fn set_stroke_cache_overwrites_the_single_entry() {
    let mut path = triangle().finish(fill).unwrap();
    let a = Vertex { position: [s(1.0), s(1.0)] };
    let b = Vertex { position: [s(2.0), s(2.0)] };
    path.set_stroke_cache(s(1.0), Arc::new(vec![a]), Arc::new(vec![0]));
    path.set_stroke_cache(s(2.0), Arc::new(vec![b]), Arc::new(vec![1]));
    assert!(path.cached_stroke(s(1.0)).is_none());
    let (vertices, indices) = path.cached_stroke(s(2.0)).unwrap();
    assert_eq!(*vertices, vec![b]);
    assert_eq!(*indices, vec![1]);
}

#[test]
fn shared_path_starts_with_an_empty_cache() {
    let mut path = triangle().finish(fill).unwrap();
    tessellate_stroke(&mut path, s(0.1), stroke).unwrap();
    let shared = path.clone();
    assert!(shared.cached_stroke(s(0.1)).is_none());
    assert!(path.cached_stroke(s(0.1)).is_some());
    assert!(Arc::ptr_eq(&path.outline, &shared.outline));
}

#[test]
fn from_arcs_keeps_the_buffers() {
    let vertices = Arc::new(vec![Vertex { position: [s(0.0), s(1.0)] }]);
    let indices = Arc::new(vec![0u32, 0, 0]);
    let outline = Arc::new(vec![PathCommand::Close]);
    let path = GlPath::from_arcs(Arc::clone(&vertices), Arc::clone(&indices), Arc::clone(&outline));
    assert!(Arc::ptr_eq(&path.vertices, &vertices));
    assert!(Arc::ptr_eq(&path.indices, &indices));
    assert!(Arc::ptr_eq(&path.outline, &outline));
    assert!(path.stroke_cache.is_none());
}

#[test]
fn images_get_identities_of_their_own() {
    let mut alloc = GlAllocator::new();
    let first = alloc.adopt_image(Some((vec![1, 2, 3, 4], 1, 1))).unwrap();
    let second = alloc.adopt_image(Some((vec![0; 24], 2, 3))).unwrap();
    assert!(alloc.adopt_image(None).is_none());
    let third = alloc.adopt_image(Some((vec![], 0, 0))).unwrap();
    assert_eq!(first.data.id, 0);
    assert_eq!(second.data.id, 1);
    assert_eq!(third.data.id, 2);
    assert_eq!(alloc.next_image, 3);
    assert_eq!(first.data.pixels, vec![1, 2, 3, 4]);
    assert_eq!((second.data.width, second.data.height), (2, 3));
    assert_eq!(second.larger_dimension(), 3);
    assert_eq!(first.larger_dimension(), 1);

    let shared = second.share();
    assert!(Arc::ptr_eq(&shared.data, &second.data));
    let cloned = second.clone();
    assert!(Arc::ptr_eq(&cloned.data, &second.data));
}

#[test]
fn failed_decode_uses_up_no_identity() {
    let mut alloc = GlAllocator::new();
    assert!(alloc.create_image(&[]).is_none());
    assert_eq!(alloc.next_image, 0);
}

#[test]
fn decoded_image_holds_four_bytes_for_each_pixel() {
    let mut buf = std::io::Cursor::new(Vec::new());
    {
        let encoder = image::codecs::png::PngEncoder::new(&mut buf);
        // 3x2 gray image: the decoder's answer is widened to RGBA8.
        let pixels: &[u8] = &[0, 50, 100, 150, 200, 250];
        encoder
            .write_image(pixels, 3, 2, image::ExtendedColorType::L8)
            .unwrap();
    }
    let mut alloc = GlAllocator::new();
    let img = alloc.create_image(buf.get_ref()).unwrap();
    assert_eq!((img.data.width, img.data.height), (3, 2));
    assert!(img.data.pixels.len() >= 4 * 3 * 2);
    assert_eq!(&img.data.pixels[..8], &[0, 0, 0, 255, 50, 50, 50, 255]);
    assert_eq!(img.data.id, 0);
    assert_eq!(alloc.next_image, 1);
}
