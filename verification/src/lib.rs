//! Frame composition for a two-layer scene renderer: what to redraw, what to
//! reuse, and in which order, with the GPU-side caches that make reuse sound.
//!
//! The library plans; it does not draw. A frame comes out as a list of steps
//! for the GPU, and whatever only the outside can do (tessellating an
//! outline, uploading pixels, blurring an image) is handed in as a function.
//! Numbers that end up on the GPU are carried by their bit patterns.
//!
//! - [`scalar`]: single-precision numbers by their bits, ordered and compared
//!   within tolerance in integer arithmetic.
//! - [`types`]: tessellated paths with their one-entry stroke cache, and
//!   decoded images.
//! - [`allocator`]: outlines, tessellation results, strokes on demand, image
//!   decoding.
//! - [`scene`]: the entities of a frame.
//! - [`draw`]: draw calls and the values of their shader inputs.
//! - [`entity`]: the draw calls that each kind of entity comes to.
//! - [`texture`]: what an upload of pixels is made of.
//! - [`frame`]: the plan of a frame and the order of its steps.
//! - [`render`]: the state between frames, the texture caches and the frame
//!   driver.

pub mod allocator;
pub mod draw;
pub mod entity;
pub mod frame;
pub mod render;
pub mod scalar;
pub mod scene;
pub mod texture;
pub mod types;
