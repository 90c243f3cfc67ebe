//! Integer and structural core of a path-tracing renderer: the pixel raster,
//! the order in which it is walked, nearest-hit selection, rays, the staged
//! camera configuration and the PPM text of a quantised image.

pub mod camera;
pub mod image;
pub mod object_storage;
pub mod ppm;
pub mod ray;

pub use image::Image;
