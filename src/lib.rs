//! A Mandelbrot-set viewer's computing core: escape-time evaluation in exact
//! fixed-point arithmetic, an HSL color map in exact integer arithmetic, a
//! viewport that pans and zooms, and a grid of cells rendered from it.
pub mod fixed;
pub mod escape;
pub mod color;
pub mod view;
pub mod grid;
