//! Monte-Carlo density rendering of two-dimensional discrete attractors.
//!
//! Starting points are drawn from a [`Generator`], iterated through an
//! [`Attractor`], mapped onto a pixel grid by a [`PixelMapper`] and counted into
//! a [`Grid`]. [`render`] fans the samples out over parallel groups and sums the
//! group grids.
pub mod attractor;
pub mod complex;
pub mod generator;
pub mod grid;
pub mod mapper;
pub mod render;
mod scalar;
pub mod settings;

pub use attractor::{
    Attractor, Chirikov, Clifford, DeJong, Duffing, Gingerbreadman, Henon, Ikeda, Tinkerbell,
};
pub use complex::Complex;
pub use generator::{Aabb, Circle, Gaussian, Generator};
pub use grid::Grid;
pub use mapper::PixelMapper;
pub use render::{render, render_group, render_path, render_seeded, RenderError};
pub use settings::{ConfigurationError, Settings};
