//! A two-dimensional Ising spin lattice evolved by single-spin-flip Metropolis
//! dynamics, its rendering as braille text, quantized user parameters and the
//! decisions of the interactive controller.

pub mod parameter;
pub mod random;
pub mod ising;
pub mod braille;
pub mod linearithmic;
pub mod app;
