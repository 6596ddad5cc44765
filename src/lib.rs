//! Blur detection by the variance of a Laplacian edge response.
//!
//! The pipeline runs from a smoothed luminance image through the
//! 4-neighbour Laplacian to the exact population variance of the response,
//! which is then compared with a rational threshold.
pub mod buffer;
pub mod classify;
pub mod edge;
pub mod error;
pub mod laws;
pub mod variance;
