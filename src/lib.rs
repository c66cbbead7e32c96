//! Integer side of the Landau / Gaussian convolution ("Langau"): how many
//! quadrature bins the convolution uses, which of them it samples, and what
//! the parameter sanitizer reports. The densities themselves are evaluated in
//! floating point by the application crate around this library.
pub mod quadrature;
pub mod sanitize;
