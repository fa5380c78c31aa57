//! Shape checks, call marshalling and start-up rules for a matrix-vector
//! product (`y := alpha * op(A) * x + beta * y`) that a native linear-algebra
//! library computes.

pub mod blas;
pub mod cblas;
pub mod config;
pub mod neural_net;
