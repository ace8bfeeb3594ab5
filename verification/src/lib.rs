//! Forward-mode automatic differentiation with Taylor towers: a value
//! together with the chain of its successive derivatives at a point.

pub mod arith;
pub mod jet;
pub mod laws;
pub mod scalar;
pub mod tower;

pub use arith::cube;
pub use scalar::TaylorScalar;
pub use tower::TaylorNumber;
