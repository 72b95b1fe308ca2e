//! Trading fees for short positions in a fixed-rate automated market maker,
//! computed in 18-decimal fixed-point arithmetic over 256-bit unsigned
//! integers, with every rounding and every failure stated in contracts.
//!
//! The fee functions are methods of [`State`], in [`short::fees`]. They read
//! a snapshot of the market and return a [`FixedPoint`] fee or an
//! [`ArithmeticError`].

pub mod fixed_point;
pub mod short;
pub mod state;
pub mod uint;

pub use fixed_point::{ArithmeticError, FixedPoint};
pub use state::State;
pub use uint::{U256, U512};
