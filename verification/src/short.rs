//! Short positions.

pub mod fees;
