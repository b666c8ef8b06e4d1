//! The parts that screens are built from.

pub mod button;
