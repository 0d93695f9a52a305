//! A minimal two-paddle ball-bounce game core.
//!
//! All geometry is carried in fixed-point integers: positions are measured in
//! sub-pixels (thousandths of a pixel) and velocities in sub-pixels per
//! millisecond, so every update is exact integer arithmetic. The host event
//! loop owns the window and the clock; it calls into this crate once per logic
//! tick and once per pointer move, and reads the state back to draw it.

pub mod game;
pub mod laws;
