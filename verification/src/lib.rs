//! Verified core of a small tank-driving scene.
//!
//! The scene itself (rendering, asset loading, keyboard polling) belongs to a
//! host engine; what this library owns is the arithmetic that drives it every
//! frame: the wrapped facing angle of the tank, the clamped parabola that
//! shapes the scrolling ground, the recycling of ground chunks along one axis,
//! and the fixed offset at which a trailing camera follows the tank.
//!
//! Lengths are stored as exact fixed-point integers so that every update can
//! be verified: lateral positions count tenths of a world unit, heights count
//! thirty-thousandths of a world unit, and speeds and distances count
//! thousandths. Angles are whole degrees.

pub mod camera;
pub mod chunks;
pub mod input;
pub mod tank;
pub mod utils;
