//! Islamic prayer times: the calendar arithmetic, the seasonal twilight model,
//! the calculation parameters and the daily schedule, all with proved contracts.
//!
//! Instants are whole seconds since 1970-01-01T00:00:00Z. Angles and
//! coordinates are fixed-point degrees, counted in ten-millionths of a degree
//! (see [`unit::DEGREE`]).
pub mod adjustments;
pub mod high_latitude_rule;
pub mod madhab;
pub mod method;
pub mod ops;
pub mod parameters;
pub mod prayer;
pub mod rounding;
pub mod schedule;
pub mod shafaq;
pub mod solar;
pub mod unit;
