//! Interactive selection of path-shaped strokes in a lane-network editor.
//!
//! A selectable proxy holds a reference to a logical stroke together with the
//! stroke's pick geometry. Pointer gestures delivered to the proxy are turned
//! into clamped arc-length intervals on the stroke's path and forwarded as
//! selection or commit commands to the plan authority; a clear-selection
//! signal deregisters the proxy from the pick surface and ends its life.
//!
//! All arc lengths and coordinates are held in integral milli-units
//! (one thousandth of a scene unit), so the interval arithmetic is exact.

pub mod geometry;
pub mod interval;
pub mod selectable;
