//! A first-person character controller over static convex geometry.
//!
//! All quantities are fixed-point: an `i64` counts millionths of a world
//! unit or of a radian (`fixed`), and a `Vec3` holds three of them. The
//! arithmetic never fails: it rounds toward zero and clamps at the ends of
//! `i64`.
//!
//! The scene (`game`) is an ordered list of boxes and ramps (`objects`);
//! a ramp is a wedge whose mesh is checked to be a valid convex hull
//! (`hull`, `wedge`). The character (`player`) is stepped once per frame:
//! it turns its look, sets its velocity from the keys, gravity and the
//! surface it stands on, resolves the contacts that the narrow phase found
//! for its capsule, and commits the new position. What holds of every step
//! is proved in `laws`.
//!
//! The host supplies what the controller does not compute: the sines and
//! cosines of its angles, and the contacts between its capsule and the
//! shapes.
pub mod fixed;
pub mod game;
pub mod hull;
pub mod laws;
pub mod objects;
pub mod player;
pub mod vec3;
pub mod wedge;
