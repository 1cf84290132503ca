//! Render-target, clear-state, material and animated-water logic of a small
//! real-time rendering layer.
//!
//! Real-valued quantities are fixed-point integers: a clear value of one is
//! [`clear_state::ONE`] and a world-space length of one is [`water::UNIT`].
//! Operations that would touch the graphics API are recorded as
//! [`context::Command`]s on a [`context::Context`], for a backend to replay.
pub mod camera;
pub mod clear_state;
pub mod context;
pub mod material;
pub mod skybox_material;
pub mod render_target;
pub mod water;
