//! Floating-origin frame conversion and hybrid rails/physics propagation.
//!
//! The simulation keeps a wide, authoritative "root" coordinate space and
//! re-centers a narrow "rigid" coordinate space around the active vessel every
//! tick, so the physics backend never sees enormous magnitudes.  Bodies either
//! move on analytic rails (a cached orbit description or a fixed surface
//! attachment) or are owned by the physics backend for the current tick; the
//! propagation engine advances every on-rails body down the celestial tree and
//! applies the accumulated velocity correction to physics-owned descendants.
//!
//! All quantities are fixed-point integers: root-space scalars carry
//! [`fx::FX_FRAC_BITS`] fractional bits in an `i64`, rigid-space scalars carry
//! [`fx::RIGID_FRAC_BITS`] fractional bits in an `i32`.  Narrowing from root to
//! rigid space is the one intentional precision-loss point, bounded by one
//! rigid-space unit because the frame is re-centered every tick.
//!
//! The components, in pipeline order per fixed tick: [`gravity`] applies the
//! Newtonian pull to loaded vessels; [`rail_propagation::write_sv_to_rail`]
//! classifies loaded vessels onto rails ([`rails`]);
//! [`rail_propagation::write_rail_to_sv`] advances the celestial tree;
//! [`frame_sync`] snapshots the active vessel and converts between root and
//! rigid space around the physics step ([`frames`]); and [`camera`] resolves
//! the render viewpoint.  The fixed-point kernel lives in [`fx`] and
//! [`trig`].

pub mod camera;
pub mod frame_sync;
pub mod frames;
pub mod fx;
pub mod gravity;
pub mod rail_propagation;
pub mod rails;
pub mod trig;
