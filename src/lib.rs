//! Decision logic of a space-flight prototype: asset-loading phases,
//! control handling, reticle placement and target selection, crosshair
//! layouts and the spawn plan of a tumbling torus chain.
//!
//! Everything here works on plain values. Engine types (transforms,
//! cameras, windows, entities) stay with the caller, which hands in what the
//! rules read and applies what they decide.
pub mod targeting;
pub mod controls;
pub mod phases;
pub mod crosshair;
pub mod chain;
pub mod hud;
