//! Simulation core of a small boating game: fixed-point water forces, the
//! docking state machine, asset-load gating, steering and the tunable
//! configuration with its control panel.

pub mod assets;
pub mod colliders;
pub mod config;
pub mod dock;
pub mod forces;
pub mod input;
pub mod panel;
pub mod units;
pub mod vector;
