//! Input-event normalization and action dispatch for a Wayland compositor.
//!
//! The library decides; the surrounding program performs. Every function
//! here is pure or works on the library's own state, and hands the protocol
//! layer plain values describing what to deliver.
pub mod action;
pub mod axis;
pub mod binding;
pub mod geometry;
pub mod state;
