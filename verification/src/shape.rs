//! The drawable shapes the engine renders.

pub mod shape_drawer;
