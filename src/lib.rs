//! A capture engine for window and monitor snapshots: the ordered chain of
//! capture techniques, the release order of graphics handles, the BGRA to
//! RGBA conversion, the window chrome classifier and the crop it implies.

pub mod capture;
pub mod error;
pub mod geometry;
pub mod pixels;
pub mod resource;
pub mod strategy;
