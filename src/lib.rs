//! Coordinate handling and click bookkeeping for a window that shows one
//! block of shaped text, centred, and reports which character a click hits.
//!
//! All positions are kept in layout units, the fixed-point unit of the text
//! layout engine: one pixel is `SCALE` units.
use vstd::prelude::*;

pub mod geometry;
pub mod controller;
pub mod output;
