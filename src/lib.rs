//! Backend logic for networked e-ink displays: capability filenames that
//! authorize image retrieval, the weather context of a template, the packing
//! of a rendered raster into the display's one-bit bitmap, and the decisions
//! of a live-preview session.
use vstd::prelude::*;

pub mod api;
pub mod bitmap;
pub mod config;
pub mod context;
pub mod display;
pub mod dto;
pub mod preview;
pub mod token;
pub mod weather;

verus! {

} // verus!
