//! Nautical chart import pipeline: layer schema registry, attribute and
//! geometry extraction, persistence planning and import orchestration.

pub mod colors;
pub mod depth;
pub mod attrs;
pub mod numtext;
pub mod sqltext;
pub mod feature;
pub mod features;
pub mod s57;
pub mod extract;
pub mod catalog;
pub mod import;
pub mod style;
pub mod util;
pub mod tiles;
