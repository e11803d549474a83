//! A small news reader pipeline: a fixed registry of named feed sources,
//! a parser from raw feed bytes to channel items, a projector from items
//! to display records with fixed fallback texts, a renderer that lays the
//! records out line by line with per-field styling, and the driver logic
//! that decides what follows the menu. Fetching and the interactive menu
//! are terminal and network work and live outside the library; everything
//! the pipeline decides or computes is specified and verified here.

pub mod driver;
pub mod errors;
pub mod feed;
pub mod project;
pub mod registry;
pub mod render;
