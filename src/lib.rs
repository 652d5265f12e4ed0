//! Publishing pipeline of a podcast: episode numbering, feed synthesis and
//! the computations around artifact upload.
pub mod config;
pub mod error;
pub mod format;
pub mod numbering;
pub mod xml;
pub mod upload;
pub mod episode;
