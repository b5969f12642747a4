//! Sorts photo files into a destination tree keyed by their capture date.

pub mod datetime;
pub mod error;
pub mod exif;
pub mod paths;
pub mod photo;
pub mod placement;
