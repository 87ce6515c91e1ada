//! Organizes media files into a destination layout keyed by capture date.
//!
//! Photos and videos found under a source tree are dispatched to
//! type-specific organizers; each decides whether a file is relevant and,
//! if so, which destination directory it belongs in.  Photo dates come
//! from embedded camera metadata first, then from a filename pattern;
//! video dates come from the filename only.

pub mod config;
pub mod date;
pub mod directory;
pub mod errors;
pub mod paths;
pub mod organizer;
pub mod patterns;
