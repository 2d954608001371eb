//! Catalog of a game engine's asset archives: the name hash that keys the
//! archive format, a decoder for its container files, and an index from asset
//! identifiers to their place in the three storage tiers.

pub mod bytes;
pub mod hash;
pub mod index;
pub mod known_tags;
pub mod lines;
pub mod names;
pub mod parse;
pub mod sniff;
