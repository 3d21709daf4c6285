//! Integer side of column sampling for world generation: chunk addressing,
//! the search for the nearest structure candidate, and the choice of which
//! structure (if any) stands at a candidate site.

pub mod geometry;
pub mod structure;
