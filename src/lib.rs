//! Recoloring of raster images: a pure per-pixel blend toward a flat target
//! color, image entries that keep their original pixels and a derived
//! recolored copy, and a gallery that applies parameters to one entry or to
//! all of them at once.
pub mod blend;
pub mod raster;
pub mod codec;
pub mod entry;
pub mod gallery;
