//! Register codec for the SX1255 RF front-end chip.
//!
//! The chip exposes its whole configuration and status surface as twenty
//! 8-bit registers, each packing several independent logical parameters
//! into sub-byte bit fields.  This crate provides the bidirectional,
//! bit-exact mapping between a human-meaningful device-state record
//! (frequencies in Hz, gains, enumerated bandwidths, boolean flags) and
//! the packed register bytes, together with the frequency quantization
//! transform, the decimation/interpolation-factor transform, and a
//! commented, line-oriented configuration-document format with a
//! validating reader.

pub mod decim;
pub mod doc;
pub mod fields;
pub mod freq;
pub mod numtext;
pub mod opts;
pub mod regmap;
pub mod state;
