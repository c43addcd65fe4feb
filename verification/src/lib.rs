//! A verified core for describing physical keyboards.
//!
//! A keyboard is described by seven parallel row-structured arrays (one per
//! key attribute) plus two rendering templates.  This crate validates the
//! cross-field consistency of such a raw configuration and flattens it into
//! one ordered list of per-key records, the canonical key numbering used by
//! downstream consumers.

pub mod key;
pub mod keyboard;
