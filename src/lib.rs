//! Live train status: running-days decoding, station-name back-fill and
//! per-stop status derivation over a provider's schedule and tracking data.

pub mod days;
pub mod laws;
pub mod live;
pub mod model;
pub mod query;
pub mod stations;
