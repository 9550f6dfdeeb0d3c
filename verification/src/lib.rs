//! Media-feature values and evaluators for media and container queries.

pub mod values;
pub mod device;
pub mod media_features;
pub mod laws;
