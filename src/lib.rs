//! Structural checks of a railway infrastructure: dangling references and
//! positions that fall outside the track they lie on.

pub mod detectors;
pub mod graph;
pub mod infra_cache;
pub mod persist;
pub mod schema;
