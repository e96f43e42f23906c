//! A scheduled content poster's verified core: a filesystem-backed
//! pool of unused images, uniform random selection with optional
//! sidecar attribution, and the selection→publish→archive pipeline
//! with its failure policy. The unverified rim — the daily trigger,
//! authentication, file and network I/O — performs what these modules
//! decide and feeds the outcomes back.

pub mod images;
pub mod paths;
pub mod pipeline;
pub mod sidecar;
