//! Media-session tracking: normalization of the session broker's property
//! bundles, session lifecycle bookkeeping, event aggregation, thumbnail
//! reads, control dispatch and the window form, each stated and proved with
//! Verus.

pub mod aggregator;
pub mod control;
pub mod convert;
pub mod error;
pub mod model;
pub mod registry;
pub mod snapshot;
pub mod thumbnail;
pub mod window;
