//! Change-notification ingestion and dispatch for a file exporter.
//!
//! A listener exports a fixed set of named resources from a transactional
//! store into files and keeps them in step with the store: it exports every
//! resource once, then waits for change notifications, merges the
//! notifications of one tick into a set, and exports each resource named in
//! it again. The paths of the files written travel down an ordered channel
//! to a consumer that runs at its own pace.
//!
//! The decisions live here and are proved; the caller performs the actions
//! that the listener asks for and hands back what happened.

pub mod settings;
pub mod names;
pub mod pending;
pub mod registry;
pub mod protocol;
pub mod model;
pub mod listener;
pub mod script;
pub mod laws;
pub mod channel;
