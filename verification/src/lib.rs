//! Startup configuration and request dispatch rules of a query server
//! that hands every query to one script engine.
//!
//! * [`source`]: configuration layers as flattened entries, and their merge.
//! * [`settings`]: the typed configuration snapshot and its loading.
//! * [`laws`]: what holds of loading, proved over the loader's models.
//! * [`selector`]: the choice of the runtime that serves a request.
//! * [`dispatch`]: one invocation at a time, first come first served.

pub mod dispatch;
pub mod laws;
pub mod selector;
pub mod settings;
pub mod source;
