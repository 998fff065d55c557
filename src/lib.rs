//! A verified binding layer between a dynamically typed host and the sled
//! embedded key-value store: it decodes host configuration options, builds
//! engine configurations, opens databases and maps engine outcomes back into
//! the host's result convention.
pub mod config;
pub mod engine;
pub mod options;
