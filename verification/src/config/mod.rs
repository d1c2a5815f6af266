//! Configuration: runtime settings, their stored form and the conversions
//! between them.
pub mod app;
pub mod cache;
pub mod loader;
pub mod migration;
pub mod postcard_config;
pub mod provider;
pub mod serializer;
pub mod server;
pub mod tool;
pub mod wasm_config;
pub mod wizard;
