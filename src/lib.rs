//! Configuration resolution and startup sequencing for a small ERP web server.
pub mod bootstrap;
pub mod config;
pub mod fallback;
pub mod logging;
pub mod registry;
pub mod resolve;
