//! Configuration and start-up logic of the settings service.
pub mod base;
pub mod collections;
pub mod config;
pub mod environment;
pub mod handlers;
pub mod services;
pub mod setting_types;
pub mod setup;
