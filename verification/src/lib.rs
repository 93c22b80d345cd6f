//! Project management for multi-platform Rust apps: sessions and their
//! configuration, project templates, build and deployment plans.
pub mod text;
pub mod helper;
pub mod session;
pub mod config;
pub mod template;
pub mod builder;
pub mod outside;
pub mod device;
pub mod manifest;
pub mod icons;
pub mod signing;
pub mod project;
pub mod toolchain;
pub mod laws;
pub mod ui;
