//! Safe link previews: URL screening, redirect decisions, metadata
//! extraction, and the preview and screenshot caches, with machine-checked
//! contracts.
//!
//! The library decides; its caller does the waiting. Network, files, locks
//! and tasks belong to the caller, which hands the library what it read
//! and carries out what the library chose:
//!
//! - `target` and `address` hold the safety rules for URLs and addresses;
//! - `fetch` decides how a URL is requested and what each response means;
//! - `metadata` reads title, description and image from a page;
//! - `cache` is the bounded preview cache;
//! - `screenshot` and `refresh` hold the screenshot cache and its refresh;
//! - `request` holds the steps of the two endpoints;
//! - `config`, `clock`, `payload`, `errors` and `text` serve the others.

pub mod address;
pub mod cache;
pub mod clock;
pub mod config;
pub mod errors;
pub mod fetch;
pub mod metadata;
pub mod payload;
pub mod refresh;
pub mod request;
pub mod screenshot;
pub mod target;
pub mod text;
