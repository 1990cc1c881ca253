//! Eardogger: movable bookmarks ("dogears") for reading serialized content on the web.
//!
//! This crate holds the verified core of the service: URL matching and
//! normalization, pagination arithmetic, form validation, token and password
//! handling, authorization decisions and error reporting. The web server,
//! the database and the template engine live in the `app/` crate around it.

pub mod args;
pub mod config;
pub mod db;
pub mod laws;
pub mod text;
pub mod thirdparty;
pub mod util;
pub mod version;
pub mod web;
