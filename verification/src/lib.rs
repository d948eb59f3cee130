//! Capture of OAuth redirects for a desktop application, together with the
//! small pure rules of its voice pipeline.
//!
//! A redirect reaches the application either through a loopback HTTP listener
//! or through a deep link. Whichever channel fires leaves a callback record in
//! its own single-item slot, and a polling consumer takes each record out
//! exactly once, deep links first.

pub mod address;
pub mod backend;
pub mod callback;
pub mod context;
pub mod fields;
pub mod json;
pub mod laws;
pub mod listener;
pub mod oauth;
pub mod overlay;
pub mod text;
pub mod tokens;
