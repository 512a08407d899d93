//! Structural comparison of XML documents under configurable ignore rules.

pub mod auth;
pub mod batch;
pub mod compare;
pub mod diff;
pub mod element;
pub mod error;
pub mod flatten;
pub mod laws;
pub mod matcher;
pub mod models;
pub mod payload;
pub mod render;
pub mod service;
pub mod session;
pub mod text;
pub mod tokens;
pub mod url_task;
pub mod validation;
