//! Read path of a full-text article search engine: query construction,
//! ranking, snippet assembly, and a trailing-24-hour top view, written
//! against an external index collaborator.

pub mod base;
pub mod collab;
pub mod common;
pub mod config;
pub mod highlight;
pub mod model;
pub mod query;
pub mod rank;
pub mod request;
pub mod response;
pub mod top;
pub mod util;
