//! A client for the Chrome Management API: requests described as values, URLs built from their
//! templates, and the decisions of the retry loop, all with their contracts proved.

pub mod calls;
pub mod cli;
pub mod error;
pub mod executor;
pub mod hub;
pub mod json;
pub mod params;
pub mod pct;
pub mod request;
pub mod schemas;
pub mod scope;
pub mod template;
mod text;
pub mod values;
