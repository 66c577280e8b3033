//! Client-side logic for the Canny feedback service: request construction,
//! response classification, and the pagination engine that enumerates
//! cursor-paginated listings.

pub mod client;
pub mod command;
pub mod credentials;
pub mod error;
pub mod json;
pub mod models;
pub mod pagination;
pub mod request;
pub mod resource;
pub mod response;
pub mod text;
