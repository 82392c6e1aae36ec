//! Command parsing and reply rendering for a chat bot that answers
//! dictionary, air-quality and how-to queries.

pub mod error;
pub mod grade;
pub mod handler;
pub mod normalize;
pub mod render;
pub mod request;
pub mod text;
