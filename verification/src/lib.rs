//! A client library for the OpenRouter HTTP API: request and response models,
//! their JSON layouts, and the decisions a client makes around each call.
pub mod body;
pub mod client;
pub mod decode;
pub mod error;
pub mod http;
pub mod image_models;
pub mod images;
pub mod json;
pub mod responses;
pub mod sse;
pub mod text;
pub mod tool;
