//! Request handling core of an embeddings service.

pub mod config;
pub mod error;
pub mod exposition;
pub mod handler;
pub mod request;
pub mod response;
pub mod service;
pub mod telemetry;
pub mod tokens;
