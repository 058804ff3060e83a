pub mod client;
pub mod config;
pub mod error;
pub mod http;
mod json;
pub mod server;
pub mod text;
pub mod types;
