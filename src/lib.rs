//! Weather lookup through interchangeable providers, with per-provider API keys
//! kept in a small key/value configuration store.
pub mod error;
pub mod json;
pub mod provider;
pub mod text;
pub mod credentials;
pub mod dispatch;
pub mod args;
