//! Basic abstractions of middleware for building networking clients and
//! servers: the [`Service`] trait for request handlers, the [`Layer`] trait
//! for wrapping one service in another, and combinators that compose them.
//!
//! [`Layer`]: crate::layer::Layer

pub mod adapter;
pub mod builder;
pub mod layer;
pub mod sealed;
pub mod service;
pub mod service_layer;
pub mod timeout;
pub mod utils;

pub use service::{Service, ServiceExt, UnaryService};
