//! Runs named functions as short-lived containers on a container engine.
//!
//! The library normalises image references, resolves registry credentials,
//! builds the engine's HTTP requests, reads its replies, pulls the images of
//! the functions at start-up and drives each invocation through the
//! container lifecycle. It performs no I/O itself: a caller sends each
//! request and hands the reply back.

pub mod auth;
pub mod client;
pub mod codec;
pub mod config;
pub mod engine;
pub mod error;
pub mod handler;
pub mod image;
pub mod invoke;
pub mod startup;
pub mod text;
pub mod v1_37;
pub mod weburl;
