//! Verified core of a command-line tool that signals build status on
//! Philips Hue lights: bridge discovery, link-button authentication,
//! a retrying request layer and a scene execution engine, all written as
//! decision logic over plain values so that the transport can live elsewhere.

pub mod bridge;
mod clock;
pub mod config;
pub mod error;
pub mod json;
pub mod scenes;
pub mod seqs;
pub mod setup;
pub mod string_map;
pub mod text;

pub use error::{HueStatusError, Result};
