//! Verified core of a command-line tool that generates images and videos
//! from text prompts through hosted generation services.

pub mod agent;
pub mod cli;
pub mod error;
pub mod models;
pub mod output;
pub mod providers;
pub mod text;
