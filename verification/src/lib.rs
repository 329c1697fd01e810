//! The decisions of a tool that keeps a video library transcoded.
//!
//! Everything the tool decides stands here: which files are videos, what happens to each file,
//! which encoder arguments are used, when a transcode is good enough, and where files end up.
//! What it takes to carry those decisions out (walking directories, running `ffmpeg`, copying
//! files) is left to the program around this crate.

pub mod cleanup;
pub mod command;
pub mod config;
pub mod disposal;
pub mod finalize;
pub mod paths;
pub mod pipeline;
pub mod priority_channel;
pub mod progress;
pub mod requests;
pub mod scan;
pub mod setup;
pub mod transcode;
pub mod video;
