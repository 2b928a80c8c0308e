//! Verified core of an agent-friendly Gemini text-to-speech command line tool.

pub mod text;
pub mod error;
pub mod cli;
pub mod audio;
pub mod catalog;
pub mod json;
pub mod config;
pub mod prompt;
pub mod update;
pub mod usage;
pub mod gemini;
pub mod auth;
pub mod doctor;
pub mod tts;
