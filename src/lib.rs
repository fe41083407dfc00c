//! The core of a command that summarizes text with a local language model:
//! finding a model file, building the instruction prompt, and streaming
//! generated tokens to an output that may fail.

pub mod args;
pub mod locator;
pub mod prompt;
pub mod sink;
pub mod text;
