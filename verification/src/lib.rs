//! Guard coding agents from dangerous tool calls, and guide them to safer
//! alternatives: rules pair a tool matcher and a regular expression with a
//! message, and the first rule that matches a tool call denies it.

pub mod text;
pub mod agent;
pub mod config;
pub mod input;
pub mod pattern;
pub mod evaluator;
pub mod output;
pub mod cli;
pub mod hook;
