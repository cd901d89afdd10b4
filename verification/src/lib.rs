//! Enki: a local coding assistant. This crate holds its verified core:
//! context budgeting, conversation state, tool decisions, stream framing,
//! input editing and configuration layering.

pub mod agent;
pub mod app;
pub mod config;
pub mod daemon;
pub mod json;
pub mod llm;
pub mod text;
pub mod tools;
pub mod tui;
