//! Verified core of MD RedPen: byte-preserving Markdown annotation,
//! source-backed rendering projection, selection state, and the application
//! state machine that the terminal front end drives.

pub mod text;
pub mod events;
pub mod annotation;
pub mod annotation_context;
pub mod markdown;
pub mod editor;
pub mod codex;
pub mod storage;
pub mod app_state;
pub mod messages;
pub mod app_error;
pub mod app;
pub mod screen;
pub mod cli;
pub mod terminal;
