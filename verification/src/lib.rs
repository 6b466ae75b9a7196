//! Relay engine that carries the posts of one watched account into a chat
//! channel and maps chat replies back to the post they answer.

pub mod correlate;
pub mod decimal;
pub mod dispatch;
pub mod format;
pub mod model;
pub mod relay;
pub mod supervisor;
pub mod text;
