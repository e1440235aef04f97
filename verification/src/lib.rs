//! Follows the logs of many pods at once: selects the pods, gives each a
//! colour, classifies every line, and says what to write to the terminal.

pub mod browser;
pub mod classify;
pub mod error;
pub mod fanout;
pub mod logs;
pub mod options;
pub mod palette;
pub mod pattern;
pub mod render;
pub mod select;
pub mod tailer;
pub mod text;
