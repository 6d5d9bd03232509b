//! Search open window titles and pick one to raise, focus or close.
//!
//! The library holds the logic: title matching (substring, wildcard and
//! regular expression), window type labels, colour handling, the layout of a
//! list entry and the decisions of the interactive prompt.

pub mod text;
pub mod config;
pub mod display;
pub mod windows_api;
pub mod search;
pub mod prompt;
pub mod listing;
