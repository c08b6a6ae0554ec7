//! Verified core of a terminal dashboard that lists the git projects under a
//! master directory: colour themes and styled text, the list and key-handling
//! state machine, the summary of a repository's status, and the text of the
//! detail panel.
pub mod style;
pub mod text;
pub mod theme;
pub mod project;
pub mod github;
pub mod app;
pub mod ui;
