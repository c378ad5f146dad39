//! The command line: what it asks the running browser, and what it shows.
pub mod answers;
pub mod commands;
pub mod compact;
pub mod doctor;
pub mod handoff_lines;
pub mod lines;
pub mod options;
pub mod page_lines;
pub mod promises;
pub mod rows;
pub mod steps;
pub mod telling_laws;
