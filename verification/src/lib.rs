//! Control plane of the Telescope browser.
pub mod action;
pub mod action_laws;
pub mod audit;
pub mod bookmark;
pub mod cli;
pub mod command;
pub mod control;
pub mod credential;
pub mod desktop;
pub mod draw;
pub mod error;
pub mod handoff;
pub mod json;
pub mod keyed;
pub mod lists;
pub mod model;
pub mod origin;
pub mod page;
pub mod pane;
pub mod runtime;
pub mod server;
pub mod session;
pub mod tab;
pub mod text;
pub mod vault;
