//! The browser's own window: its layout, its address field and its chrome.
pub mod address;
pub mod address_laws;
pub mod assistant;
pub mod assistant_laws;
pub mod audit_text;
pub mod chrome;
pub mod chrome_state;
pub mod connection;
pub mod html;
pub mod layout;
pub mod layout_laws;
pub mod parts;
pub mod promises;
pub mod shortcuts;
pub mod shown_laws;
pub mod startup;
pub mod window;
