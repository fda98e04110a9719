//! Bauer Browser core: the verified logic of a small, controlled browser.

pub mod text;
pub mod filter;
pub mod clock;
pub mod history;
pub mod bookmarks;
pub mod mode;
pub mod agent;
pub mod logger;
pub mod layout;
pub mod resource;
pub mod config;
pub mod tabs;
pub mod scripts;
pub mod urls;
pub mod browser;

