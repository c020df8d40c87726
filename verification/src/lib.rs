//! Model of a small desktop application shell: a persisted user
//! configuration with a light/dark/system theme preference, a sidebar
//! navigation model, and a synchronous reducer that dispatches UI messages.

pub mod app;
pub mod config;
pub mod contexts;
pub mod nav;
pub mod pages;
pub mod theme;
