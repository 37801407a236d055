//! Decision logic of a desktop dictation daemon, its on-screen display and its
//! actions window.

pub mod actions;
pub mod archive;
pub mod capture;
pub mod config;
pub mod daemon;
pub mod desktop;
pub mod gallery;
pub mod hud;
pub mod ipc;
pub mod json;
pub mod text;
