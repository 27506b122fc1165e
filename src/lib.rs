//! Transaction callback orchestration and package classification for a
//! pacman-style package manager front end.
pub mod bar;
pub mod callbacks;
pub mod commands;
pub mod config;
pub mod files;
pub mod package;
pub mod text;
pub mod utils;
