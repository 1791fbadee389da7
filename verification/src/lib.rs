//! Verified core of the XeroLinux toolkit.

pub mod config;
pub mod text;
pub mod command;
pub mod task_runner;
pub mod aur;
pub mod system_check;
pub mod ordering;
pub mod kernels;
pub mod scx;
pub mod gamescope;
pub mod package;
pub mod selection;
pub mod recipes;
pub mod daemon;
pub mod autostart;
pub mod download;
pub mod navigation;
pub mod pkexec;
pub mod terminal;
pub mod drivers;
pub mod servicing;
pub mod resources;
