//! Verified core of the Hyperspell desktop client: the paths, consent
//! table logic, command plans and state machines that the menu-bar shell
//! drives. Everything that touches the disk, spawns processes or talks to
//! the window system lives outside this crate and hands plain values in.

pub mod actions_log;
pub mod auth;
pub mod bootstrap;
pub mod command;
pub mod config;
pub mod daemon_paths;
pub mod ipc;
pub mod permissions;
pub mod shell_path;
pub mod supervisor;
pub mod text;
pub mod toml_table;
pub mod uninstall;
