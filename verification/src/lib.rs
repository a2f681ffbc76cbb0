//! A portable LazyVim launcher: the decisions it makes about the command line,
//! the portable home directory, where Neovim is found, how it is started and
//! how the health report reads, stated and proved.

pub mod platform;
pub mod paths;
pub mod text;
pub mod cli;
pub mod plan;
pub mod home;
pub mod runtime;
pub mod launch;
pub mod doctor;
pub mod install;
