//! Drives the lights of HyperX microphones over USB: color parsing, the packets of the
//! lighting protocol, the persisted configuration, the loops that keep the lights lit, and the
//! launchd agent that runs them at login.

pub mod color;
pub mod config;
pub mod daemon;
pub mod device;
pub mod drive;
pub mod launchd;
pub mod packet;
pub mod paths;
pub mod solid;
pub mod tasks;
pub mod text;
pub mod work;
