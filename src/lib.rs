//! Supervision core of a daemon that runs the OpenRGB server as a child
//! process and turns OS signals into exit or reload decisions.

pub mod cancel;
pub mod session;
pub mod decimal;
pub mod notify;
pub mod config;
pub mod cli;
