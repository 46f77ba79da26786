//! Input, desktop and power-management logic behind the native module of a
//! desktop shell: turning raw keyboard and mouse input into events,
//! tracking keyboard modifiers, locating the desktop's worker windows, and
//! deciding how to answer the system's shutdown queries.
#![allow(non_snake_case)]

pub mod desktop;
pub mod event;
pub mod flags;
pub mod interactive;
pub mod keys;
pub mod power;
pub mod version;
pub mod wide;
pub mod win32_desktop;
