//! Verified core of the OpenLogi mouse and keyboard companion: gesture tuning,
//! per-device configuration, settings commits, service registration rules,
//! pointer-action admission, control capture and the per-user directory
//! layout.
#![allow(unused_imports)]

pub mod tuning;
pub mod binding;
pub mod keys;
pub mod device;
pub mod table;
pub mod config;
pub mod text;
pub mod settings;
pub mod pointer;
pub mod paths;
pub mod registration;
pub mod swipe;
pub mod capture;
pub mod slider;
pub mod installation;
pub mod scroll_phase;
pub mod shortcut;
pub mod keyboard;
