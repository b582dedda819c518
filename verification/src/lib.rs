//! Decisions of an agent-friendly ADB control tool, with device sessions.

pub mod adb;
pub mod app;
pub mod app_commands;
pub mod commands;
pub mod devices;
pub mod dispatch;
pub mod dump;
pub mod flow_laws;
pub mod imaging;
pub mod laws;
pub mod preview;
pub mod recover;
pub mod response;
pub mod session;
pub mod session_commands;
pub mod shot;
pub mod steps;
pub mod text;
pub mod ui;
pub mod ui_commands;
