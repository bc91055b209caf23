//! Verified core of a bridge that lets an external control client drive and
//! observe the embedded web content of a desktop application.

pub mod clock;
pub mod config;
pub mod discovery;
pub mod dispatch;
pub mod executor;
pub mod json;
pub mod monitor;
pub mod protocol;
pub mod script;
pub mod screenshot;
pub mod script_registry;
pub mod text;
pub mod windows;
