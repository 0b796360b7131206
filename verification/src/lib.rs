//! Startup logic of a desktop application shell: the fixed plugin
//! registration plan, the one-shot setup step around the main window,
//! the launch decision, and the severity filter of the logging capability.

pub mod bootstrap;
pub mod logging;
pub mod plugins;
