//! Tray-side controller logic for the PLC Logger agent: discovering the
//! running agent through its lock file, rendering its live status report,
//! choosing the privileged service-control commands, and the tray menu and
//! window state machines.

pub mod lockfile;
pub mod menu;
pub mod paths;
pub mod service;
pub mod status;
pub mod text;
pub mod window;
