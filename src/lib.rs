//! Raw keyboard and mouse input turned into USB HID gadget reports.

pub mod hid;
pub mod keyboard;
pub mod keymap;
pub mod mouse;
pub mod passthrough;
