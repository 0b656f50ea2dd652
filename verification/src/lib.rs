use vstd::prelude::*;

pub mod actions;
pub mod config;
pub mod controller;
pub mod error;
pub mod pci_device;
pub mod special_asus;
pub mod text;

verus! {

/// The daemon version clients see.
pub const VERSION: &'static str = "5.2.0";

/// The modprobe configuration the engine owns, written fresh each transition.
pub const MODPROBE_PATH: &'static str = "/etc/modprobe.d/supergfxd.conf";

/// The service unit the engine stops and restarts around a switch.
pub const DISPLAY_MANAGER: &'static str = "display-manager.service";

} // verus!
