use vstd::prelude::*;

use crate::pci_device::SysfsWrite;
use crate::text::{chars_eq_str, trim_chars};

verus! {

/// ACPI node that power-gates the internal dgpu at firmware level. After a
/// write of `1` the device disappears from PCI; `0` restores it, and a
/// rescan is then required.
pub const ASUS_DGPU_DISABLE_PATH: &'static str =
    "/sys/devices/platform/asus-nb-wmi/dgpu_disable";

/// ACPI node that enables the ASUS eGPU dock; it also toggles the internal
/// dgpu through the same ACPI path.
pub const ASUS_EGPU_ENABLE_PATH: &'static str =
    "/sys/devices/platform/asus-nb-wmi/egpu_enable";

/// ACPI node for the hardware MUX that routes the internal panel. A change
/// only takes effect after reboot.
pub const ASUS_GPU_MUX_PATH: &'static str = "/sys/devices/platform/asus-nb-wmi/gpu_mux_mode";

/// Where the hardware MUX routes the internal panel.
#[derive(Debug, Clone, Copy, PartialEq, Eq, Structural)]
pub enum AsusGpuMuxMode {
    /// The panel is wired to the dgpu
    Discreet,
    /// The panel is wired to the igpu
    Optimus,
}

/// What a `gpu_mux_mode` read means: `0` is the dgpu side, anything else
/// the igpu side.
pub open spec fn spec_parse_mux(s: Seq<char>) -> AsusGpuMuxMode {
    if crate::text::spec_trim(s) == "0"@ {
        AsusGpuMuxMode::Discreet
    } else {
        AsusGpuMuxMode::Optimus
    }
}

impl AsusGpuMuxMode {
    pub fn from_name(s: &str) -> (r: Self)
        ensures
            r == spec_parse_mux(s@),
    {
        let t = trim_chars(s);
        if chars_eq_str(&t, "0") {
            AsusGpuMuxMode::Discreet
        } else {
            AsusGpuMuxMode::Optimus
        }
    }
}

/// What the shell observed of the three ASUS ACPI nodes: whether each node
/// exists and, when it was read cleanly, what it held.
#[derive(Debug, Clone, Copy, PartialEq, Eq, Structural)]
pub struct AsusGfxState {
    /// The `dgpu_disable` node exists
    pub dgpu_disable_exists: bool,
    /// The node was read cleanly and holds `1`
    pub dgpu_disabled: bool,
    /// The `egpu_enable` node exists
    pub egpu_enable_exists: bool,
    /// The node was read cleanly and holds `1`
    pub egpu_enabled: bool,
    /// The `gpu_mux_mode` node exists
    pub gpu_mux_exists: bool,
    /// The node was read cleanly and holds the dgpu side
    pub gpu_mux_discreet: bool,
}

impl AsusGfxState {
    /// A machine with none of the ASUS nodes.
    pub fn absent() -> (r: Self)
        ensures
            !r.dgpu_disable_exists,
            !r.dgpu_disabled,
            !r.egpu_enable_exists,
            !r.egpu_enabled,
            !r.gpu_mux_exists,
            !r.gpu_mux_discreet,
    {
        AsusGfxState {
            dgpu_disable_exists: false,
            dgpu_disabled: false,
            egpu_enable_exists: false,
            egpu_enabled: false,
            gpu_mux_exists: false,
            gpu_mux_discreet: false,
        }
    }
}

/// The write that sets the ACPI dgpu power gate.
pub fn asus_dgpu_set_disabled(disabled: bool) -> (r: SysfsWrite)
    ensures
        r.path@ == ASUS_DGPU_DISABLE_PATH@,
        r.data@ == (if disabled { "1"@ } else { "0"@ }),
{
    SysfsWrite {
        path: ASUS_DGPU_DISABLE_PATH.to_owned(),
        data: (if disabled { "1" } else { "0" }).to_owned(),
    }
}

/// The write that turns the eGPU dock on or off.
pub fn asus_egpu_set_enabled(enabled: bool) -> (r: SysfsWrite)
    ensures
        r.path@ == ASUS_EGPU_ENABLE_PATH@,
        r.data@ == (if enabled { "1"@ } else { "0"@ }),
{
    SysfsWrite {
        path: ASUS_EGPU_ENABLE_PATH.to_owned(),
        data: (if enabled { "1" } else { "0" }).to_owned(),
    }
}

/// The write that routes the MUX: `1` for the igpu side, `0` for the dgpu.
pub fn asus_gpu_mux_set_igpu(igpu: bool) -> (r: SysfsWrite)
    ensures
        r.path@ == ASUS_GPU_MUX_PATH@,
        r.data@ == (if igpu { "1"@ } else { "0"@ }),
{
    SysfsWrite {
        path: ASUS_GPU_MUX_PATH.to_owned(),
        data: (if igpu { "1" } else { "0" }).to_owned(),
    }
}

} // verus!
