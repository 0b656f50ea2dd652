use vstd::prelude::*;

use crate::error::GfxError;
use crate::special_asus::AsusGfxState;
use crate::text::{
    chars_eq_str, concat_str, lemma_trim_end_by_subrange, normalize_chars, spec_contains_str,
    spec_lower, spec_starts_with, spec_trim, spec_trim_end_by, str_contains, str_eq,
    str_starts_with, trim_chars,
};

verus! {

/// How the daemon removes or restores the dgpu when leaving or entering a
/// mode that hides it from the PCI bus.
#[derive(Debug, Clone, Copy, PartialEq, Eq, Structural)]
pub enum HotplugType {
    /// Use only kernel level hotplug feature
    Std,
    /// Use ASUS dgpu_disable
    Asus,
    /// Do not use hotplugging
    NoHotplug,
}

#[derive(Debug, Clone, Copy, PartialEq, Eq, Structural)]
pub enum HotplugState {
    On,
    Off,
}

impl HotplugState {
    /// The byte written to the slot power sysfs node for this state.
    pub fn as_str(self) -> (r: &'static str)
        ensures
            self is On ==> r@ == "1"@,
            self is Off ==> r@ == "0"@,
    {
        match self {
            HotplugState::On => "1",
            HotplugState::Off => "0",
        }
    }
}

/// Power state of the dgpu as reported by sysfs, with ASUS overrides for the
/// states sysfs cannot see.
#[derive(Debug, Clone, Copy, PartialEq, Eq, Structural)]
pub enum GfxPower {
    Active,
    Suspended,
    Off,
    AsusDisabled,
    AsusMuxDiscreet,
    Unknown,
}

impl GfxPower {
    pub fn as_str(self) -> (r: &'static str)
        ensures
            self is Active ==> r@ == "active"@,
            self is Suspended ==> r@ == "suspended"@,
            self is Off ==> r@ == "off"@,
            self is AsusDisabled ==> r@ == "dgpu_disabled"@,
            self is AsusMuxDiscreet ==> r@ == "asus_mux_discreet"@,
            self is Unknown ==> r@ == "unknown"@,
    {
        match self {
            GfxPower::Active => "active",
            GfxPower::Suspended => "suspended",
            GfxPower::Off => "off",
            GfxPower::AsusDisabled => "dgpu_disabled",
            GfxPower::AsusMuxDiscreet => "asus_mux_discreet",
            GfxPower::Unknown => "unknown",
        }
    }
}

impl Default for GfxPower {
    fn default() -> (r: Self)
        ensures
            r is Unknown,
    {
        GfxPower::Unknown
    }
}

/// What a `power/runtime_status` read means, after lower-casing and trimming.
pub open spec fn spec_parse_power(s: Seq<char>) -> GfxPower {
    let t = spec_trim(spec_lower(s));
    if t == "active"@ {
        GfxPower::Active
    } else if t == "suspended"@ {
        GfxPower::Suspended
    } else if t == "off"@ {
        GfxPower::Off
    } else if t == "dgpu_disabled"@ {
        GfxPower::AsusDisabled
    } else if t == "asus_mux_discreet"@ {
        GfxPower::AsusMuxDiscreet
    } else {
        GfxPower::Unknown
    }
}

impl GfxPower {
    /// Parse a `power/runtime_status` value; anything unrecognised is Unknown.
    pub fn from_name(s: &str) -> (r: Self)
        ensures
            r == spec_parse_power(s@),
    {
        let t = normalize_chars(s);
        if chars_eq_str(&t, "active") {
            GfxPower::Active
        } else if chars_eq_str(&t, "suspended") {
            GfxPower::Suspended
        } else if chars_eq_str(&t, "off") {
            GfxPower::Off
        } else if chars_eq_str(&t, "dgpu_disabled") {
            GfxPower::AsusDisabled
        } else if chars_eq_str(&t, "asus_mux_discreet") {
            GfxPower::AsusMuxDiscreet
        } else {
            GfxPower::Unknown
        }
    }
}

/// What a slot power read means: only `1` counts as on.
pub open spec fn spec_parse_hotplug(s: Seq<char>) -> HotplugState {
    if spec_trim(spec_lower(s)) == "1"@ {
        HotplugState::On
    } else {
        HotplugState::Off
    }
}

impl HotplugState {
    pub fn from_name(s: &str) -> (r: Self)
        ensures
            r == spec_parse_hotplug(s@),
    {
        let t = normalize_chars(s);
        if chars_eq_str(&t, "1") {
            HotplugState::On
        } else {
            HotplugState::Off
        }
    }
}

#[derive(Debug, Clone, Copy, PartialEq, Eq, Structural)]
pub enum GfxVendor {
    Nvidia,
    Amd,
    Intel,
    Unknown,
    AsusDgpuDisabled,
}

/// Which vendor a PCI vendor id denotes.
pub open spec fn spec_vendor_of_id(vendor: u16) -> GfxVendor {
    if vendor == 0x1002 {
        GfxVendor::Amd
    } else if vendor == 0x10DE {
        GfxVendor::Nvidia
    } else if vendor == 0x8086 {
        GfxVendor::Intel
    } else {
        GfxVendor::Unknown
    }
}

impl From<u16> for GfxVendor {
    fn from(vendor: u16) -> (r: Self) {
        match vendor {
            0x1002 => GfxVendor::Amd,
            0x10DE => GfxVendor::Nvidia,
            0x8086 => GfxVendor::Intel,
            _ => GfxVendor::Unknown,
        }
    }
}

impl vstd::std_specs::convert::FromSpecImpl<u16> for GfxVendor {
    open spec fn obeys_from_spec() -> bool {
        true
    }

    open spec fn from_spec(vendor: u16) -> Self {
        spec_vendor_of_id(vendor)
    }
}

impl GfxVendor {
    pub fn as_str(self) -> (r: &'static str)
        ensures
            self is Nvidia ==> r@ == "Nvidia"@,
            self is Amd ==> r@ == "AMD"@,
            self is Intel ==> r@ == "Intel"@,
            self is Unknown ==> r@ == "Unknown"@,
            self is AsusDgpuDisabled ==> r@ == "ASUS dGPU disabled"@,
    {
        match self {
            GfxVendor::Nvidia => "Nvidia",
            GfxVendor::Amd => "AMD",
            GfxVendor::Intel => "Intel",
            GfxVendor::Unknown => "Unknown",
            GfxVendor::AsusDgpuDisabled => "ASUS dGPU disabled",
        }
    }
}

/// All the modes the engine can aim at. Every mode except `NoMode` and
/// `AsusMuxDgpu` assumes the ASUS `gpu_mux_mode` node is absent or set to the
/// igpu side.
#[derive(Debug, Clone, Copy, PartialEq, Eq, Structural)]
pub enum GfxMode {
    Hybrid,
    Integrated,
    /// For hardware running with `nomodeset=0`; allows hot unloading nvidia
    NvidiaNoModeset,
    Vfio,
    /// The ASUS eGPU dock is in use
    AsusEgpu,
    /// The ASUS GPU MUX is set to dgpu mode
    AsusMuxDgpu,
    /// No mode is known or applies
    NoMode,
}

impl GfxMode {
    pub fn as_str(self) -> (r: &'static str)
        ensures
            self is Hybrid ==> r@ == "Hybrid"@,
            self is Integrated ==> r@ == "Integrated"@,
            self is NvidiaNoModeset ==> r@ == "NvidiaNoModeset"@,
            self is Vfio ==> r@ == "Vfio"@,
            self is AsusEgpu ==> r@ == "AsusEgpu"@,
            self is AsusMuxDgpu ==> r@ == "AsusMuxDgpu"@,
            self is NoMode ==> r@ == "Unknown"@,
    {
        match self {
            GfxMode::Hybrid => "Hybrid",
            GfxMode::Integrated => "Integrated",
            GfxMode::NvidiaNoModeset => "NvidiaNoModeset",
            GfxMode::Vfio => "Vfio",
            GfxMode::AsusEgpu => "AsusEgpu",
            GfxMode::AsusMuxDgpu => "AsusMuxDgpu",
            GfxMode::NoMode => "Unknown",
        }
    }
}

impl Default for GfxMode {
    fn default() -> (r: Self)
        ensures
            r is NoMode,
    {
        GfxMode::NoMode
    }
}

/// Which mode a trimmed name denotes, if any.
pub open spec fn spec_parse_mode(s: Seq<char>) -> Option<GfxMode> {
    let t = spec_trim(s);
    if t == "Hybrid"@ {
        Some(GfxMode::Hybrid)
    } else if t == "Integrated"@ {
        Some(GfxMode::Integrated)
    } else if t == "NvidiaNoModeset"@ {
        Some(GfxMode::NvidiaNoModeset)
    } else if t == "Vfio"@ {
        Some(GfxMode::Vfio)
    } else if t == "AsusEgpu"@ {
        Some(GfxMode::AsusEgpu)
    } else if t == "AsusMuxDgpu"@ {
        Some(GfxMode::AsusMuxDgpu)
    } else {
        None
    }
}

impl GfxMode {
    /// Parse a mode name as clients send it; an unknown name is an error.
    pub fn from_name(s: &str) -> (r: Result<Self, GfxError>)
        ensures
            match spec_parse_mode(s@) {
                Some(m) => r matches Ok(got) && got == m,
                None => r matches Err(e) && e is ParseMode,
            },
    {
        let t = trim_chars(s);
        if chars_eq_str(&t, "Hybrid") {
            Ok(GfxMode::Hybrid)
        } else if chars_eq_str(&t, "Integrated") {
            Ok(GfxMode::Integrated)
        } else if chars_eq_str(&t, "NvidiaNoModeset") {
            Ok(GfxMode::NvidiaNoModeset)
        } else if chars_eq_str(&t, "Vfio") {
            Ok(GfxMode::Vfio)
        } else if chars_eq_str(&t, "AsusEgpu") {
            Ok(GfxMode::AsusEgpu)
        } else if chars_eq_str(&t, "AsusMuxDgpu") {
            Ok(GfxMode::AsusMuxDgpu)
        } else {
            Err(GfxError::ParseMode)
        }
    }
}

/// Which vendor a `vendor` sysfs or uevent value denotes.
pub open spec fn spec_vendor_of_str(s: Seq<char>) -> GfxVendor {
    if s == "0x1002"@ || s == "1002"@ {
        GfxVendor::Amd
    } else if s == "0x10DE"@ || s == "10DE"@ {
        GfxVendor::Nvidia
    } else if s == "0x8086"@ || s == "8086"@ {
        GfxVendor::Intel
    } else {
        GfxVendor::Unknown
    }
}

impl GfxVendor {
    /// The vendor for a PCI vendor id written as text, with or without `0x`.
    pub fn from_id_str(s: &str) -> (r: Self)
        ensures
            r == spec_vendor_of_str(s@),
    {
        if str_eq(s, "0x1002") || str_eq(s, "1002") {
            GfxVendor::Amd
        } else if str_eq(s, "0x10DE") || str_eq(s, "10DE") {
            GfxVendor::Nvidia
        } else if str_eq(s, "0x8086") || str_eq(s, "8086") {
            GfxVendor::Intel
        } else {
            GfxVendor::Unknown
        }
    }
}

/// One write the shell must perform against a file the engine owns:
/// truncate `path` and write `data` in full, then sync.
#[derive(Debug, Clone, PartialEq, Eq)]
pub struct SysfsWrite {
    pub path: String,
    pub data: String,
}

impl View for SysfsWrite {
    type V = (Seq<char>, Seq<char>);

    open spec fn view(&self) -> (Seq<char>, Seq<char>) {
        (self.path@, self.data@)
    }
}

/// Writing `1` here makes the kernel rescan the device tree, which adds all
/// removed devices back.
pub fn rescan_pci_bus() -> (r: SysfsWrite)
    ensures
        r.path@ == "/sys/bus/pci/rescan"@,
        r.data@ == "1"@,
{
    SysfsWrite { path: "/sys/bus/pci/rescan".to_owned(), data: "1".to_owned() }
}

/// Whether a model label names a discrete GPU.
pub open spec fn spec_label_is_dgpu(label: Seq<char>) -> bool {
    ||| spec_contains_str(label, "Radeon RX"@)
    ||| spec_contains_str(label, "AMD/ATI"@)
    ||| spec_contains_str(label, "GeForce"@)
    ||| spec_contains_str(label, "Geforce"@)
    ||| spec_contains_str(label, "Quadro"@)
    ||| spec_contains_str(label, "T1200"@)
}

/// Whether a database or lspci model label names a discrete GPU.
pub fn lscpi_dgpu_check(label: &str) -> (r: bool)
    ensures
        r == spec_label_is_dgpu(label@),
{
    if str_contains(label, "Radeon RX") {
        return true;
    }
    if str_contains(label, "AMD/ATI") {
        return true;
    }
    if str_contains(label, "GeForce") {
        return true;
    }
    if str_contains(label, "Geforce") {
        return true;
    }
    if str_contains(label, "Quadro") {
        return true;
    }
    if str_contains(label, "T1200") {
        return true;
    }
    false
}

/// One PCI graphics device and the sysfs handles the engine needs for it.
#[derive(Debug, Clone, PartialEq, Eq)]
pub struct Device {
    /// Concrete path to the device control
    pub dev_path: String,
    /// Concrete path to the slot this device is in, for hotplug support
    pub hotplug_path: Option<String>,
    pub vendor: GfxVendor,
    pub is_dgpu: bool,
    /// System name given by the kernel, e.g. `0000:01:00.0`
    pub name: String,
    /// `vendor:device`, typically used only for VFIO setup
    pub pci_id: String,
    /// The resolved driver directory, present while a driver is bound
    pub driver_path: Option<String>,
}

/// The mathematical shape of a [`Device`].
#[verifier::ext_equal]
pub struct DeviceView {
    pub dev_path: Seq<char>,
    pub hotplug_path: Option<Seq<char>>,
    pub vendor: GfxVendor,
    pub is_dgpu: bool,
    pub name: Seq<char>,
    pub pci_id: Seq<char>,
    pub driver_path: Option<Seq<char>>,
}

impl View for Device {
    type V = DeviceView;

    open spec fn view(&self) -> DeviceView {
        DeviceView {
            dev_path: self.dev_path@,
            hotplug_path: match self.hotplug_path {
                Some(p) => Some(p@),
                None => None,
            },
            vendor: self.vendor,
            is_dgpu: self.is_dgpu,
            name: self.name@,
            pci_id: self.pci_id@,
            driver_path: match self.driver_path {
                Some(p) => Some(p@),
                None => None,
            },
        }
    }
}

impl Device {
    pub fn dev_path(&self) -> (r: &String)
        ensures
            r@ == self.dev_path@,
    {
        &self.dev_path
    }

    pub fn vendor(&self) -> (r: GfxVendor)
        ensures
            r == self.vendor,
    {
        self.vendor
    }

    pub fn is_dgpu(&self) -> (r: bool)
        ensures
            r == self.is_dgpu,
    {
        self.is_dgpu
    }

    pub fn pci_id(&self) -> (r: &str)
        ensures
            r@ == self.pci_id@,
    {
        self.pci_id.as_str()
    }

    /// The write that sets this device's slot power, when the slot has any.
    pub fn set_hotplug(&self, state: HotplugState) -> (r: Option<SysfsWrite>)
        ensures
            match self@.hotplug_path {
                Some(p) => r matches Some(w) && w.path@ == p && w.data@ == (
                    if state is On { "1"@ } else { "0"@ }
                ),
                None => r is None,
            },
    {
        match &self.hotplug_path {
            Some(p) => Some(SysfsWrite { path: p.clone(), data: state.as_str().to_owned() }),
            None => None,
        }
    }

    /// The write that points this device's `power/control` at `state`.
    pub fn set_runtime_pm(&self, state: RuntimePowerManagement) -> (r: SysfsWrite)
        ensures
            r.path@ == self.dev_path@ + "/power/control"@,
            r.data@ == (match state {
                RuntimePowerManagement::Auto => "auto"@,
                RuntimePowerManagement::On => "on"@,
                RuntimePowerManagement::Off => "off"@,
            }),
    {
        SysfsWrite {
            path: concat_str(self.dev_path.as_str(), "/power/control"),
            data: state.as_str().to_owned(),
        }
    }

    /// The power state this device reports, given what the shell read from
    /// its `power/runtime_status` node; an unreadable node means powered off.
    pub fn get_runtime_status(&self, raw: Option<&str>) -> (r: GfxPower)
        ensures
            match raw {
                Some(s) => r == spec_parse_power(s@),
                None => r is Off,
            },
    {
        match raw {
            Some(s) => GfxPower::from_name(s),
            None => GfxPower::Off,
        }
    }

    /// The write that unbinds this device from its driver; nothing to do
    /// when no driver is bound.
    pub fn unbind(&self) -> (r: Option<SysfsWrite>)
        ensures
            match self@.driver_path {
                Some(d) => r matches Some(w) && w.path@ == d + "/unbind"@ && w.data@
                    == self.name@,
                None => r is None,
            },
    {
        match &self.driver_path {
            Some(d) => Some(SysfsWrite {
                path: concat_str(d.as_str(), "/unbind"),
                data: self.name.clone(),
            }),
            None => None,
        }
    }

    /// The write that removes this device from the device tree.
    pub fn remove(&self) -> (r: SysfsWrite)
        ensures
            r.path@ == self.dev_path@ + "/remove"@,
            r.data@ == "1"@,
    {
        SysfsWrite {
            path: concat_str(self.dev_path.as_str(), "/remove"),
            data: "1".to_owned(),
        }
    }
}

/// Whether a device uses runtime power management.
#[derive(Debug, Clone, Copy, PartialEq, Eq, Structural)]
pub enum RuntimePowerManagement {
    Auto,
    On,
    Off,
}

impl RuntimePowerManagement {
    /// The token written to the device's `power/control` sysfs node.
    pub fn as_str(self) -> (r: &'static str)
        ensures
            r@ == spec_pm_token(self),
    {
        match self {
            RuntimePowerManagement::Auto => "auto",
            RuntimePowerManagement::On => "on",
            RuntimePowerManagement::Off => "off",
        }
    }
}

/// The token `power/control` takes for each management state.
pub open spec fn spec_pm_token(pm: RuntimePowerManagement) -> Seq<char> {
    match pm {
        RuntimePowerManagement::Auto => "auto"@,
        RuntimePowerManagement::On => "on"@,
        RuntimePowerManagement::Off => "off"@,
    }
}

/// Loading or removing a kernel module.
#[derive(Debug, Clone, Copy, PartialEq, Eq, Structural)]
pub enum DriverAction {
    Load,
    Remove,
}

/// One module operation the shell must hand to the kernel module loader.
#[derive(Debug, Clone, PartialEq, Eq)]
pub struct DriverOp {
    pub module: String,
    pub action: DriverAction,
}

/// Index of the last device flagged as the dgpu, or -1 when none is.
pub open spec fn spec_last_dgpu(devs: Seq<Device>) -> int
    decreases devs.len(),
{
    if devs.len() == 0 {
        -1
    } else if devs.last().is_dgpu {
        devs.len() - 1
    } else {
        spec_last_dgpu(devs.drop_last())
    }
}

/// Index of the first device flagged as the dgpu, or -1 when none is.
pub open spec fn spec_first_dgpu(devs: Seq<Device>) -> int
    decreases devs.len(),
{
    if devs.len() == 0 {
        -1
    } else if devs[0].is_dgpu {
        0
    } else {
        let rest = spec_first_dgpu(devs.drop_first());
        if rest < 0 {
            -1
        } else {
            rest + 1
        }
    }
}

proof fn lemma_first_dgpu_at(devs: Seq<Device>, i: int)
    requires
        0 <= i <= devs.len(),
        forall|j: int| 0 <= j < i ==> !devs[j].is_dgpu,
        i < devs.len() ==> devs[i].is_dgpu,
    ensures
        spec_first_dgpu(devs) == if i < devs.len() {
            i
        } else {
            -1
        },
    decreases i,
{
    if devs.len() == 0 {
    } else if i == 0 {
    } else {
        assert(!devs[0].is_dgpu);
        lemma_first_dgpu_at(devs.drop_first(), i - 1);
    }
}

proof fn lemma_last_dgpu_step(devs: Seq<Device>, i: int)
    requires
        0 <= i < devs.len(),
    ensures
        spec_last_dgpu(devs.take(i + 1)) == if devs[i].is_dgpu {
            i
        } else {
            spec_last_dgpu(devs.take(i))
        },
{
    assert(devs.take(i + 1).last() == devs[i]);
    assert(devs.take(i + 1).drop_last() =~= devs.take(i));
}

/// The unbind writes for the devices below index `i`, walked back to front.
pub open spec fn spec_unbind_writes_from(devs: Seq<Device>, i: int) -> Seq<(Seq<char>, Seq<char>)>
    decreases i,
{
    if i <= 0 || i > devs.len() {
        Seq::empty()
    } else {
        let rest = spec_unbind_writes_from(devs, i - 1);
        match devs[i - 1]@.driver_path {
            Some(d) => seq![(d + "/unbind"@, devs[i - 1].name@)] + rest,
            None => rest,
        }
    }
}

/// The remove writes for the devices below index `i`, walked back to front.
pub open spec fn spec_remove_writes_from(devs: Seq<Device>, i: int) -> Seq<(Seq<char>, Seq<char>)>
    decreases i,
{
    if i <= 0 || i > devs.len() {
        Seq::empty()
    } else {
        seq![(devs[i - 1].dev_path@ + "/remove"@, "1"@)] + spec_remove_writes_from(devs, i - 1)
    }
}

/// All the unbind writes for a device set: the set walked in reverse.
pub open spec fn spec_unbind_writes(devs: Seq<Device>) -> Seq<(Seq<char>, Seq<char>)> {
    spec_unbind_writes_from(devs, devs.len() as int)
}

/// All the remove writes for a device set: the set walked in reverse.
pub open spec fn spec_remove_writes(devs: Seq<Device>) -> Seq<(Seq<char>, Seq<char>)> {
    spec_remove_writes_from(devs, devs.len() as int)
}

/// Law: when every device is bound to a driver, the unbind writes walk the
/// device set exactly in reverse enumeration order.
pub proof fn lemma_unbind_reverse_order(devs: Seq<Device>, i: int)
    requires
        0 <= i <= devs.len(),
        forall|j: int| 0 <= j < devs.len() ==> devs[j]@.driver_path is Some,
    ensures
        spec_unbind_writes_from(devs, i).len() == i,
        forall|k: int|
            0 <= k < i ==> #[trigger] spec_unbind_writes_from(devs, i)[k] == (
                devs[i - 1 - k]@.driver_path->0 + "/unbind"@,
                devs[i - 1 - k].name@,
            ),
    decreases i,
{
    if i > 0 {
        lemma_unbind_reverse_order(devs, i - 1);
    }
}

/// Law: the remove writes walk the device set exactly in reverse
/// enumeration order.
pub proof fn lemma_remove_reverse_order(devs: Seq<Device>, i: int)
    requires
        0 <= i <= devs.len(),
    ensures
        spec_remove_writes_from(devs, i).len() == i,
        forall|k: int|
            0 <= k < i ==> #[trigger] spec_remove_writes_from(devs, i)[k] == (
                devs[i - 1 - k].dev_path@ + "/remove"@,
                "1"@,
            ),
    decreases i,
{
    if i > 0 {
        lemma_remove_reverse_order(devs, i - 1);
    }
}

/// Collection of all graphics devices under the dgpu's bridge. The write
/// plans the methods hand out work on the discrete GPU and its functions.
#[derive(Debug, Clone)]
pub struct DiscreetGpu {
    pub vendor: GfxVendor,
    pub dgpu_index: usize,
    pub devices: Vec<Device>,
}

impl DiscreetGpu {
    /// The tracked dgpu index stays inside the device list.
    pub open spec fn wf(&self) -> bool {
        self.devices@.len() > 0 ==> self.dgpu_index < self.devices@.len()
    }

    /// Build the registry from the enumerated devices. When enumeration
    /// found nothing, the ASUS ACPI state decides what to report: an ACPI
    /// disabled dgpu, a MUX wired to an invisible dgpu, or nothing at all.
    pub fn new(devices: Vec<Device>, asus: &AsusGfxState) -> (r: Self)
        ensures
            r.wf(),
            r.devices@ == devices@,
            devices@.len() == 0 ==> r.dgpu_index == 0 && r.vendor == (
                if asus.dgpu_disable_exists && asus.dgpu_disabled {
                    GfxVendor::AsusDgpuDisabled
                } else if asus.gpu_mux_exists && asus.gpu_mux_discreet {
                    GfxVendor::Nvidia
                } else {
                    GfxVendor::Unknown
                }
            ),
            devices@.len() > 0 ==> ({
                let k = spec_last_dgpu(devices@);
                if k >= 0 {
                    r.dgpu_index == k && r.vendor == devices@[k].vendor
                } else {
                    r.dgpu_index == 0 && r.vendor is Unknown
                }
            }),
    {
        if devices.len() == 0 {
            let vendor = if asus.dgpu_disable_exists && asus.dgpu_disabled {
                GfxVendor::AsusDgpuDisabled
            } else if asus.gpu_mux_exists && asus.gpu_mux_discreet {
                GfxVendor::Nvidia
            } else {
                GfxVendor::Unknown
            };
            DiscreetGpu { vendor, dgpu_index: 0, devices }
        } else {
            let mut vendor = GfxVendor::Unknown;
            let mut dgpu_index: usize = 0;
            let mut idx: usize = 0;
            while idx < devices.len()
                invariant
                    idx <= devices@.len(),
                    dgpu_index < devices@.len() || dgpu_index == 0,
                    ({
                        let k = spec_last_dgpu(devices@.take(idx as int));
                        if k >= 0 {
                            dgpu_index == k && vendor == devices@[k].vendor
                        } else {
                            dgpu_index == 0 && vendor is Unknown
                        }
                    }),
                decreases devices@.len() - idx,
            {
                proof {
                    lemma_last_dgpu_step(devices@, idx as int);
                }
                if devices[idx].is_dgpu {
                    dgpu_index = idx;
                    vendor = devices[idx].vendor;
                }
                idx += 1;
            }
            proof {
                assert(devices@.take(devices@.len() as int) =~= devices@);
            }
            DiscreetGpu { vendor, dgpu_index, devices }
        }
    }

    pub fn vendor(&self) -> (r: GfxVendor)
        ensures
            r == self.vendor,
    {
        self.vendor
    }

    pub fn devices(&self) -> (r: &[Device])
        ensures
            r@ == self.devices@,
    {
        self.devices.as_slice()
    }

    pub fn is_nvidia(&self) -> (r: bool)
        ensures
            r == (self.vendor is Nvidia),
    {
        self.vendor == GfxVendor::Nvidia
    }

    pub fn is_amd(&self) -> (r: bool)
        ensures
            r == (self.vendor is Amd),
    {
        self.vendor == GfxVendor::Amd
    }

    pub fn is_intel(&self) -> (r: bool)
        ensures
            r == (self.vendor is Intel),
    {
        self.vendor == GfxVendor::Intel
    }

    /// Whether the registry must be rebuilt by a fresh enumeration rather
    /// than a plain bus rescan: true when no tracked device is the dgpu.
    pub fn needs_rediscovery(&self) -> (r: bool)
        ensures
            r == (spec_first_dgpu(self.devices@) < 0),
    {
        let mut i: usize = 0;
        while i < self.devices.len()
            invariant
                i <= self.devices@.len(),
                forall|j: int| 0 <= j < i ==> !self.devices@[j].is_dgpu,
            decreases self.devices@.len() - i,
        {
            if self.devices[i].is_dgpu {
                proof {
                    lemma_first_dgpu_at(self.devices@, i as int);
                }
                return false;
            }
            i += 1;
        }
        proof {
            lemma_first_dgpu_at(self.devices@, self.devices@.len() as int);
        }
        true
    }

    /// The dgpu's power state. `dgpu_read` is what the shell read from the
    /// dgpu's `power/runtime_status` node, when it could. With no devices
    /// tracked the ASUS ACPI state may still explain where the dgpu went.
    pub fn get_runtime_status(&self, asus: &AsusGfxState, dgpu_read: Option<&str>) -> (r: Result<
        GfxPower,
        GfxError,
    >)
        ensures
            self.devices@.len() > 0 ==> (if self.vendor is AsusDgpuDisabled {
                r matches Ok(p) && p is AsusDisabled
            } else if !(self.vendor is Unknown) {
                match dgpu_read {
                    Some(s) => r matches Ok(p) && p == spec_parse_power(s@),
                    None => r matches Ok(p) && p is Off,
                }
            } else {
                r matches Err(e) && e is NotSupported
            }),
            self.devices@.len() == 0 ==> (if asus.dgpu_disable_exists && asus.dgpu_disabled {
                r matches Ok(p) && p is AsusDisabled
            } else if !asus.dgpu_disable_exists && asus.gpu_mux_exists && asus.gpu_mux_discreet {
                r matches Ok(p) && p is AsusMuxDiscreet
            } else {
                r matches Err(e) && e is NotSupported
            }),
    {
        if self.devices.len() > 0 {
            if self.vendor == GfxVendor::AsusDgpuDisabled {
                return Ok(GfxPower::AsusDisabled);
            }
            if self.vendor != GfxVendor::Unknown {
                return Ok(match dgpu_read {
                    Some(s) => GfxPower::from_name(s),
                    None => GfxPower::Off,
                });
            }
        } else if self.devices.len() == 0 && asus.dgpu_disable_exists {
            if asus.dgpu_disabled {
                return Ok(GfxPower::AsusDisabled);
            }
        } else if asus.gpu_mux_exists {
            if asus.gpu_mux_discreet {
                return Ok(GfxPower::AsusMuxDiscreet);
            }
        }
        Err(GfxError::NotSupported("get_runtime_status: Could not find dGPU".to_owned()))
    }

    /// The writes that point every tracked device's `power/control` at `pm`.
    /// An empty or ACPI-disabled registry has nothing to write; a registry
    /// with devices but no known vendor cannot be managed.
    pub fn set_runtime_pm(&self, pm: RuntimePowerManagement) -> (r: Result<
        Vec<SysfsWrite>,
        GfxError,
    >)
        ensures
            self.devices@.len() == 0 ==> (r matches Ok(v) && v@.len() == 0),
            self.devices@.len() > 0 && !(self.vendor is Unknown) && !(self.vendor
                is AsusDgpuDisabled) ==> (r matches Ok(v) && v@.len() == self.devices@.len()
                && forall|i: int|
                0 <= i < v@.len() ==> (#[trigger] v@[i]).path@ == self.devices@[i].dev_path@
                    + "/power/control"@ && v@[i].data@ == spec_pm_token(pm)),
            self.devices@.len() > 0 && self.vendor is AsusDgpuDisabled ==> (r matches Ok(v)
                && v@.len() == 0),
            self.devices@.len() > 0 && self.vendor is Unknown ==> (r matches Err(e) && e
                is NotSupported),
    {
        if self.devices.len() == 0 {
            return Ok(Vec::new());
        }
        if self.vendor != GfxVendor::Unknown && self.vendor != GfxVendor::AsusDgpuDisabled {
            let mut out: Vec<SysfsWrite> = Vec::new();
            let mut i: usize = 0;
            while i < self.devices.len()
                invariant
                    i <= self.devices@.len(),
                    out@.len() == i,
                    forall|j: int|
                        0 <= j < i ==> (#[trigger] out@[j]).path@ == self.devices@[j].dev_path@
                            + "/power/control"@ && out@[j].data@ == spec_pm_token(pm),
                decreases self.devices@.len() - i,
            {
                out.push(self.devices[i].set_runtime_pm(pm));
                i += 1;
            }
            return Ok(out);
        }
        if self.vendor == GfxVendor::AsusDgpuDisabled {
            return Ok(Vec::new());
        }
        Err(GfxError::NotSupported("set_runtime_pm: Could not find dGPU".to_owned()))
    }

    /// The write that sets the dgpu's slot power, when a dgpu is tracked
    /// and its slot supports hotplug.
    pub fn set_hotplug(&self, state: HotplugState) -> (r: Option<SysfsWrite>)
        ensures
            ({
                let k = spec_first_dgpu(self.devices@);
                if k < 0 {
                    r is None
                } else {
                    match self.devices@[k]@.hotplug_path {
                        Some(p) => r matches Some(w) && w.path@ == p && w.data@ == (
                            if state is On { "1"@ } else { "0"@ }
                        ),
                        None => r is None,
                    }
                }
            }),
    {
        let mut i: usize = 0;
        while i < self.devices.len()
            invariant
                i <= self.devices@.len(),
                forall|j: int| 0 <= j < i ==> !self.devices@[j].is_dgpu,
            decreases self.devices@.len() - i,
        {
            if self.devices[i].is_dgpu {
                proof {
                    lemma_first_dgpu_at(self.devices@, i as int);
                }
                return self.devices[i].set_hotplug(state);
            }
            i += 1;
        }
        proof {
            lemma_first_dgpu_at(self.devices@, self.devices@.len() as int);
        }
        None
    }

    /// The writes that unbind every tracked device from its driver, walking
    /// the set in reverse; devices with no driver bound are left alone.
    pub fn unbind(&self) -> (r: Result<Vec<SysfsWrite>, GfxError>)
        ensures
            !(self.vendor is Unknown) ==> (r matches Ok(v) && v@.map_values(|w: SysfsWrite| w@)
                =~= spec_unbind_writes(self.devices@)),
            self.vendor is Unknown ==> (r matches Err(e) && e is NotSupported),
    {
        if self.vendor != GfxVendor::Unknown {
            let mut out: Vec<SysfsWrite> = Vec::new();
            let mut k: usize = self.devices.len();
            while k > 0
                invariant
                    k <= self.devices@.len(),
                    out@.map_values(|w: SysfsWrite| w@) + spec_unbind_writes_from(
                        self.devices@,
                        k as int,
                    ) =~= spec_unbind_writes(self.devices@),
                decreases k,
            {
                let ghost prev = out@;
                match self.devices[k - 1].unbind() {
                    Some(w) => {
                        out.push(w);
                        proof {
                            assert(out@.map_values(|w: SysfsWrite| w@) =~= prev.map_values(
                                |w: SysfsWrite| w@,
                            ).push(out@.last()@));
                        }
                    }
                    None => {}
                }
                k -= 1;
                proof {
                    assert(out@.map_values(|w: SysfsWrite| w@) + spec_unbind_writes_from(
                        self.devices@,
                        k as int,
                    ) =~= spec_unbind_writes(self.devices@));
                }
            }
            return Ok(out);
        }
        Err(GfxError::NotSupported("unbind: Could not find dGPU".to_owned()))
    }

    /// The writes that remove every tracked device from the device tree,
    /// walking the set in reverse.
    pub fn remove(&self) -> (r: Result<Vec<SysfsWrite>, GfxError>)
        ensures
            !(self.vendor is Unknown) ==> (r matches Ok(v) && v@.map_values(|w: SysfsWrite| w@)
                =~= spec_remove_writes(self.devices@)),
            self.vendor is Unknown ==> (r matches Err(e) && e is NotSupported),
    {
        if self.vendor != GfxVendor::Unknown {
            let mut out: Vec<SysfsWrite> = Vec::new();
            let mut k: usize = self.devices.len();
            while k > 0
                invariant
                    k <= self.devices@.len(),
                    out@.map_values(|w: SysfsWrite| w@) + spec_remove_writes_from(
                        self.devices@,
                        k as int,
                    ) =~= spec_remove_writes(self.devices@),
                decreases k,
            {
                let ghost prev = out@;
                let w = self.devices[k - 1].remove();
                out.push(w);
                proof {
                    assert(out@.map_values(|w: SysfsWrite| w@) =~= prev.map_values(
                        |w: SysfsWrite| w@,
                    ).push(out@.last()@));
                }
                k -= 1;
                proof {
                    assert(out@.map_values(|w: SysfsWrite| w@) + spec_remove_writes_from(
                        self.devices@,
                        k as int,
                    ) =~= spec_remove_writes(self.devices@));
                }
            }
            return Ok(out);
        }
        Err(GfxError::NotSupported("remove: Could not find dGPU".to_owned()))
    }

    /// The unbind writes followed by the remove writes: every device is
    /// first released by its driver and then taken out of the tree, both in
    /// reverse enumeration order.
    pub fn unbind_remove(&self) -> (r: Result<Vec<SysfsWrite>, GfxError>)
        ensures
            !(self.vendor is Unknown) ==> (r matches Ok(v) && v@.map_values(|w: SysfsWrite| w@)
                =~= spec_unbind_writes(self.devices@) + spec_remove_writes(self.devices@)),
            self.vendor is Unknown ==> (r matches Err(e) && e is NotSupported),
    {
        let mut first = match self.unbind() {
            Ok(v) => v,
            Err(e) => {
                return Err(e);
            }
        };
        let ghost ub = first@;
        match self.remove() {
            Ok(mut rest) => {
                let ghost rm = rest@;
                first.append(&mut rest);
                proof {
                    assert(first@.map_values(|w: SysfsWrite| w@) =~= ub.map_values(
                        |w: SysfsWrite| w@,
                    ) + rm.map_values(|w: SysfsWrite| w@));
                }
                Ok(first)
            }
            Err(e) => Err(e),
        }
    }

    /// The module operations for the dgpu's driver set. The Nvidia set is a
    /// fixed ordered list, loaded in that order and removed in reverse; any
    /// other vendor's driver is left to the kernel, so there is nothing to do.
    pub fn do_driver_action(&self, action: DriverAction) -> (r: Vec<DriverOp>)
        ensures
            self.vendor is Nvidia ==> {
                &&& r@.len() == 4
                &&& forall|i: int| 0 <= i < 4 ==> (#[trigger] r@[i]).action == action
                &&& (action is Load ==> r@[0].module@ == "nvidia_drm"@ && r@[1].module@
                    == "nvidia_modeset"@ && r@[2].module@ == "nvidia_uvm"@ && r@[3].module@
                    == "nvidia"@)
                &&& (action is Remove ==> r@[0].module@ == "nvidia"@ && r@[1].module@
                    == "nvidia_uvm"@ && r@[2].module@ == "nvidia_modeset"@ && r@[3].module@
                    == "nvidia_drm"@)
            },
            !(self.vendor is Nvidia) ==> r@.len() == 0,
    {
        if self.vendor == GfxVendor::Nvidia {
            match action {
                DriverAction::Load => vec![
                    DriverOp { module: "nvidia_drm".to_owned(), action },
                    DriverOp { module: "nvidia_modeset".to_owned(), action },
                    DriverOp { module: "nvidia_uvm".to_owned(), action },
                    DriverOp { module: "nvidia".to_owned(), action },
                ],
                DriverAction::Remove => vec![
                    DriverOp { module: "nvidia".to_owned(), action },
                    DriverOp { module: "nvidia_uvm".to_owned(), action },
                    DriverOp { module: "nvidia_modeset".to_owned(), action },
                    DriverOp { module: "nvidia_drm".to_owned(), action },
                ],
            }
        } else {
            Vec::new()
        }
    }

    /// The uevent write that tells apps the dgpu is about to detach.
    /// `card_dir` is the drm card directory the shell resolved for the
    /// dgpu; with no dgpu tracked there is nothing to send.
    pub fn send_detach_event(&self, card_dir: &str) -> (r: Option<SysfsWrite>)
        ensures
            spec_first_dgpu(self.devices@) >= 0 ==> (r matches Some(w) && w.path@ == card_dir@
                + "/uevent"@ && w.data@ == "remove"@),
            spec_first_dgpu(self.devices@) < 0 ==> r is None,
    {
        if self.needs_rediscovery() {
            None
        } else {
            Some(SysfsWrite { path: concat_str(card_dir, "/uevent"), data: "remove".to_owned() })
        }
    }
}

/// An ascii decimal digit.
pub open spec fn spec_is_ascii_digit(c: char) -> bool {
    48 <= c as u32 && c as u32 <= 57
}

/// The parent bridge name of a kernel device name: the name with its
/// trailing function digits stripped, then the separating dots.
pub open spec fn spec_parent_of(s: Seq<char>) -> Seq<char> {
    spec_trim_end_by(spec_trim_end_by(s, |c: char| spec_is_ascii_digit(c)), |c: char| c == '.')
}

fn is_ascii_digit_char(c: char) -> (r: bool)
    ensures
        r == spec_is_ascii_digit(c),
{
    let cu = c as u32;
    48 <= cu && cu <= 57
}

/// The parent bridge name for a kernel device name such as `0000:01:00.0`.
pub fn get_parent(sysname: &str) -> (r: String)
    ensures
        r@ == spec_parent_of(sysname@),
{
    let n = sysname.unicode_len();
    let mut k: usize = n;
    while k > 0 && is_ascii_digit_char(sysname.get_char(k - 1))
        invariant
            k <= n,
            n == sysname@.len(),
            forall|j: int| k <= j < n ==> spec_is_ascii_digit(sysname@[j]),
        decreases k,
    {
        k -= 1;
    }
    let mut m: usize = k;
    while m > 0 && sysname.get_char(m - 1) == '.'
        invariant
            m <= k <= n,
            n == sysname@.len(),
            forall|j: int| k <= j < n ==> spec_is_ascii_digit(sysname@[j]),
            k > 0 ==> !spec_is_ascii_digit(sysname@[k - 1]),
            forall|j: int| m <= j < k ==> sysname@[j] == '.',
        decreases m,
    {
        m -= 1;
    }
    proof {
        let s = sysname@;
        lemma_trim_end_by_subrange(s, |c: char| spec_is_ascii_digit(c), k as int);
        let t = s.subrange(0, k as int);
        lemma_trim_end_by_subrange(t, |c: char| c == '.', m as int);
    }
    sysname.substring_char(0, m).to_owned()
}

/// Everything the shell observed about one PCI device while walking the bus
/// uevent data: its identity, class, and the probes the classifier needs.
#[derive(Debug, Clone)]
pub struct PciProbe {
    /// Kernel name, e.g. `0000:01:00.0`
    pub sysname: String,
    /// `vendor:device` from the uevent `PCI_ID`, e.g. `10DE:25A0`
    pub pci_id: String,
    /// The uevent `PCI_CLASS` value, e.g. `30000`
    pub pci_class: String,
    /// Sysfs path of the device node
    pub syspath: String,
    /// Names of the display connectors reachable from this node
    pub displays: Vec<String>,
    /// Whether the first hwmon entry, when one exists, has an `in1_input`
    pub hwmon_has_in1_input: Option<bool>,
    /// The udev database model label, when present
    pub model_label: Option<String>,
    /// What lspci prints for this id; the last resort label
    pub lspci_label: String,
    /// The slot power path, when the slot supports hotplug
    pub slot_power_path: Option<String>,
    /// The resolved driver directory, present while a driver is bound
    pub driver_path: Option<String>,
}

/// The device is an Nvidia or AMD graphics function at all.
pub open spec fn spec_probe_eligible(p: PciProbe) -> bool {
    spec_starts_with(p.pci_id@, "10DE"@) || spec_starts_with(p.pci_id@, "1002"@)
}

pub open spec fn spec_probe_vendor(p: PciProbe) -> GfxVendor {
    if spec_starts_with(p.pci_id@, "10DE"@) {
        GfxVendor::Nvidia
    } else if spec_starts_with(p.pci_id@, "1002"@) {
        GfxVendor::Amd
    } else {
        GfxVendor::Unknown
    }
}

/// The internal panel connector hangs off this device, so it is the igpu.
pub open spec fn spec_has_edp(displays: Seq<String>) -> bool {
    exists|i: int| 0 <= i < displays.len() && (#[trigger] displays[i])@ == "eDP-1"@
}

/// The classification cascade for one device: display connectors first,
/// then the display-controller class, then the AMD hwmon probe, and the
/// model label as a last resort.
pub open spec fn spec_probe_is_dgpu(p: PciProbe) -> bool {
    let by_class = !spec_has_edp(p.displays@) && spec_starts_with(p.pci_class@, "30"@)
        && spec_probe_eligible(p);
    let by_hwmon = if !by_class && spec_starts_with(p.pci_id@, "1002"@) {
        match p.hwmon_has_in1_input {
            Some(present) => !present,
            None => false,
        }
    } else {
        by_class
    };
    if !by_hwmon {
        match p.model_label {
            Some(l) => spec_label_is_dgpu(l@),
            None => spec_label_is_dgpu(p.lspci_label@),
        }
    } else {
        by_hwmon
    }
}

fn probe_has_edp(displays: &Vec<String>) -> (r: bool)
    ensures
        r == spec_has_edp(displays@),
{
    let mut i: usize = 0;
    while i < displays.len()
        invariant
            i <= displays@.len(),
            forall|j: int| 0 <= j < i ==> (#[trigger] displays@[j])@ != "eDP-1"@,
        decreases displays@.len() - i,
    {
        if str_eq(displays[i].as_str(), "eDP-1") {
            return true;
        }
        i += 1;
    }
    false
}

/// Whether this probe is the discrete GPU, by the classification cascade.
pub fn probe_is_dgpu(p: &PciProbe) -> (r: bool)
    ensures
        r == spec_probe_is_dgpu(*p),
{
    let mut dgpu = false;
    if !probe_has_edp(&p.displays) {
        dgpu = str_starts_with(p.pci_class.as_str(), "30") && (str_starts_with(
            p.pci_id.as_str(),
            "10DE",
        ) || str_starts_with(p.pci_id.as_str(), "1002"));
    }
    if !dgpu && str_starts_with(p.pci_id.as_str(), "1002") {
        dgpu = match p.hwmon_has_in1_input {
            Some(present) => !present,
            None => false,
        };
    }
    if !dgpu {
        dgpu = match &p.model_label {
            Some(l) => lscpi_dgpu_check(l.as_str()),
            None => lscpi_dgpu_check(p.lspci_label.as_str()),
        };
    }
    dgpu
}

/// The device record that a selected probe becomes. Only the dgpu itself
/// keeps a hotplug handle.
pub open spec fn spec_device_of(p: PciProbe) -> DeviceView {
    DeviceView {
        dev_path: p.syspath@,
        hotplug_path: if spec_probe_is_dgpu(p) {
            match p.slot_power_path {
                Some(s) => Some(s@),
                None => None,
            }
        } else {
            None
        },
        vendor: spec_probe_vendor(p),
        is_dgpu: spec_probe_is_dgpu(p),
        name: p.sysname@,
        pci_id: p.pci_id@,
        driver_path: match p.driver_path {
            Some(d) => Some(d@),
            None => None,
        },
    }
}

/// Which probes the walk keeps, scanning from index `i` with the dgpu's
/// parent bridge name once one was found: the dgpu itself and, after it,
/// its sibling functions under the same bridge; the walk stops at the
/// first device outside that bridge.
pub open spec fn spec_scan(probes: Seq<PciProbe>, i: int, parent: Seq<char>) -> Seq<PciProbe>
    decreases probes.len() - i,
{
    if i < 0 || i >= probes.len() {
        Seq::empty()
    } else {
        let p = probes[i];
        let take = spec_probe_eligible(p) && (spec_probe_is_dgpu(p) || (parent.len() > 0
            && spec_contains_str(p.sysname@, parent)));
        let parent2 = if take {
            spec_parent_of(p.sysname@)
        } else {
            parent
        };
        let rest = if parent2.len() > 0 && !spec_contains_str(p.sysname@, parent2) {
            Seq::empty()
        } else {
            spec_scan(probes, i + 1, parent2)
        };
        if take {
            seq![p] + rest
        } else {
            rest
        }
    }
}

/// The devices a scan of the given probes yields.
pub open spec fn spec_found_devices(probes: Seq<PciProbe>) -> Seq<DeviceView> {
    spec_scan(probes, 0, Seq::empty()).map_values(|p: PciProbe| spec_device_of(p))
}

/// Law: whatever the walk keeps, it starts with the dgpu itself — sibling
/// functions are only collected once the dgpu fixed the parent bridge.
pub proof fn lemma_walk_starts_at_dgpu(probes: Seq<PciProbe>, i: int)
    ensures
        spec_scan(probes, i, Seq::empty()).len() > 0 ==> spec_probe_is_dgpu(
            spec_scan(probes, i, Seq::empty())[0],
        ),
    decreases probes.len() - i,
{
    if 0 <= i && i < probes.len() {
        lemma_walk_starts_at_dgpu(probes, i + 1);
    }
}

impl Device {
    /// Walk the enumerated PCI graphics probes and keep the dgpu and its
    /// sibling functions. With nothing found the dgpu is simply not there.
    pub fn find(probes: &Vec<PciProbe>) -> (r: Result<Vec<Device>, GfxError>)
        ensures
            spec_found_devices(probes@).len() == 0 ==> (r matches Err(e) && e is DgpuNotFound),
            spec_found_devices(probes@).len() > 0 ==> (r matches Ok(v) && v@.map_values(
                |d: Device| d@,
            ) =~~= spec_found_devices(probes@)),
    {
        let mut out: Vec<Device> = Vec::new();
        let mut parent: String = String::new();
        let mut i: usize = 0;
        let mut done = false;
        proof {
            assert(parent@ =~= Seq::<char>::empty());
        }
        while i < probes.len() && !done
            invariant
                i <= probes@.len(),
                out@.map_values(|d: Device| d@) + (if done {
                    Seq::<DeviceView>::empty()
                } else {
                    spec_scan(probes@, i as int, parent@).map_values(
                        |p: PciProbe| spec_device_of(p),
                    )
                }) =~~= spec_found_devices(probes@),
            decreases probes@.len() - i + (if done { 0int } else { 1int }),
        {
            let ghost prev_out = out@;
            let ghost prev_parent = parent@;
            let p = &probes[i];
            let eligible = str_starts_with(p.pci_id.as_str(), "10DE") || str_starts_with(
                p.pci_id.as_str(),
                "1002",
            );
            let dgpu = probe_is_dgpu(p);
            let take = eligible && (dgpu || (!parent.as_str().is_empty() && str_contains(
                p.sysname.as_str(),
                parent.as_str(),
            )));
            if take {
                let vendor = if str_starts_with(p.pci_id.as_str(), "10DE") {
                    GfxVendor::Nvidia
                } else {
                    GfxVendor::Amd
                };
                let hotplug_path = if dgpu {
                    match &p.slot_power_path {
                        Some(s) => Some(s.clone()),
                        None => None,
                    }
                } else {
                    None
                };
                let driver_path = match &p.driver_path {
                    Some(d) => Some(d.clone()),
                    None => None,
                };
                let dev = Device {
                    dev_path: p.syspath.clone(),
                    hotplug_path,
                    vendor,
                    is_dgpu: dgpu,
                    name: p.sysname.clone(),
                    pci_id: p.pci_id.clone(),
                    driver_path,
                };
                proof {
                    assert(dev@ =~~= spec_device_of(probes@[i as int]));
                }
                out.push(dev);
                parent = get_parent(p.sysname.as_str());
                proof {
                    assert(out@.map_values(|d: Device| d@) =~~= prev_out.map_values(
                        |d: Device| d@,
                    ).push(out@.last()@));
                }
            }
            if !parent.as_str().is_empty() && !str_contains(p.sysname.as_str(), parent.as_str()) {
                done = true;
            }
            i += 1;
            proof {
                let ghost cur_parent = if take {
                    spec_parent_of(probes@[i - 1].sysname@)
                } else {
                    prev_parent
                };
                assert(parent@ == cur_parent);
                assert(out@.map_values(|d: Device| d@) + (if done {
                    Seq::<DeviceView>::empty()
                } else {
                    spec_scan(probes@, i as int, parent@).map_values(
                        |p: PciProbe| spec_device_of(p),
                    )
                }) =~~= spec_found_devices(probes@));
            }
        }
        proof {
            if !done {
                assert(spec_scan(probes@, i as int, parent@) =~= Seq::<PciProbe>::empty());
            }
            assert(out@.map_values(|d: Device| d@) =~~= spec_found_devices(probes@));
        }
        if out.len() == 0 {
            proof {
                assert(spec_found_devices(probes@).len() == 0);
            }
            return Err(GfxError::DgpuNotFound);
        }
        Ok(out)
    }
}

/// The module operations for the VFIO driver set: loading `vfio-pci` pulls
/// its dependencies in, while removal walks the whole set shim first.
pub fn vfio_driver_ops(action: DriverAction) -> (r: Vec<DriverOp>)
    ensures
        action is Load ==> (r@.len() == 1 && r@[0].module@ == "vfio-pci"@ && r@[0].action is Load),
        action is Remove ==> {
            &&& r@.len() == 3
            &&& forall|i: int| 0 <= i < 3 ==> (#[trigger] r@[i]).action is Remove
            &&& r@[0].module@ == "vfio_pci"@
            &&& r@[1].module@ == "vfio_iommu_type1"@
            &&& r@[2].module@ == "vfio"@
        },
{
    match action {
        DriverAction::Load => vec![DriverOp { module: "vfio-pci".to_owned(), action }],
        DriverAction::Remove => vec![
            DriverOp { module: "vfio_pci".to_owned(), action },
            DriverOp { module: "vfio_iommu_type1".to_owned(), action },
            DriverOp { module: "vfio".to_owned(), action },
        ],
    }
}

} // verus!
