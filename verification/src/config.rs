use vstd::prelude::*;
use vstd::string::StringExecFns;

use crate::actions::UserActionRequired;
use crate::pci_device::{Device, DiscreetGpu, GfxMode, HotplugType, SysfsWrite};
use crate::text::concat_str;
use crate::MODPROBE_PATH;

verus! {

/// Base options for the Nvidia modules.
pub const MODPROBE_NVIDIA_BASE: &'static str =
    "options nvidia NVreg_DynamicPowerManagement=0x02\n";

/// Keeps the nvidia-drm KMS path off so the driver can be hot unloaded.
pub const MODPROBE_NVIDIA_DRM_MODESET_OFF: &'static str = "options nvidia-drm modeset=0\n";

/// Routes backlight control through the EC on laptops that need it.
pub const MODPROBE_NVIDIA_EC_BKLT: &'static str =
    "options nvidia NVreg_RegistryDwords=EnableBrightnessControl=1\n";

/// Keeps every Nvidia module out of the kernel.
pub const MODPROBE_INTEGRATED: &'static str =
    "blacklist nvidia\nblacklist nvidia-drm\nblacklist nvidia-modeset\nblacklist nvidia-uvm\n";

/// Start of the line that registers device ids for vfio-pci autoprobe.
pub const MODPROBE_VFIO: &'static str = "options vfio-pci ids=";

/// The Nvidia Vulkan ICD registration file.
pub const CONFIG_NVIDIA_VKICD: &'static str = "/usr/share/vulkan/icd.d/nvidia_icd.json";

/// The daemon's persisted policy plus its transient switch bookkeeping.
/// Persisting it is the shell's duty; the engine only decides its contents.
#[derive(Debug, Clone)]
pub struct GfxConfig {
    /// Where the config document lives on disk
    pub config_path: String,
    /// The current mode set, also applied on boot
    pub mode: GfxMode,
    /// Only for temporary modes like vfio; never persisted
    pub tmp_mode: Option<GfxMode>,
    /// The requested mode change while a switch is in flight; never persisted
    pub pending_mode: Option<GfxMode>,
    /// The user action a switch still waits on; never persisted
    pub pending_action: Option<UserActionRequired>,
    /// Whether the vfio mode may be entered at all
    pub vfio_enable: bool,
    /// Whether the vfio mode is re-applied on boot
    pub vfio_save: bool,
    /// Treat every switch as requiring a reboot
    pub always_reboot: bool,
    /// Skip the logind session gate
    pub no_logind: bool,
    /// Seconds to wait for graphical sessions to end; 0 waits forever
    pub logout_timeout_s: u64,
    /// How the dgpu is unplugged and replugged
    pub hotplug_type: HotplugType,
}

impl GfxConfig {
    /// A fresh config with the defaults the daemon starts from.
    pub fn new(config_path: String) -> (r: Self)
        ensures
            r.config_path == config_path,
            r.mode is Hybrid,
            r.tmp_mode is None,
            r.pending_mode is None,
            r.pending_action is None,
            !r.vfio_enable,
            !r.vfio_save,
            !r.always_reboot,
            !r.no_logind,
            r.logout_timeout_s == 180,
            r.hotplug_type is NoHotplug,
    {
        GfxConfig {
            config_path,
            mode: GfxMode::Hybrid,
            tmp_mode: None,
            pending_mode: None,
            pending_action: None,
            vfio_enable: false,
            vfio_save: false,
            always_reboot: false,
            no_logind: false,
            logout_timeout_s: 180,
            hotplug_type: HotplugType::NoHotplug,
        }
    }
}

/// The slice of the config that crosses the wire to clients.
#[derive(Debug, Clone)]
pub struct GfxConfigDbus {
    pub mode: GfxMode,
    pub vfio_enable: bool,
    pub vfio_save: bool,
    pub always_reboot: bool,
    pub no_logind: bool,
    pub logout_timeout_s: u64,
    pub hotplug_type: HotplugType,
}

impl GfxConfigDbus {
    pub fn from_config(c: &GfxConfig) -> (r: Self)
        ensures
            r.mode == c.mode,
            r.vfio_enable == c.vfio_enable,
            r.vfio_save == c.vfio_save,
            r.always_reboot == c.always_reboot,
            r.no_logind == c.no_logind,
            r.logout_timeout_s == c.logout_timeout_s,
            r.hotplug_type == c.hotplug_type,
    {
        GfxConfigDbus {
            mode: c.mode,
            vfio_enable: c.vfio_enable,
            vfio_save: c.vfio_save,
            always_reboot: c.always_reboot,
            no_logind: c.no_logind,
            logout_timeout_s: c.logout_timeout_s,
            hotplug_type: c.hotplug_type,
        }
    }
}

/// The `id1,id2,…,` tail of the vfio-pci line for the first `i` devices:
/// every function's id, each followed by a comma.
pub open spec fn spec_vfio_ids(devs: Seq<Device>, i: int) -> Seq<char>
    decreases i,
{
    if i <= 0 || i > devs.len() {
        Seq::empty()
    } else {
        spec_vfio_ids(devs, i - 1) + devs[i - 1].pci_id@ + ","@
    }
}

/// The whole modprobe document for `mode` on an Nvidia dgpu with the given
/// device set. AMD and Intel dgpus never get one.
pub open spec fn spec_modprobe_content(mode: GfxMode, devs: Seq<Device>) -> Seq<char> {
    match mode {
        GfxMode::Hybrid | GfxMode::AsusEgpu | GfxMode::NvidiaNoModeset => MODPROBE_NVIDIA_BASE@
            + MODPROBE_NVIDIA_DRM_MODESET_OFF@ + MODPROBE_NVIDIA_EC_BKLT@,
        GfxMode::Vfio => MODPROBE_INTEGRATED@ + MODPROBE_VFIO@ + spec_vfio_ids(
            devs,
            devs.len() as int,
        ),
        GfxMode::Integrated => MODPROBE_INTEGRATED@ + MODPROBE_NVIDIA_DRM_MODESET_OFF@
            + MODPROBE_NVIDIA_EC_BKLT@,
        GfxMode::NoMode | GfxMode::AsusMuxDgpu => Seq::empty(),
    }
}

/// The write that lays down the modprobe config for `mode`: the single
/// engine-owned path, truncated and rewritten whole. An AMD or Intel dgpu
/// needs none, so nothing is written.
pub fn create_modprobe_conf(mode: GfxMode, device: &DiscreetGpu) -> (r: Option<SysfsWrite>)
    ensures
        device.vendor is Amd || device.vendor is Intel ==> r is None,
        !(device.vendor is Amd) && !(device.vendor is Intel) ==> (r matches Some(w) && w.path@
            == MODPROBE_PATH@ && w.data@ == spec_modprobe_content(mode, device.devices@)),
{
    if device.is_amd() || device.is_intel() {
        return None;
    }

    let content: String = match mode {
        GfxMode::Hybrid | GfxMode::AsusEgpu | GfxMode::NvidiaNoModeset => {
            let mut base = MODPROBE_NVIDIA_BASE.to_owned();
            base.append(MODPROBE_NVIDIA_DRM_MODESET_OFF);
            base.append(MODPROBE_NVIDIA_EC_BKLT);
            base
        }
        GfxMode::Vfio => {
            let mut base = MODPROBE_INTEGRATED.to_owned();
            base.append(MODPROBE_VFIO);
            let mut i: usize = 0;
            while i < device.devices.len()
                invariant
                    i <= device.devices@.len(),
                    base@ =~= MODPROBE_INTEGRATED@ + MODPROBE_VFIO@ + spec_vfio_ids(
                        device.devices@,
                        i as int,
                    ),
                decreases device.devices@.len() - i,
            {
                base.append(device.devices[i].pci_id.as_str());
                base.append(",");
                i += 1;
                proof {
                    assert(base@ =~= MODPROBE_INTEGRATED@ + MODPROBE_VFIO@ + spec_vfio_ids(
                        device.devices@,
                        i as int,
                    ));
                }
            }
            base
        }
        GfxMode::Integrated => {
            let mut base = MODPROBE_INTEGRATED.to_owned();
            base.append(MODPROBE_NVIDIA_DRM_MODESET_OFF);
            base.append(MODPROBE_NVIDIA_EC_BKLT);
            base
        }
        GfxMode::NoMode | GfxMode::AsusMuxDgpu => {
            let empty = String::new();
            proof {
                assert(empty@ =~= Seq::<char>::empty());
            }
            empty
        }
    };

    Some(SysfsWrite { path: MODPROBE_PATH.to_owned(), data: content })
}

/// Presence of the Nvidia Vulkan ICD registration file and of its parked
/// `_inactive` sibling.
#[derive(Debug, Clone, Copy, PartialEq, Eq, Structural)]
pub struct IcdFiles {
    pub active: bool,
    pub inactive: bool,
}

/// Where the ICD files stand after the check for `mode` ran: modes that hide
/// the Nvidia driver park the registration file; every other mode brings it
/// back. A rename never leaves both names in place.
pub open spec fn spec_icd_after(mode: GfxMode, st: IcdFiles) -> IcdFiles {
    if mode is Vfio || mode is Integrated {
        if st.active {
            IcdFiles { active: false, inactive: true }
        } else {
            st
        }
    } else {
        if st.inactive {
            IcdFiles { active: true, inactive: false }
        } else {
            st
        }
    }
}

/// A rename the shell must perform atomically.
#[derive(Debug, Clone, PartialEq, Eq)]
pub struct FileRename {
    pub from: String,
    pub to: String,
}

/// The rename that puts the Vulkan ICD layout right for `mode`, if one is
/// needed. `st` is which of the two names the shell found on disk.
pub fn check_vulkan_icd(mode: GfxMode, st: IcdFiles) -> (r: Option<FileRename>)
    ensures
        (mode is Vfio || mode is Integrated) && st.active ==> (r matches Some(m) && m.from@
            == CONFIG_NVIDIA_VKICD@ && m.to@ == CONFIG_NVIDIA_VKICD@ + "_inactive"@),
        (mode is Vfio || mode is Integrated) && !st.active ==> r is None,
        !(mode is Vfio) && !(mode is Integrated) && st.inactive ==> (r matches Some(m) && m.from@
            == CONFIG_NVIDIA_VKICD@ + "_inactive"@ && m.to@ == CONFIG_NVIDIA_VKICD@),
        !(mode is Vfio) && !(mode is Integrated) && !st.inactive ==> r is None,
{
    let inactive_name = concat_str(CONFIG_NVIDIA_VKICD, "_inactive");
    if mode == GfxMode::Vfio || mode == GfxMode::Integrated {
        if st.active {
            Some(FileRename { from: CONFIG_NVIDIA_VKICD.to_owned(), to: inactive_name })
        } else {
            None
        }
    } else {
        if st.inactive {
            Some(FileRename { from: inactive_name, to: CONFIG_NVIDIA_VKICD.to_owned() })
        } else {
            None
        }
    }
}

/// Law: the Vulkan ICD check is idempotent — running it twice for the same
/// mode leaves exactly what one run leaves.
pub proof fn lemma_vulkan_icd_idempotent(mode: GfxMode, st: IcdFiles)
    ensures
        spec_icd_after(mode, spec_icd_after(mode, st)) == spec_icd_after(mode, st),
{
}

} // verus!
