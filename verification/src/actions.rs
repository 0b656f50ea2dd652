use vstd::prelude::*;

use crate::config::GfxConfig;
use crate::pci_device::{GfxMode, GfxVendor, HotplugType};

verus! {

/// The action a user must take, if any, after requesting a mode change.
#[derive(Debug, Clone, Copy, PartialEq, Eq, Structural)]
pub enum UserActionRequired {
    Logout,
    Reboot,
    SwitchToIntegrated,
    AsusEgpuDisable,
    Nothing,
}

/// What the user must do for the switch `current_mode -> new_mode` to finish.
/// Moving between Integrated and Vfio needs nothing; leaving the ASUS MUX
/// dgpu mode always needs a reboot; Vfio must be left for Integrated first.
pub open spec fn spec_mode_change_action(new_mode: GfxMode, current_mode: GfxMode) -> UserActionRequired {
    match new_mode {
        GfxMode::Hybrid => match current_mode {
            GfxMode::Integrated | GfxMode::AsusEgpu => UserActionRequired::Logout,
            GfxMode::AsusMuxDgpu => UserActionRequired::Reboot,
            GfxMode::Vfio => UserActionRequired::SwitchToIntegrated,
            _ => UserActionRequired::Nothing,
        },
        GfxMode::Integrated => match current_mode {
            GfxMode::Hybrid | GfxMode::AsusEgpu => UserActionRequired::Logout,
            GfxMode::AsusMuxDgpu => UserActionRequired::Reboot,
            _ => UserActionRequired::Nothing,
        },
        GfxMode::NvidiaNoModeset => match current_mode {
            GfxMode::AsusEgpu => UserActionRequired::Logout,
            GfxMode::AsusMuxDgpu => UserActionRequired::Reboot,
            _ => UserActionRequired::Nothing,
        },
        GfxMode::Vfio => match current_mode {
            GfxMode::AsusEgpu | GfxMode::Hybrid => UserActionRequired::Logout,
            GfxMode::AsusMuxDgpu => UserActionRequired::Reboot,
            _ => UserActionRequired::Nothing,
        },
        GfxMode::AsusEgpu => match current_mode {
            GfxMode::Integrated | GfxMode::Hybrid | GfxMode::NvidiaNoModeset => {
                UserActionRequired::Logout
            }
            GfxMode::Vfio => UserActionRequired::SwitchToIntegrated,
            GfxMode::AsusMuxDgpu => UserActionRequired::Reboot,
            _ => UserActionRequired::Nothing,
        },
        GfxMode::AsusMuxDgpu => match current_mode {
            GfxMode::NoMode | GfxMode::AsusMuxDgpu => UserActionRequired::Nothing,
            _ => UserActionRequired::Reboot,
        },
        GfxMode::NoMode => UserActionRequired::Nothing,
    }
}

impl UserActionRequired {
    /// What the user must do for the switch `current_mode -> new_mode` to
    /// finish, if anything.
    pub fn mode_change_action(new_mode: GfxMode, current_mode: GfxMode) -> (r: Self)
        ensures
            r == spec_mode_change_action(new_mode, current_mode),
    {
        match new_mode {
            GfxMode::Hybrid => match current_mode {
                GfxMode::Integrated | GfxMode::AsusEgpu => Self::Logout,
                GfxMode::AsusMuxDgpu => Self::Reboot,
                GfxMode::Vfio => Self::SwitchToIntegrated,
                GfxMode::NvidiaNoModeset | GfxMode::Hybrid | GfxMode::NoMode => Self::Nothing,
            },
            GfxMode::Integrated => match current_mode {
                GfxMode::Hybrid | GfxMode::AsusEgpu => Self::Logout,
                GfxMode::AsusMuxDgpu => Self::Reboot,
                GfxMode::Vfio
                | GfxMode::NvidiaNoModeset
                | GfxMode::Integrated
                | GfxMode::NoMode => Self::Nothing,
            },
            GfxMode::NvidiaNoModeset => match current_mode {
                GfxMode::Integrated
                | GfxMode::NvidiaNoModeset
                | GfxMode::Vfio
                | GfxMode::Hybrid
                | GfxMode::NoMode => Self::Nothing,
                GfxMode::AsusEgpu => Self::Logout,
                GfxMode::AsusMuxDgpu => Self::Reboot,
            },
            GfxMode::Vfio => match current_mode {
                GfxMode::Integrated
                | GfxMode::Vfio
                | GfxMode::NvidiaNoModeset
                | GfxMode::NoMode => Self::Nothing,
                GfxMode::AsusEgpu | GfxMode::Hybrid => Self::Logout,
                GfxMode::AsusMuxDgpu => Self::Reboot,
            },
            GfxMode::AsusEgpu => match current_mode {
                GfxMode::Integrated | GfxMode::Hybrid | GfxMode::NvidiaNoModeset => Self::Logout,
                GfxMode::Vfio => Self::SwitchToIntegrated,
                GfxMode::AsusEgpu | GfxMode::NoMode => Self::Nothing,
                GfxMode::AsusMuxDgpu => Self::Reboot,
            },
            GfxMode::AsusMuxDgpu => match current_mode {
                GfxMode::Hybrid
                | GfxMode::Integrated
                | GfxMode::NvidiaNoModeset
                | GfxMode::Vfio
                | GfxMode::AsusEgpu => Self::Reboot,
                GfxMode::NoMode | GfxMode::AsusMuxDgpu => Self::Nothing,
            },
            GfxMode::NoMode => Self::Nothing,
        }
    }

    /// A one-line account of the action, for clients to show.
    pub fn describe(self) -> (r: &'static str)
        ensures
            self is Logout ==> r@ == "Logout required to complete mode change"@,
            self is Reboot ==> r@ == "Reboot required to complete mode change"@,
            self is SwitchToIntegrated ==> r@ == "You must switch to Integrated first"@,
            self is AsusEgpuDisable ==> r@ == "The mode must be switched to Integrated or Hybrid first"@,
            self is Nothing ==> r@ == "No action required"@,
    {
        match self {
            UserActionRequired::Logout => "Logout required to complete mode change",
            UserActionRequired::Reboot => "Reboot required to complete mode change",
            UserActionRequired::SwitchToIntegrated => "You must switch to Integrated first",
            UserActionRequired::AsusEgpuDisable => {
                "The mode must be switched to Integrated or Hybrid first"
            }
            UserActionRequired::Nothing => "No action required",
        }
    }
}

/// Every step the daemon can perform during a mode change, in the order the
/// planner emits them.
#[derive(Debug, Clone, Copy, PartialEq, Eq, Structural)]
pub enum StagedAction {
    /// Wait for the user to logout
    WaitLogout,
    /// Stop the display manager
    StopDisplayManager,
    /// Restart the display manager
    StartDisplayManager,
    /// A marker for no logind options
    NoLogind,
    /// Send a gpu detach event to apps
    SendDetachEvent,
    /// Load the dgpu drivers
    LoadGpuDrivers,
    /// Unload the dgpu drivers
    UnloadGpuDrivers,
    /// Kill all things using the nvidia device
    KillNvidia,
    /// Kill all things using the AMD device
    KillAmd,
    /// Enable nvidia-persistenced service
    EnableNvidiaPersistenced,
    /// Disable nvidia-persistenced service
    DisableNvidiaPersistenced,
    /// Enable nvidia-powerd service
    EnableNvidiaPowerd,
    /// Disable nvidia-powerd service
    DisableNvidiaPowerd,
    /// Load the vfio modules
    LoadVfioDrivers,
    /// Unload the vfio modules
    UnloadVfioDrivers,
    /// A marker step: no ASUS or hotplug removal, only dev-tree unbind/remove
    DevTreeManaged,
    RescanPci,
    /// Unbind and fully remove the device from a driver using sysfs
    UnbindRemoveGpu,
    /// Unbind only, device is still in PCI tree
    UnbindGpu,
    /// If hotplug is available then the dgpu can be hot-removed
    HotplugUnplug,
    /// If hotplug is available then the dgpu can be hot-plugged
    HotplugPlug,
    /// Disable the internal dgpu using the ASUS ACPI method
    AsusDgpuDisable,
    /// Enable the internal dgpu using the ASUS ACPI method
    AsusDgpuEnable,
    /// Disable the ASUS eGPU, which also re-enables the internal dgpu
    AsusEgpuDisable,
    /// Enable the ASUS eGPU, which also disables the internal dgpu
    AsusEgpuEnable,
    /// Switch the ASUS MUX to igpu mode
    AsusMuxIgpu,
    /// Switch the ASUS MUX to dgpu mode
    AsusMuxDgpu,
    /// Write a modprobe conf according to mode
    WriteModprobeConf,
    /// Check for the correct Vulkan ICD layout for the mode
    CheckVulkanIcd,
    /// Marker used when a step applies only to Nvidia and the dgpu is not
    NotNvidia,
    Nothing,
}

/// What the planner returns: either a verdict that the user must act, or an
/// ordered list of steps to execute.
#[derive(Debug, PartialEq, Eq)]
pub enum Action {
    UserAction(UserActionRequired),
    StagedActions(Vec<StagedAction>),
}

/// The mathematical shape of an [`Action`].
#[verifier::ext_equal]
pub enum ActionView {
    User(UserActionRequired),
    Steps(Seq<StagedAction>),
}

impl View for Action {
    type V = ActionView;

    open spec fn view(&self) -> ActionView {
        match self {
            Action::UserAction(a) => ActionView::User(*a),
            Action::StagedActions(v) => ActionView::Steps(v@),
        }
    }
}

/// The step that frees the dgpu of userspace users, resolved by vendor.
pub open spec fn kill_gpu_step(vendor: GfxVendor) -> StagedAction {
    if vendor is Nvidia {
        StagedAction::KillNvidia
    } else if vendor is Amd {
        StagedAction::KillAmd
    } else {
        StagedAction::NotNvidia
    }
}

/// A step that only means anything on an Nvidia dgpu; otherwise a marker.
pub open spec fn nvidia_step(vendor: GfxVendor, step: StagedAction) -> StagedAction {
    if vendor is Nvidia {
        step
    } else {
        StagedAction::NotNvidia
    }
}

/// A session or display-manager step, or a marker when logind must not be
/// touched (no logind at all, or every switch reboots anyway).
pub open spec fn logind_step(no_logind: bool, always_reboot: bool, step: StagedAction) -> StagedAction {
    if !no_logind && !always_reboot {
        step
    } else {
        StagedAction::NoLogind
    }
}

/// The step that removes the dgpu, resolved by hotplug policy.
pub open spec fn hotplug_rm_step(hotplug: HotplugType) -> StagedAction {
    match hotplug {
        HotplugType::Std => StagedAction::HotplugUnplug,
        HotplugType::Asus => StagedAction::AsusDgpuDisable,
        HotplugType::NoHotplug => StagedAction::DevTreeManaged,
    }
}

/// The step that brings the dgpu back, resolved by hotplug policy.
pub open spec fn hotplug_add_step(hotplug: HotplugType) -> StagedAction {
    match hotplug {
        HotplugType::Std => StagedAction::HotplugPlug,
        HotplugType::Asus => StagedAction::AsusDgpuEnable,
        HotplugType::NoHotplug => StagedAction::DevTreeManaged,
    }
}

/// The steps run at boot to re-establish `mode`, assuming a fresh boot: no
/// session gating, no display-manager dance.
pub open spec fn spec_boot_plan(mode: GfxMode, vendor: GfxVendor, hotplug: HotplugType) -> Seq<StagedAction> {
    let kill_gpu_use = if vendor is Nvidia {
        StagedAction::KillNvidia
    } else {
        StagedAction::KillAmd
    };
    let dis_pers = nvidia_step(vendor, StagedAction::DisableNvidiaPersistenced);
    let en_pers = nvidia_step(vendor, StagedAction::EnableNvidiaPersistenced);
    let dis_powerd = nvidia_step(vendor, StagedAction::DisableNvidiaPowerd);
    let en_powerd = nvidia_step(vendor, StagedAction::EnableNvidiaPowerd);
    let hotplug_rm = hotplug_rm_step(hotplug);
    let hotplug_add = hotplug_add_step(hotplug);
    match mode {
        GfxMode::Hybrid => seq![
            StagedAction::WriteModprobeConf,
            StagedAction::CheckVulkanIcd,
            hotplug_add,
            StagedAction::RescanPci,
            StagedAction::LoadGpuDrivers,
            en_pers,
            en_powerd,
        ],
        GfxMode::Integrated | GfxMode::NvidiaNoModeset => seq![
            dis_pers,
            dis_powerd,
            kill_gpu_use,
            StagedAction::UnloadGpuDrivers,
            StagedAction::UnbindRemoveGpu,
            StagedAction::WriteModprobeConf,
            StagedAction::CheckVulkanIcd,
            hotplug_rm,
        ],
        GfxMode::Vfio => seq![
            dis_pers,
            dis_powerd,
            kill_gpu_use,
            StagedAction::UnloadGpuDrivers,
            StagedAction::WriteModprobeConf,
            StagedAction::CheckVulkanIcd,
            StagedAction::LoadVfioDrivers,
        ],
        GfxMode::AsusEgpu | GfxMode::AsusMuxDgpu => seq![
            StagedAction::WriteModprobeConf,
            StagedAction::CheckVulkanIcd,
            StagedAction::LoadGpuDrivers,
            en_pers,
            en_powerd,
        ],
        GfxMode::NoMode => seq![],
    }
}

/// The full switch table: for every `(from, to)` pair under the given vendor
/// and policy, the steps to run or the verdict that the user must act.
pub open spec fn spec_switch_plan(
    from: GfxMode,
    to: GfxMode,
    vendor: GfxVendor,
    hotplug: HotplugType,
    no_logind: bool,
    always_reboot: bool,
) -> ActionView {
    let wait_logout = logind_step(no_logind, always_reboot, StagedAction::WaitLogout);
    let stop_display = logind_step(no_logind, always_reboot, StagedAction::StopDisplayManager);
    let start_display = logind_step(no_logind, always_reboot, StagedAction::StartDisplayManager);
    let kill_gpu_use = kill_gpu_step(vendor);
    let dis_pers = nvidia_step(vendor, StagedAction::DisableNvidiaPersistenced);
    let en_pers = nvidia_step(vendor, StagedAction::EnableNvidiaPersistenced);
    let dis_powerd = nvidia_step(vendor, StagedAction::DisableNvidiaPowerd);
    let en_powerd = nvidia_step(vendor, StagedAction::EnableNvidiaPowerd);
    let hotplug_rm = hotplug_rm_step(hotplug);
    let hotplug_add = hotplug_add_step(hotplug);
    match from {
        GfxMode::Hybrid => match to {
            GfxMode::Integrated => ActionView::Steps(
                seq![
                    wait_logout,
                    stop_display,
                    dis_pers,
                    dis_powerd,
                    kill_gpu_use,
                    StagedAction::UnloadGpuDrivers,
                    StagedAction::UnbindRemoveGpu,
                    StagedAction::WriteModprobeConf,
                    StagedAction::CheckVulkanIcd,
                    hotplug_rm,
                    start_display,
                ],
            ),
            GfxMode::Vfio => ActionView::User(UserActionRequired::SwitchToIntegrated),
            GfxMode::AsusEgpu => ActionView::Steps(
                seq![
                    wait_logout,
                    stop_display,
                    dis_pers,
                    dis_powerd,
                    kill_gpu_use,
                    StagedAction::UnloadGpuDrivers,
                    StagedAction::UnbindRemoveGpu,
                    StagedAction::WriteModprobeConf,
                    StagedAction::CheckVulkanIcd,
                    StagedAction::AsusEgpuEnable,
                    StagedAction::RescanPci,
                    StagedAction::LoadGpuDrivers,
                    en_pers,
                    en_powerd,
                    start_display,
                ],
            ),
            GfxMode::AsusMuxDgpu => ActionView::Steps(
                seq![
                    StagedAction::CheckVulkanIcd,
                    en_pers,
                    en_powerd,
                    StagedAction::AsusMuxDgpu,
                ],
            ),
            _ => ActionView::User(UserActionRequired::Nothing),
        },
        GfxMode::Integrated => match to {
            GfxMode::Hybrid => ActionView::Steps(
                seq![
                    wait_logout,
                    stop_display,
                    StagedAction::WriteModprobeConf,
                    StagedAction::CheckVulkanIcd,
                    hotplug_add,
                    StagedAction::RescanPci,
                    StagedAction::LoadGpuDrivers,
                    en_pers,
                    en_powerd,
                    start_display,
                ],
            ),
            GfxMode::NvidiaNoModeset => ActionView::Steps(
                seq![
                    StagedAction::WriteModprobeConf,
                    StagedAction::CheckVulkanIcd,
                    StagedAction::RescanPci,
                    StagedAction::LoadGpuDrivers,
                    en_pers,
                    en_powerd,
                ],
            ),
            GfxMode::Vfio => ActionView::Steps(
                seq![
                    StagedAction::WriteModprobeConf,
                    StagedAction::CheckVulkanIcd,
                    hotplug_add,
                    StagedAction::RescanPci,
                    dis_pers,
                    dis_powerd,
                    kill_gpu_use,
                    StagedAction::UnloadGpuDrivers,
                    StagedAction::UnbindGpu,
                    StagedAction::LoadVfioDrivers,
                ],
            ),
            GfxMode::AsusEgpu => ActionView::Steps(
                seq![
                    wait_logout,
                    stop_display,
                    StagedAction::WriteModprobeConf,
                    StagedAction::CheckVulkanIcd,
                    StagedAction::AsusEgpuEnable,
                    StagedAction::RescanPci,
                    StagedAction::LoadGpuDrivers,
                    en_pers,
                    en_powerd,
                    start_display,
                ],
            ),
            GfxMode::AsusMuxDgpu => ActionView::Steps(
                seq![
                    StagedAction::WriteModprobeConf,
                    StagedAction::CheckVulkanIcd,
                    hotplug_add,
                    en_pers,
                    en_powerd,
                    StagedAction::AsusMuxDgpu,
                ],
            ),
            _ => ActionView::User(UserActionRequired::Nothing),
        },
        GfxMode::NvidiaNoModeset => match to {
            GfxMode::Integrated => ActionView::Steps(
                seq![
                    StagedAction::SendDetachEvent,
                    dis_pers,
                    dis_powerd,
                    kill_gpu_use,
                    StagedAction::UnloadGpuDrivers,
                    StagedAction::UnbindRemoveGpu,
                    StagedAction::WriteModprobeConf,
                    StagedAction::CheckVulkanIcd,
                ],
            ),
            GfxMode::Vfio => ActionView::Steps(
                seq![
                    StagedAction::SendDetachEvent,
                    dis_pers,
                    dis_powerd,
                    kill_gpu_use,
                    StagedAction::UnloadGpuDrivers,
                    StagedAction::WriteModprobeConf,
                    StagedAction::CheckVulkanIcd,
                    StagedAction::LoadVfioDrivers,
                ],
            ),
            GfxMode::AsusMuxDgpu => ActionView::Steps(
                seq![en_pers, en_powerd, StagedAction::AsusMuxDgpu],
            ),
            _ => ActionView::User(UserActionRequired::Nothing),
        },
        GfxMode::Vfio => match to {
            GfxMode::Hybrid | GfxMode::NvidiaNoModeset => ActionView::Steps(
                seq![
                    kill_gpu_use,
                    StagedAction::UnloadVfioDrivers,
                    StagedAction::WriteModprobeConf,
                    StagedAction::CheckVulkanIcd,
                    StagedAction::RescanPci,
                    StagedAction::LoadGpuDrivers,
                ],
            ),
            GfxMode::Integrated => ActionView::Steps(
                seq![
                    kill_gpu_use,
                    StagedAction::UnloadVfioDrivers,
                    StagedAction::UnbindRemoveGpu,
                ],
            ),
            GfxMode::AsusEgpu => ActionView::Steps(
                seq![
                    wait_logout,
                    stop_display,
                    StagedAction::UnloadVfioDrivers,
                    StagedAction::UnbindRemoveGpu,
                    StagedAction::WriteModprobeConf,
                    StagedAction::CheckVulkanIcd,
                    StagedAction::AsusEgpuEnable,
                    StagedAction::RescanPci,
                    StagedAction::LoadGpuDrivers,
                    en_pers,
                    en_powerd,
                    start_display,
                ],
            ),
            GfxMode::AsusMuxDgpu => ActionView::Steps(
                seq![en_pers, en_powerd, StagedAction::AsusMuxDgpu],
            ),
            _ => ActionView::User(UserActionRequired::Nothing),
        },
        GfxMode::AsusEgpu => match to {
            GfxMode::Hybrid => ActionView::Steps(
                seq![
                    wait_logout,
                    stop_display,
                    dis_pers,
                    dis_powerd,
                    kill_gpu_use,
                    StagedAction::UnloadGpuDrivers,
                    StagedAction::UnbindRemoveGpu,
                    StagedAction::WriteModprobeConf,
                    StagedAction::CheckVulkanIcd,
                    StagedAction::AsusEgpuDisable,
                    StagedAction::AsusDgpuEnable,
                    StagedAction::RescanPci,
                    StagedAction::LoadGpuDrivers,
                    en_pers,
                    en_powerd,
                    start_display,
                ],
            ),
            GfxMode::Integrated => ActionView::Steps(
                seq![
                    wait_logout,
                    stop_display,
                    dis_pers,
                    dis_powerd,
                    kill_gpu_use,
                    StagedAction::UnloadGpuDrivers,
                    StagedAction::UnbindRemoveGpu,
                    StagedAction::WriteModprobeConf,
                    StagedAction::AsusEgpuDisable,
                    StagedAction::UnloadGpuDrivers,
                    StagedAction::UnbindRemoveGpu,
                    StagedAction::WriteModprobeConf,
                    StagedAction::CheckVulkanIcd,
                    hotplug_rm,
                    start_display,
                ],
            ),
            GfxMode::Vfio => ActionView::User(UserActionRequired::SwitchToIntegrated),
            GfxMode::AsusMuxDgpu => ActionView::User(UserActionRequired::AsusEgpuDisable),
            _ => ActionView::User(UserActionRequired::Nothing),
        },
        GfxMode::AsusMuxDgpu => match to {
            GfxMode::AsusMuxDgpu => ActionView::User(UserActionRequired::Nothing),
            _ => ActionView::Steps(seq![StagedAction::AsusMuxIgpu]),
        },
        GfxMode::NoMode => ActionView::User(UserActionRequired::Nothing),
    }
}

impl StagedAction {
    /// The steps run at boot to re-establish `mode`; boot never needs the
    /// session gate, so no logind steps appear.
    pub fn action_list_for_boot(
        config: &GfxConfig,
        vendor: GfxVendor,
        mode: GfxMode,
    ) -> (r: Vec<StagedAction>)
        ensures
            r@ =~= spec_boot_plan(mode, vendor, config.hotplug_type),
    {
        let kill_gpu_use = if vendor == GfxVendor::Nvidia {
            Self::KillNvidia
        } else {
            Self::KillAmd
        };

        let dis_pers = if vendor == GfxVendor::Nvidia {
            Self::DisableNvidiaPersistenced
        } else {
            Self::NotNvidia
        };

        let en_pers = if vendor == GfxVendor::Nvidia {
            Self::EnableNvidiaPersistenced
        } else {
            Self::NotNvidia
        };

        let dis_powerd = if vendor == GfxVendor::Nvidia {
            Self::DisableNvidiaPowerd
        } else {
            Self::NotNvidia
        };

        let en_powerd = if vendor == GfxVendor::Nvidia {
            Self::EnableNvidiaPowerd
        } else {
            Self::NotNvidia
        };

        let hotplug_rm = match config.hotplug_type {
            HotplugType::Std => Self::HotplugUnplug,
            HotplugType::Asus => Self::AsusDgpuDisable,
            HotplugType::NoHotplug => Self::DevTreeManaged,
        };

        let hotplug_add = match config.hotplug_type {
            HotplugType::Std => Self::HotplugPlug,
            HotplugType::Asus => Self::AsusDgpuEnable,
            HotplugType::NoHotplug => Self::DevTreeManaged,
        };

        match mode {
            GfxMode::Hybrid => vec![
                Self::WriteModprobeConf,
                Self::CheckVulkanIcd,
                hotplug_add,
                Self::RescanPci,
                Self::LoadGpuDrivers,
                en_pers,
                en_powerd,
            ],
            GfxMode::Integrated | GfxMode::NvidiaNoModeset => vec![
                dis_pers,
                dis_powerd,
                kill_gpu_use,
                Self::UnloadGpuDrivers,
                Self::UnbindRemoveGpu,
                Self::WriteModprobeConf,
                Self::CheckVulkanIcd,
                hotplug_rm,
            ],
            GfxMode::Vfio => vec![
                dis_pers,
                dis_powerd,
                kill_gpu_use,
                Self::UnloadGpuDrivers,
                Self::WriteModprobeConf,
                Self::CheckVulkanIcd,
                Self::LoadVfioDrivers,
            ],
            GfxMode::AsusEgpu => vec![
                Self::WriteModprobeConf,
                Self::CheckVulkanIcd,
                Self::LoadGpuDrivers,
                en_pers,
                en_powerd,
            ],
            GfxMode::AsusMuxDgpu => vec![
                Self::WriteModprobeConf,
                Self::CheckVulkanIcd,
                Self::LoadGpuDrivers,
                en_pers,
                en_powerd,
            ],
            GfxMode::NoMode => Vec::new(),
        }
    }

    /// The steps for the switch `from -> to`, or the verdict that the user
    /// must act first. The mux change always needs a reboot, so from the mux
    /// mode the only plan is to set the mux back to the igpu.
    pub fn action_list_for_switch(
        config: &GfxConfig,
        vendor: GfxVendor,
        from: GfxMode,
        to: GfxMode,
    ) -> (r: Action)
        ensures
            r@ =~~= spec_switch_plan(
                from,
                to,
                vendor,
                config.hotplug_type,
                config.no_logind,
                config.always_reboot,
            ),
    {
        let mut wait_logout = StagedAction::NoLogind;
        let mut stop_display = StagedAction::NoLogind;
        let mut start_display = StagedAction::NoLogind;
        if !config.no_logind && !config.always_reboot {
            wait_logout = StagedAction::WaitLogout;
            stop_display = StagedAction::StopDisplayManager;
            start_display = StagedAction::StartDisplayManager;
        }

        let mut kill_gpu_use = StagedAction::NotNvidia;
        let mut dis_pers = StagedAction::NotNvidia;
        let mut en_pers = StagedAction::NotNvidia;
        let mut dis_powerd = StagedAction::NotNvidia;
        let mut en_powerd = StagedAction::NotNvidia;
        if vendor == GfxVendor::Nvidia {
            kill_gpu_use = StagedAction::KillNvidia;
            dis_pers = StagedAction::DisableNvidiaPersistenced;
            en_pers = StagedAction::EnableNvidiaPersistenced;
            dis_powerd = StagedAction::DisableNvidiaPowerd;
            en_powerd = StagedAction::EnableNvidiaPowerd;
        } else if vendor == GfxVendor::Amd {
            kill_gpu_use = StagedAction::KillAmd;
        }

        let hotplug_rm = match config.hotplug_type {
            HotplugType::Std => StagedAction::HotplugUnplug,
            HotplugType::Asus => StagedAction::AsusDgpuDisable,
            HotplugType::NoHotplug => StagedAction::DevTreeManaged,
        };

        let hotplug_add = match config.hotplug_type {
            HotplugType::Std => StagedAction::HotplugPlug,
            HotplugType::Asus => StagedAction::AsusDgpuEnable,
            HotplugType::NoHotplug => StagedAction::DevTreeManaged,
        };

        match from {
            GfxMode::Hybrid => match to {
                GfxMode::Integrated => Action::StagedActions(vec![
                    wait_logout,
                    stop_display,
                    dis_pers,
                    dis_powerd,
                    kill_gpu_use,
                    StagedAction::UnloadGpuDrivers,
                    StagedAction::UnbindRemoveGpu,
                    StagedAction::WriteModprobeConf,
                    StagedAction::CheckVulkanIcd,
                    hotplug_rm,
                    start_display,
                ]),
                // Ask the user to do the switch instead of doing something unexpected
                GfxMode::Vfio => Action::UserAction(UserActionRequired::SwitchToIntegrated),
                GfxMode::AsusEgpu => Action::StagedActions(vec![
                    wait_logout,
                    stop_display,
                    dis_pers,
                    dis_powerd,
                    kill_gpu_use,
                    StagedAction::UnloadGpuDrivers,
                    StagedAction::UnbindRemoveGpu,
                    StagedAction::WriteModprobeConf,
                    StagedAction::CheckVulkanIcd,
                    StagedAction::AsusEgpuEnable,
                    StagedAction::RescanPci,
                    StagedAction::LoadGpuDrivers,
                    en_pers,
                    en_powerd,
                    start_display,
                ]),
                GfxMode::AsusMuxDgpu => Action::StagedActions(vec![
                    StagedAction::CheckVulkanIcd,
                    en_pers,
                    en_powerd,
                    StagedAction::AsusMuxDgpu,
                ]),
                GfxMode::Hybrid | GfxMode::NvidiaNoModeset | GfxMode::NoMode => {
                    Action::UserAction(UserActionRequired::Nothing)
                }
            },
            GfxMode::Integrated => match to {
                GfxMode::Hybrid => Action::StagedActions(vec![
                    wait_logout,
                    stop_display,
                    StagedAction::WriteModprobeConf,
                    StagedAction::CheckVulkanIcd,
                    hotplug_add,
                    StagedAction::RescanPci,
                    StagedAction::LoadGpuDrivers,
                    en_pers,
                    en_powerd,
                    start_display,
                ]),
                GfxMode::NvidiaNoModeset => Action::StagedActions(vec![
                    StagedAction::WriteModprobeConf,
                    StagedAction::CheckVulkanIcd,
                    StagedAction::RescanPci,
                    StagedAction::LoadGpuDrivers,
                    en_pers,
                    en_powerd,
                ]),
                GfxMode::Vfio => Action::StagedActions(vec![
                    StagedAction::WriteModprobeConf,
                    StagedAction::CheckVulkanIcd,
                    hotplug_add,
                    // Make the PCI devices available
                    StagedAction::RescanPci,
                    dis_pers,
                    dis_powerd,
                    kill_gpu_use,
                    // The rescan can load the gpu drivers automatically
                    StagedAction::UnloadGpuDrivers,
                    StagedAction::UnbindGpu,
                    StagedAction::LoadVfioDrivers,
                ]),
                GfxMode::AsusEgpu => Action::StagedActions(vec![
                    wait_logout,
                    stop_display,
                    StagedAction::WriteModprobeConf,
                    StagedAction::CheckVulkanIcd,
                    StagedAction::AsusEgpuEnable,
                    StagedAction::RescanPci,
                    StagedAction::LoadGpuDrivers,
                    en_pers,
                    en_powerd,
                    start_display,
                ]),
                GfxMode::AsusMuxDgpu => Action::StagedActions(vec![
                    StagedAction::WriteModprobeConf,
                    StagedAction::CheckVulkanIcd,
                    // Must always assume the possibility dgpu_disable was set
                    hotplug_add,
                    en_pers,
                    en_powerd,
                    StagedAction::AsusMuxDgpu,
                ]),
                GfxMode::Integrated | GfxMode::NoMode => {
                    Action::UserAction(UserActionRequired::Nothing)
                }
            },
            GfxMode::NvidiaNoModeset => match to {
                GfxMode::Integrated => Action::StagedActions(vec![
                    StagedAction::SendDetachEvent,
                    dis_pers,
                    dis_powerd,
                    kill_gpu_use,
                    StagedAction::UnloadGpuDrivers,
                    StagedAction::UnbindRemoveGpu,
                    StagedAction::WriteModprobeConf,
                    StagedAction::CheckVulkanIcd,
                ]),
                GfxMode::Vfio => Action::StagedActions(vec![
                    StagedAction::SendDetachEvent,
                    dis_pers,
                    dis_powerd,
                    kill_gpu_use,
                    StagedAction::UnloadGpuDrivers,
                    StagedAction::WriteModprobeConf,
                    StagedAction::CheckVulkanIcd,
                    StagedAction::LoadVfioDrivers,
                ]),
                GfxMode::AsusMuxDgpu => Action::StagedActions(vec![
                    en_pers,
                    en_powerd,
                    StagedAction::AsusMuxDgpu,
                ]),
                GfxMode::Hybrid
                | GfxMode::AsusEgpu
                | GfxMode::NvidiaNoModeset
                | GfxMode::NoMode => Action::UserAction(UserActionRequired::Nothing),
            },
            GfxMode::Vfio => match to {
                GfxMode::Hybrid | GfxMode::NvidiaNoModeset => Action::StagedActions(vec![
                    kill_gpu_use,
                    StagedAction::UnloadVfioDrivers,
                    StagedAction::WriteModprobeConf,
                    StagedAction::CheckVulkanIcd,
                    StagedAction::RescanPci,
                    StagedAction::LoadGpuDrivers,
                ]),
                GfxMode::Integrated => Action::StagedActions(vec![
                    kill_gpu_use,
                    StagedAction::UnloadVfioDrivers,
                    StagedAction::UnbindRemoveGpu,
                ]),
                GfxMode::AsusEgpu => Action::StagedActions(vec![
                    wait_logout,
                    stop_display,
                    StagedAction::UnloadVfioDrivers,
                    StagedAction::UnbindRemoveGpu,
                    StagedAction::WriteModprobeConf,
                    StagedAction::CheckVulkanIcd,
                    StagedAction::AsusEgpuEnable,
                    StagedAction::RescanPci,
                    StagedAction::LoadGpuDrivers,
                    en_pers,
                    en_powerd,
                    start_display,
                ]),
                GfxMode::AsusMuxDgpu => Action::StagedActions(vec![
                    en_pers,
                    en_powerd,
                    StagedAction::AsusMuxDgpu,
                ]),
                GfxMode::Vfio | GfxMode::NoMode => {
                    Action::UserAction(UserActionRequired::Nothing)
                }
            },
            GfxMode::AsusEgpu => match to {
                GfxMode::Hybrid => Action::StagedActions(vec![
                    wait_logout,
                    stop_display,
                    dis_pers,
                    dis_powerd,
                    kill_gpu_use,
                    StagedAction::UnloadGpuDrivers,
                    StagedAction::UnbindRemoveGpu,
                    StagedAction::WriteModprobeConf,
                    StagedAction::CheckVulkanIcd,
                    StagedAction::AsusEgpuDisable,
                    // Ensure the dgpu is enabled
                    StagedAction::AsusDgpuEnable,
                    StagedAction::RescanPci,
                    StagedAction::LoadGpuDrivers,
                    en_pers,
                    en_powerd,
                    start_display,
                ]),
                GfxMode::Integrated => Action::StagedActions(vec![
                    wait_logout,
                    stop_display,
                    dis_pers,
                    dis_powerd,
                    kill_gpu_use,
                    StagedAction::UnloadGpuDrivers,
                    StagedAction::UnbindRemoveGpu,
                    StagedAction::WriteModprobeConf,
                    StagedAction::AsusEgpuDisable,
                    // The egpu disable also enables the dgpu, which can
                    // reload the drivers, so unload and unbind once more
                    StagedAction::UnloadGpuDrivers,
                    StagedAction::UnbindRemoveGpu,
                    StagedAction::WriteModprobeConf,
                    StagedAction::CheckVulkanIcd,
                    // Also need to ensure the dgpu is off
                    hotplug_rm,
                    start_display,
                ]),
                GfxMode::Vfio => Action::UserAction(UserActionRequired::SwitchToIntegrated),
                GfxMode::AsusMuxDgpu => Action::UserAction(UserActionRequired::AsusEgpuDisable),
                GfxMode::AsusEgpu | GfxMode::NvidiaNoModeset | GfxMode::NoMode => {
                    Action::UserAction(UserActionRequired::Nothing)
                }
            },
            // The mux change *always* requires a reboot
            GfxMode::AsusMuxDgpu => match to {
                GfxMode::AsusMuxDgpu => Action::UserAction(UserActionRequired::Nothing),
                _ => Action::StagedActions(vec![StagedAction::AsusMuxIgpu]),
            },
            GfxMode::NoMode => Action::UserAction(UserActionRequired::Nothing),
        }
    }
}

/// Law: the switch planner is total and never hands out an empty list of
/// steps — every `(from, to)` pair yields either a verdict or work to do.
pub proof fn lemma_plan_steps_nonempty(
    from: GfxMode,
    to: GfxMode,
    vendor: GfxVendor,
    hotplug: HotplugType,
    no_logind: bool,
    always_reboot: bool,
)
    ensures
        spec_switch_plan(from, to, vendor, hotplug, no_logind, always_reboot) matches
            ActionView::Steps(s) ==> s.len() > 0,
{
}

/// Law: asking for the mode already in place plans nothing at all.
pub proof fn lemma_plan_reflexive(
    m: GfxMode,
    vendor: GfxVendor,
    hotplug: HotplugType,
    no_logind: bool,
    always_reboot: bool,
)
    ensures
        spec_switch_plan(m, m, vendor, hotplug, no_logind, always_reboot)
            == ActionView::User(UserActionRequired::Nothing),
{
}

/// Law: with logind disabled, or when every switch reboots anyway, no plan
/// touches the session or the display manager.
pub proof fn lemma_plan_gates_logind(
    from: GfxMode,
    to: GfxMode,
    vendor: GfxVendor,
    hotplug: HotplugType,
    no_logind: bool,
    always_reboot: bool,
)
    requires
        no_logind || always_reboot,
    ensures
        spec_switch_plan(from, to, vendor, hotplug, no_logind, always_reboot) matches
            ActionView::Steps(s) ==> {
            &&& !s.contains(StagedAction::WaitLogout)
            &&& !s.contains(StagedAction::StopDisplayManager)
            &&& !s.contains(StagedAction::StartDisplayManager)
        },
{
}

/// Law: on a dgpu that is not Nvidia, no plan carries a real Nvidia step;
/// the vendor-conditional slots degenerate to markers.
pub proof fn lemma_plan_gates_nvidia(
    from: GfxMode,
    to: GfxMode,
    vendor: GfxVendor,
    hotplug: HotplugType,
    no_logind: bool,
    always_reboot: bool,
)
    requires
        !(vendor is Nvidia),
    ensures
        spec_switch_plan(from, to, vendor, hotplug, no_logind, always_reboot) matches
            ActionView::Steps(s) ==> {
            &&& !s.contains(StagedAction::KillNvidia)
            &&& !s.contains(StagedAction::EnableNvidiaPersistenced)
            &&& !s.contains(StagedAction::DisableNvidiaPersistenced)
            &&& !s.contains(StagedAction::EnableNvidiaPowerd)
            &&& !s.contains(StagedAction::DisableNvidiaPowerd)
        },
{
}

/// Law: the boot plans carry real Nvidia service steps only for Nvidia.
pub proof fn lemma_boot_plan_gates_nvidia(mode: GfxMode, vendor: GfxVendor, hotplug: HotplugType)
    requires
        !(vendor is Nvidia),
    ensures
        !spec_boot_plan(mode, vendor, hotplug).contains(StagedAction::KillNvidia),
        !spec_boot_plan(mode, vendor, hotplug).contains(StagedAction::EnableNvidiaPersistenced),
        !spec_boot_plan(mode, vendor, hotplug).contains(StagedAction::DisableNvidiaPersistenced),
        !spec_boot_plan(mode, vendor, hotplug).contains(StagedAction::EnableNvidiaPowerd),
        !spec_boot_plan(mode, vendor, hotplug).contains(StagedAction::DisableNvidiaPowerd),
{
}

/// The class a login session carries.
#[derive(Debug, Clone, Copy, PartialEq, Eq, Structural)]
pub enum SessionClass {
    User,
    Greeter,
    LockScreen,
}

/// How a login session talks to a display, if at all.
#[derive(Debug, Clone, Copy, PartialEq, Eq, Structural)]
pub enum SessionType {
    X11,
    Wayland,
    Mir,
    Tty,
    Unspecified,
}

/// Where a login session stands in its life.
#[derive(Debug, Clone, Copy, PartialEq, Eq, Structural)]
pub enum SessionState {
    Online,
    Active,
    Closing,
}

/// What the session gate reads of one login session.
#[derive(Debug, Clone, Copy, PartialEq, Eq, Structural)]
pub struct SessionInfo {
    pub class: SessionClass,
    pub kind: SessionType,
    pub state: SessionState,
}

/// A graphical user session that still holds the display: user class, a
/// display session type, and not yet closing.
pub open spec fn spec_session_is_graphical(s: SessionInfo) -> bool {
    &&& s.class is User
    &&& (s.kind is X11 || s.kind is Wayland || s.kind is Mir)
    &&& (s.state is Online || s.state is Active)
}

/// Whether any of the sessions still holds the display.
pub fn graphical_user_sessions_exist(sessions: &Vec<SessionInfo>) -> (r: bool)
    ensures
        r == exists|i: int|
            0 <= i < sessions@.len() && spec_session_is_graphical(#[trigger] sessions@[i]),
{
    let mut i: usize = 0;
    while i < sessions.len()
        invariant
            i <= sessions@.len(),
            forall|j: int| 0 <= j < i ==> !spec_session_is_graphical(#[trigger] sessions@[j]),
        decreases sessions@.len() - i,
    {
        let s = sessions[i];
        let graphical = match s.kind {
            SessionType::X11 | SessionType::Wayland | SessionType::Mir => true,
            _ => false,
        };
        let live = match s.state {
            SessionState::Online | SessionState::Active => true,
            SessionState::Closing => false,
        };
        if s.class == SessionClass::User && graphical && live {
            return true;
        }
        i += 1;
    }
    false
}

/// What one round of the logout gate decides.
#[derive(Debug, Clone, Copy, PartialEq, Eq, Structural)]
pub enum LogoutPoll {
    /// Stop waiting: the wait was called off or every graphical session ended
    Done,
    /// The wall-time budget ran out
    TimedOut,
    /// Sleep and look again
    KeepWaiting,
}

/// One round of the logout gate: cancellation opens it, so does an empty
/// session list; a spent timeout aborts; otherwise keep polling. A timeout
/// of zero waits forever.
pub fn wait_logout_step(cancel: bool, any_graphical: bool, elapsed_s: u64, timeout_s: u64) -> (r:
    LogoutPoll)
    ensures
        cancel ==> r is Done,
        !cancel && !any_graphical ==> r is Done,
        !cancel && any_graphical && timeout_s != 0 && elapsed_s > timeout_s ==> r is TimedOut,
        !cancel && any_graphical && (timeout_s == 0 || elapsed_s <= timeout_s) ==> r
            is KeepWaiting,
{
    if cancel {
        LogoutPoll::Done
    } else if !any_graphical {
        LogoutPoll::Done
    } else if timeout_s != 0 && elapsed_s > timeout_s {
        LogoutPoll::TimedOut
    } else {
        LogoutPoll::KeepWaiting
    }
}

/// Law: the only way out of the ASUS MUX dgpu mode is to set the MUX back to
/// the igpu; any other target yields exactly that single step.
pub proof fn lemma_plan_mux_exit(
    to: GfxMode,
    vendor: GfxVendor,
    hotplug: HotplugType,
    no_logind: bool,
    always_reboot: bool,
)
    requires
        !(to is AsusMuxDgpu),
    ensures
        spec_switch_plan(GfxMode::AsusMuxDgpu, to, vendor, hotplug, no_logind, always_reboot)
            =~~= ActionView::Steps(seq![StagedAction::AsusMuxIgpu]),
{
}

} // verus!
