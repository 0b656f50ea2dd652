use supergfxctl::actions::Action;
use supergfxctl::actions::StagedAction;
use supergfxctl::actions::UserActionRequired;
use supergfxctl::config::GfxConfig;
use supergfxctl::pci_device::GfxMode;
use supergfxctl::pci_device::GfxVendor;
use supergfxctl::pci_device::HotplugType;

fn config_with(no_logind: bool, always_reboot: bool, hotplug: HotplugType) -> GfxConfig {
    let mut c = GfxConfig::new(String::from("/etc/supergfxd.conf"));
    c.no_logind = no_logind;
    c.always_reboot = always_reboot;
    c.hotplug_type = hotplug;
    c
}

fn steps_of(a: Action) -> Vec<StagedAction> {
    match a {
        Action::StagedActions(v) => v,
        Action::UserAction(u) => panic!("expected steps, got user action {:?}", u),
    }
}

fn user_action_of(a: Action) -> UserActionRequired {
    match a {
        Action::UserAction(u) => u,
        Action::StagedActions(v) => panic!("expected user action, got steps {:?}", v),
    }
}

fn all_modes() -> Vec<GfxMode> {
    vec![
        GfxMode::Hybrid,
        GfxMode::Integrated,
        GfxMode::NvidiaNoModeset,
        GfxMode::Vfio,
        GfxMode::AsusEgpu,
        GfxMode::AsusMuxDgpu,
        GfxMode::NoMode,
    ]
}

fn all_vendors() -> Vec<GfxVendor> {
    vec![
        GfxVendor::Nvidia,
        GfxVendor::Amd,
        GfxVendor::Intel,
        GfxVendor::Unknown,
        GfxVendor::AsusDgpuDisabled,
    ]
}

fn all_hotplug() -> Vec<HotplugType> {
    vec![HotplugType::Std, HotplugType::Asus, HotplugType::NoHotplug]
}

#[test]
fn hybrid_to_integrated_nvidia_logind_std() {
    let config = config_with(false, false, HotplugType::Std);
    let plan = StagedAction::action_list_for_switch(
        &config,
        GfxVendor::Nvidia,
        GfxMode::Hybrid,
        GfxMode::Integrated,
    );
    assert_eq!(
        steps_of(plan),
        vec![
            StagedAction::WaitLogout,
            StagedAction::StopDisplayManager,
            StagedAction::DisableNvidiaPersistenced,
            StagedAction::DisableNvidiaPowerd,
            StagedAction::KillNvidia,
            StagedAction::UnloadGpuDrivers,
            StagedAction::UnbindRemoveGpu,
            StagedAction::WriteModprobeConf,
            StagedAction::CheckVulkanIcd,
            StagedAction::HotplugUnplug,
            StagedAction::StartDisplayManager,
        ]
    );
}

#[test]
fn integrated_to_vfio_nvidia_no_hotplug() {
    let config = config_with(false, false, HotplugType::NoHotplug);
    let plan = StagedAction::action_list_for_switch(
        &config,
        GfxVendor::Nvidia,
        GfxMode::Integrated,
        GfxMode::Vfio,
    );
    assert_eq!(
        steps_of(plan),
        vec![
            StagedAction::WriteModprobeConf,
            StagedAction::CheckVulkanIcd,
            StagedAction::DevTreeManaged,
            StagedAction::RescanPci,
            StagedAction::DisableNvidiaPersistenced,
            StagedAction::DisableNvidiaPowerd,
            StagedAction::KillNvidia,
            StagedAction::UnloadGpuDrivers,
            StagedAction::UnbindGpu,
            StagedAction::LoadVfioDrivers,
        ]
    );
}

#[test]
fn asus_egpu_to_vfio_needs_integrated_first_any_vendor() {
    let config = config_with(false, false, HotplugType::Std);
    for vendor in all_vendors() {
        let plan =
            StagedAction::action_list_for_switch(&config, vendor, GfxMode::AsusEgpu, GfxMode::Vfio);
        assert_eq!(user_action_of(plan), UserActionRequired::SwitchToIntegrated);
    }
}

#[test]
fn mux_dgpu_to_integrated_plans_mux_igpu_and_reports_reboot() {
    let config = config_with(false, false, HotplugType::Std);
    let plan = StagedAction::action_list_for_switch(
        &config,
        GfxVendor::Nvidia,
        GfxMode::AsusMuxDgpu,
        GfxMode::Integrated,
    );
    assert_eq!(steps_of(plan), vec![StagedAction::AsusMuxIgpu]);
    let reported =
        UserActionRequired::mode_change_action(GfxMode::Integrated, GfxMode::AsusMuxDgpu);
    assert_eq!(reported, UserActionRequired::Reboot);
}

#[test]
fn integrated_to_hybrid_amd_no_logind() {
    let config = config_with(true, false, HotplugType::NoHotplug);
    let plan = StagedAction::action_list_for_switch(
        &config,
        GfxVendor::Amd,
        GfxMode::Integrated,
        GfxMode::Hybrid,
    );
    let steps = steps_of(plan);
    // The planner keeps its no-op markers so every plan has a uniform shape
    assert_eq!(
        steps,
        vec![
            StagedAction::NoLogind,
            StagedAction::NoLogind,
            StagedAction::WriteModprobeConf,
            StagedAction::CheckVulkanIcd,
            StagedAction::DevTreeManaged,
            StagedAction::RescanPci,
            StagedAction::LoadGpuDrivers,
            StagedAction::NotNvidia,
            StagedAction::NotNvidia,
            StagedAction::NoLogind,
        ]
    );
    // With the logind markers elided the work that remains is exactly this
    let real: Vec<StagedAction> = steps
        .into_iter()
        .filter(|s| *s != StagedAction::NoLogind)
        .collect();
    assert_eq!(
        real,
        vec![
            StagedAction::WriteModprobeConf,
            StagedAction::CheckVulkanIcd,
            StagedAction::DevTreeManaged,
            StagedAction::RescanPci,
            StagedAction::LoadGpuDrivers,
            StagedAction::NotNvidia,
            StagedAction::NotNvidia,
        ]
    );
}

#[test]
fn hybrid_to_asus_egpu_nvidia_full_sequence() {
    let config = config_with(false, false, HotplugType::Asus);
    let plan = StagedAction::action_list_for_switch(
        &config,
        GfxVendor::Nvidia,
        GfxMode::Hybrid,
        GfxMode::AsusEgpu,
    );
    assert_eq!(
        steps_of(plan),
        vec![
            StagedAction::WaitLogout,
            StagedAction::StopDisplayManager,
            StagedAction::DisableNvidiaPersistenced,
            StagedAction::DisableNvidiaPowerd,
            StagedAction::KillNvidia,
            StagedAction::UnloadGpuDrivers,
            StagedAction::UnbindRemoveGpu,
            StagedAction::WriteModprobeConf,
            StagedAction::CheckVulkanIcd,
            StagedAction::AsusEgpuEnable,
            StagedAction::RescanPci,
            StagedAction::LoadGpuDrivers,
            StagedAction::EnableNvidiaPersistenced,
            StagedAction::EnableNvidiaPowerd,
            StagedAction::StartDisplayManager,
        ]
    );
}

#[test]
fn asus_egpu_to_integrated_writes_modprobe_twice() {
    let config = config_with(false, false, HotplugType::Asus);
    let plan = StagedAction::action_list_for_switch(
        &config,
        GfxVendor::Nvidia,
        GfxMode::AsusEgpu,
        GfxMode::Integrated,
    );
    let steps = steps_of(plan);
    let writes = steps
        .iter()
        .filter(|s| **s == StagedAction::WriteModprobeConf)
        .count();
    assert_eq!(writes, 2);
    assert_eq!(steps[13], StagedAction::AsusDgpuDisable);
}

#[test]
fn same_mode_plans_nothing_for_every_mode() {
    let config = config_with(false, false, HotplugType::Std);
    for mode in all_modes() {
        for vendor in all_vendors() {
            let plan = StagedAction::action_list_for_switch(&config, vendor, mode, mode);
            assert_eq!(user_action_of(plan), UserActionRequired::Nothing);
        }
    }
}

#[test]
fn mux_dgpu_to_any_other_mode_is_single_mux_step() {
    let config = config_with(false, false, HotplugType::Std);
    for to in all_modes() {
        if to == GfxMode::AsusMuxDgpu {
            continue;
        }
        let plan = StagedAction::action_list_for_switch(
            &config,
            GfxVendor::Nvidia,
            GfxMode::AsusMuxDgpu,
            to,
        );
        assert_eq!(steps_of(plan), vec![StagedAction::AsusMuxIgpu]);
    }
}

#[test]
fn no_logind_or_always_reboot_plans_never_touch_sessions() {
    for (no_logind, always_reboot) in [(true, false), (false, true), (true, true)] {
        for hotplug in all_hotplug() {
            let config = config_with(no_logind, always_reboot, hotplug);
            for from in all_modes() {
                for to in all_modes() {
                    for vendor in all_vendors() {
                        let plan =
                            StagedAction::action_list_for_switch(&config, vendor, from, to);
                        if let Action::StagedActions(steps) = plan {
                            assert!(!steps.contains(&StagedAction::WaitLogout));
                            assert!(!steps.contains(&StagedAction::StopDisplayManager));
                            assert!(!steps.contains(&StagedAction::StartDisplayManager));
                        }
                    }
                }
            }
        }
    }
}

#[test]
fn non_nvidia_plans_never_carry_real_nvidia_steps() {
    let config = config_with(false, false, HotplugType::Std);
    for vendor in [
        GfxVendor::Amd,
        GfxVendor::Intel,
        GfxVendor::Unknown,
        GfxVendor::AsusDgpuDisabled,
    ] {
        for from in all_modes() {
            for to in all_modes() {
                let plan = StagedAction::action_list_for_switch(&config, vendor, from, to);
                if let Action::StagedActions(steps) = plan {
                    assert!(!steps.contains(&StagedAction::KillNvidia));
                    assert!(!steps.contains(&StagedAction::EnableNvidiaPersistenced));
                    assert!(!steps.contains(&StagedAction::DisableNvidiaPersistenced));
                    assert!(!steps.contains(&StagedAction::EnableNvidiaPowerd));
                    assert!(!steps.contains(&StagedAction::DisableNvidiaPowerd));
                }
            }
        }
    }
}

#[test]
fn every_plan_is_a_verdict_or_nonempty_steps() {
    for no_logind in [false, true] {
        for always_reboot in [false, true] {
            for hotplug in all_hotplug() {
                let config = config_with(no_logind, always_reboot, hotplug);
                for from in all_modes() {
                    for to in all_modes() {
                        for vendor in all_vendors() {
                            let plan =
                                StagedAction::action_list_for_switch(&config, vendor, from, to);
                            if let Action::StagedActions(steps) = plan {
                                assert!(!steps.is_empty());
                            }
                        }
                    }
                }
            }
        }
    }
}

#[test]
fn boot_plan_hybrid_nvidia() {
    let config = config_with(false, false, HotplugType::Std);
    let steps =
        StagedAction::action_list_for_boot(&config, GfxVendor::Nvidia, GfxMode::Hybrid);
    assert_eq!(
        steps,
        vec![
            StagedAction::WriteModprobeConf,
            StagedAction::CheckVulkanIcd,
            StagedAction::HotplugPlug,
            StagedAction::RescanPci,
            StagedAction::LoadGpuDrivers,
            StagedAction::EnableNvidiaPersistenced,
            StagedAction::EnableNvidiaPowerd,
        ]
    );
}

#[test]
fn boot_plan_integrated_amd_keeps_markers() {
    let config = config_with(false, false, HotplugType::NoHotplug);
    let steps =
        StagedAction::action_list_for_boot(&config, GfxVendor::Amd, GfxMode::Integrated);
    assert_eq!(
        steps,
        vec![
            StagedAction::NotNvidia,
            StagedAction::NotNvidia,
            StagedAction::KillAmd,
            StagedAction::UnloadGpuDrivers,
            StagedAction::UnbindRemoveGpu,
            StagedAction::WriteModprobeConf,
            StagedAction::CheckVulkanIcd,
            StagedAction::DevTreeManaged,
        ]
    );
}

#[test]
fn boot_plan_no_mode_is_empty() {
    let config = config_with(false, false, HotplugType::Std);
    let steps = StagedAction::action_list_for_boot(&config, GfxVendor::Nvidia, GfxMode::NoMode);
    assert!(steps.is_empty());
}

#[test]
fn mode_change_action_table() {
    assert_eq!(
        UserActionRequired::mode_change_action(GfxMode::Hybrid, GfxMode::Integrated),
        UserActionRequired::Logout
    );
    assert_eq!(
        UserActionRequired::mode_change_action(GfxMode::Hybrid, GfxMode::Vfio),
        UserActionRequired::SwitchToIntegrated
    );
    assert_eq!(
        UserActionRequired::mode_change_action(GfxMode::Integrated, GfxMode::Vfio),
        UserActionRequired::Nothing
    );
    assert_eq!(
        UserActionRequired::mode_change_action(GfxMode::Vfio, GfxMode::Integrated),
        UserActionRequired::Nothing
    );
    assert_eq!(
        UserActionRequired::mode_change_action(GfxMode::AsusMuxDgpu, GfxMode::Hybrid),
        UserActionRequired::Reboot
    );
    assert_eq!(
        UserActionRequired::mode_change_action(GfxMode::AsusEgpu, GfxMode::Vfio),
        UserActionRequired::SwitchToIntegrated
    );
    assert_eq!(
        UserActionRequired::mode_change_action(GfxMode::Integrated, GfxMode::AsusMuxDgpu),
        UserActionRequired::Reboot
    );
}
